//! The fallback extraction combinator: try decoder A on the captured request
//! body, and only on A's failure retry the very same bytes with decoder B.
//!
//! The combinator is modelled as an explicit state machine. The surrounding
//! task owns the asynchronous sub-operations (capturing the body, running each
//! decode attempt); whenever one of them completes it reports an
//! [`ExtractEvent`] to [`step`], which answers with the next state and the
//! next [`ExtractAction`] to perform. The transition relation [`step_spec`]
//! pins every transition exactly, and the proof functions at the end of this
//! module establish the combinator's sequencing laws: the body is captured at
//! most once, attempt B never starts unless attempt A has failed, attempt B
//! sees byte-for-byte the captured bytes, and a double failure aggregates both
//! errors while exposing A's as the cause.

use vstd::prelude::*;

use crate::web::form::Form;
use crate::web::json::Json;

verus! {

/// The successful outcome of a fallback extraction: which of the two
/// alternatives produced the already-validated value.
#[derive(Debug, PartialEq, Eq)]
pub enum Either<L, R> {
    Left(L),
    Right(R),
}

impl<T> Either<Form<T>, Json<T>> {
    /// Unwrap into the inner `T` value, whichever alternative produced it.
    pub fn into_inner(self) -> (r: T)
        ensures
            self matches Either::Left(form) ==> r == form.0,
            self matches Either::Right(json) ==> r == json.0,
    {
        match self {
            Either::Left(form) => form.into_inner(),
            Either::Right(json) => json.into_inner(),
        }
    }
}

impl<T> Either<Json<T>, Form<T>> {
    /// Unwrap into the inner `T` value, whichever alternative produced it.
    pub fn into_inner(self) -> (r: T)
        ensures
            self matches Either::Left(json) ==> r == json.0,
            self matches Either::Right(form) ==> r == form.0,
    {
        match self {
            Either::Left(json) => json.into_inner(),
            Either::Right(form) => form.into_inner(),
        }
    }
}

/// The aggregated failure of a fallback extraction.
///
/// `Bytes` means the body itself could not be captured: no decode attempt was
/// possible. `Extract` means both attempts ran and failed; the first field is
/// attempt A's error and the second attempt B's.
#[derive(Debug)]
pub enum EitherExtractError<B, L, R> {
    Bytes(B),
    Extract(L, R),
}

/// The outward-facing cause of an aggregated error: the transport failure, or
/// else attempt A's error. Attempt B's error is deliberately not part of the
/// cause; it stays retrievable through [`EitherExtractError::into_fallback_error`].
pub open spec fn cause_of<B, L, R>(err: EitherExtractError<B, L, R>) -> Either<B, L> {
    match err {
        EitherExtractError::Bytes(e) => Either::Left(e),
        EitherExtractError::Extract(a_error, _) => Either::Right(a_error),
    }
}

impl<B, L, R> EitherExtractError<B, L, R> {
    /// The representative cause: the transport error, or attempt A's error.
    pub fn into_cause(self) -> (r: Either<B, L>)
        ensures
            r == cause_of(self),
    {
        match self {
            EitherExtractError::Bytes(e) => Either::Left(e),
            EitherExtractError::Extract(a_error, _) => Either::Right(a_error),
        }
    }

    /// Attempt B's error, when both attempts ran and failed. The default
    /// cause drops it, so this is the explicit way to retrieve it.
    pub fn into_fallback_error(self) -> (r: Option<R>)
        ensures
            self matches EitherExtractError::Bytes(_) ==> r is None,
            self matches EitherExtractError::Extract(_, b_error) ==> r == Some(b_error),
    {
        match self {
            EitherExtractError::Bytes(_) => None,
            EitherExtractError::Extract(_, b_error) => Some(b_error),
        }
    }
}

/// Progress of one fallback extraction. Transitions are one-directional; no
/// state is ever revisited.
pub enum ExtractState<LE> {
    /// The body capture is in flight.
    AwaitingBytes,
    /// Attempt A is in flight; a copy of the captured bytes is retained so
    /// that attempt B, if needed, can replay them.
    AttemptingA { replay: Vec<u8> },
    /// Attempt B is in flight; attempt A's error is retained for the
    /// aggregate.
    AttemptingB { a_error: LE },
    /// Finished: exactly one outcome or one aggregated error was emitted.
    Done,
}

/// What the surrounding task reports to the machine: the completion of the
/// one sub-operation that is currently in flight.
pub enum ExtractEvent<L, R, B, LE, RE> {
    /// The body capture finished: the whole body, or a transport error.
    BytesReady(Result<Vec<u8>, B>),
    /// Attempt A finished: a decoded-and-validated value, or its error.
    AttemptADone(Result<L, LE>),
    /// Attempt B finished: a decoded-and-validated value, or its error.
    AttemptBDone(Result<R, RE>),
}

/// What the machine asks the surrounding task to do next.
pub enum ExtractAction<L, R, B, LE, RE> {
    /// Start attempt A, handing it these bytes as its body source.
    StartAttemptA { bytes: Vec<u8> },
    /// Start attempt B, handing it these bytes as its body source.
    StartAttemptB { bytes: Vec<u8> },
    /// Stop: the extraction produced this one result.
    Finish(Result<Either<L, R>, EitherExtractError<B, LE, RE>>),
}

/// How far a state has progressed. Every transition strictly increases this
/// rank, which is what makes the machine one-directional.
pub open spec fn state_rank<LE>(s: ExtractState<LE>) -> int {
    match s {
        ExtractState::AwaitingBytes => 0,
        ExtractState::AttemptingA { .. } => 1,
        ExtractState::AttemptingB { .. } => 2,
        ExtractState::Done => 3,
    }
}

/// Which event the machine accepts in which state: exactly the completion of
/// the sub-operation that the state says is in flight.
pub open spec fn event_fits<L, R, B, LE, RE>(
    s: ExtractState<LE>,
    ev: ExtractEvent<L, R, B, LE, RE>,
) -> bool {
    match ev {
        ExtractEvent::BytesReady(_) => s is AwaitingBytes,
        ExtractEvent::AttemptADone(_) => s is AttemptingA,
        ExtractEvent::AttemptBDone(_) => s is AttemptingB,
    }
}

/// The transition relation of the fallback state machine.
///
/// - A successful capture starts attempt A on the captured bytes and retains
///   a byte-identical replay copy; a failed capture is terminal.
/// - Attempt A's success finishes with `Left`; its failure starts attempt B
///   on the retained replay bytes and retains A's error.
/// - Attempt B's success finishes with `Right`; its failure finishes with the
///   aggregate of both errors, A's first.
pub open spec fn step_spec<L, R, B, LE, RE>(
    pre: ExtractState<LE>,
    ev: ExtractEvent<L, R, B, LE, RE>,
    post: ExtractState<LE>,
    action: ExtractAction<L, R, B, LE, RE>,
) -> bool {
    match (pre, ev) {
        (ExtractState::AwaitingBytes, ExtractEvent::BytesReady(Result::Ok(bytes))) => {
            &&& post matches ExtractState::AttemptingA { replay } && replay@ == bytes@
            &&& action matches ExtractAction::StartAttemptA { bytes: handed } && handed == bytes
        },
        (ExtractState::AwaitingBytes, ExtractEvent::BytesReady(Result::Err(e))) => {
            &&& post is Done
            &&& action == ExtractAction::<L, R, B, LE, RE>::Finish(
                Result::Err(EitherExtractError::Bytes(e)),
            )
        },
        (ExtractState::AttemptingA { replay }, ExtractEvent::AttemptADone(Result::Ok(value))) => {
            &&& post is Done
            &&& action == ExtractAction::<L, R, B, LE, RE>::Finish(
                Result::Ok(Either::Left(value)),
            )
        },
        (ExtractState::AttemptingA { replay }, ExtractEvent::AttemptADone(Result::Err(a_error))) => {
            &&& post == ExtractState::AttemptingB { a_error }
            &&& action matches ExtractAction::StartAttemptB { bytes: handed } && handed == replay
        },
        (ExtractState::AttemptingB { a_error }, ExtractEvent::AttemptBDone(Result::Ok(value))) => {
            &&& post is Done
            &&& action == ExtractAction::<L, R, B, LE, RE>::Finish(
                Result::Ok(Either::Right(value)),
            )
        },
        (ExtractState::AttemptingB { a_error }, ExtractEvent::AttemptBDone(Result::Err(b_error))) => {
            &&& post is Done
            &&& action == ExtractAction::<L, R, B, LE, RE>::Finish(
                Result::Err(EitherExtractError::Extract(a_error, b_error)),
            )
        },
        _ => false,
    }
}

/// Copy a byte buffer. Attempt B must see byte-for-byte what attempt A saw,
/// so the copy's contract is exact content equality.
fn copy_bytes(v: &Vec<u8>) -> (r: Vec<u8>)
    ensures
        r@ == v@,
{
    let mut r: Vec<u8> = Vec::new();
    let mut i: usize = 0;
    while i < v.len()
        invariant
            i <= v.len(),
            r@ == v@.subrange(0, i as int),
        decreases v.len() - i,
    {
        r.push(v[i]);
        assert(v@.subrange(0, (i + 1) as int) =~= v@.subrange(0, i as int).push(v@[i as int]));
        i = i + 1;
    }
    proof {
        assert(r@ =~= v@);
    }
    r
}

/// Advance the fallback state machine by one completed sub-operation.
///
/// The caller owns the state, reports the event that completed, and receives
/// the successor state together with the one action to perform next.
pub fn step<L, R, B, LE, RE>(
    state: ExtractState<LE>,
    event: ExtractEvent<L, R, B, LE, RE>,
) -> (res: (ExtractState<LE>, ExtractAction<L, R, B, LE, RE>))
    requires
        event_fits(state, event),
    ensures
        step_spec(state, event, res.0, res.1),
{
    match (state, event) {
        (ExtractState::AwaitingBytes, ExtractEvent::BytesReady(Result::Ok(bytes))) => {
            let replay = copy_bytes(&bytes);
            (
                ExtractState::AttemptingA { replay },
                ExtractAction::StartAttemptA { bytes },
            )
        },
        (ExtractState::AwaitingBytes, ExtractEvent::BytesReady(Result::Err(e))) => {
            (
                ExtractState::Done,
                ExtractAction::Finish(Result::Err(EitherExtractError::Bytes(e))),
            )
        },
        (ExtractState::AttemptingA { replay: _ }, ExtractEvent::AttemptADone(Result::Ok(value))) => {
            (
                ExtractState::Done,
                ExtractAction::Finish(Result::Ok(Either::Left(value))),
            )
        },
        (ExtractState::AttemptingA { replay }, ExtractEvent::AttemptADone(Result::Err(a_error))) => {
            (
                ExtractState::AttemptingB { a_error },
                ExtractAction::StartAttemptB { bytes: replay },
            )
        },
        (ExtractState::AttemptingB { a_error: _ }, ExtractEvent::AttemptBDone(Result::Ok(value))) => {
            (
                ExtractState::Done,
                ExtractAction::Finish(Result::Ok(Either::Right(value))),
            )
        },
        (ExtractState::AttemptingB { a_error }, ExtractEvent::AttemptBDone(Result::Err(b_error))) => {
            (
                ExtractState::Done,
                ExtractAction::Finish(Result::Err(EitherExtractError::Extract(a_error, b_error))),
            )
        },
        _ => vstd::pervasive::unreached(),
    }
}

/// Attempt A failed on the captured bytes and attempt B produced this value
/// from a byte-identical replay of them.
pub open spec fn fallback_succeeded<L, R, LE, RE, FA, FB>(
    attempt_a: FA,
    attempt_b: FB,
    bytes: Vec<u8>,
    value: R,
) -> bool where
    FA: FnOnce(Vec<u8>) -> Result<L, LE>,
    FB: FnOnce(Vec<u8>) -> Result<R, RE>,
 {
    exists|replay: Vec<u8>, a_error: LE|
        replay@ == bytes@ && #[trigger] call_ensures(
            attempt_a,
            (bytes,),
            Result::<L, LE>::Err(a_error),
        ) && #[trigger] call_ensures(attempt_b, (replay,), Result::<R, RE>::Ok(value))
}

/// Attempt B failed with this error on a byte-identical replay of the
/// captured bytes.
pub open spec fn fallback_failed<R, RE, FB>(attempt_b: FB, bytes: Vec<u8>, b_error: RE) -> bool
    where FB: FnOnce(Vec<u8>) -> Result<R, RE>
 {
    exists|replay: Vec<u8>|
        replay@ == bytes@ && #[trigger] call_ensures(
            attempt_b,
            (replay,),
            Result::<R, RE>::Err(b_error),
        )
}

/// What the fallback operation may return once the body was captured, given
/// the two attempts' own contracts: attempt A's success as `Left`; otherwise,
/// after a failure of A, attempt B's success on a byte-identical replay as
/// `Right`; otherwise the aggregate of both failures. A capture failure never
/// reaches this point.
pub open spec fn fallback_outcome<L, R, B, LE, RE, FA, FB>(
    attempt_a: FA,
    attempt_b: FB,
    bytes: Vec<u8>,
    res: Result<Either<L, R>, EitherExtractError<B, LE, RE>>,
) -> bool where
    FA: FnOnce(Vec<u8>) -> Result<L, LE>,
    FB: FnOnce(Vec<u8>) -> Result<R, RE>,
 {
    match res {
        Result::Ok(Either::Left(value)) => call_ensures(attempt_a, (bytes,), Result::Ok(value)),
        Result::Ok(Either::Right(value)) => fallback_succeeded(attempt_a, attempt_b, bytes, value),
        Result::Err(EitherExtractError::Extract(a_error, b_error)) => call_ensures(
            attempt_a,
            (bytes,),
            Result::Err(a_error),
        ) && fallback_failed(attempt_b, bytes, b_error),
        Result::Err(EitherExtractError::Bytes(_)) => false,
    }
}

/// A successful fallback meets the operation's outcome contract.
proof fn lemma_fallback_outcome_right<L, R, B, LE, RE, FA, FB>(
    attempt_a: FA,
    attempt_b: FB,
    bytes: Vec<u8>,
    replay: Vec<u8>,
    a_error: LE,
    value: R,
    res: Result<Either<L, R>, EitherExtractError<B, LE, RE>>,
) where
    FA: FnOnce(Vec<u8>) -> Result<L, LE>,
    FB: FnOnce(Vec<u8>) -> Result<R, RE>,

    requires
        replay@ == bytes@,
        call_ensures(attempt_a, (bytes,), Result::<L, LE>::Err(a_error)),
        call_ensures(attempt_b, (replay,), Result::<R, RE>::Ok(value)),
        res == Result::<Either<L, R>, EitherExtractError<B, LE, RE>>::Ok(Either::Right(value)),
    ensures
        fallback_outcome(attempt_a, attempt_b, bytes, res),
{
}

/// A double failure meets the operation's outcome contract.
proof fn lemma_fallback_outcome_extract<L, R, B, LE, RE, FA, FB>(
    attempt_a: FA,
    attempt_b: FB,
    bytes: Vec<u8>,
    replay: Vec<u8>,
    a_error: LE,
    b_error: RE,
    res: Result<Either<L, R>, EitherExtractError<B, LE, RE>>,
) where
    FA: FnOnce(Vec<u8>) -> Result<L, LE>,
    FB: FnOnce(Vec<u8>) -> Result<R, RE>,

    requires
        replay@ == bytes@,
        call_ensures(attempt_a, (bytes,), Result::<L, LE>::Err(a_error)),
        call_ensures(attempt_b, (replay,), Result::<R, RE>::Err(b_error)),
        res == Result::<Either<L, R>, EitherExtractError<B, LE, RE>>::Err(
            EitherExtractError::Extract(a_error, b_error),
        ),
    ensures
        fallback_outcome(attempt_a, attempt_b, bytes, res),
{
}

/// The combinator's public operation, run to completion: capture result in,
/// one outcome or one aggregated error out.
///
/// The attempts are arbitrary decode-and-validate operations supplied by the
/// caller; each must accept any unconsumed byte buffer, replayed or live. The
/// body drives the state machine, so attempt A runs on the captured bytes,
/// attempt B runs only if attempt A failed and sees a byte-identical replay,
/// and both failures are aggregated when neither succeeds.
#[verifier::rlimit(100)]
pub fn extract_either<L, R, B, LE, RE, FA, FB>(
    capture: Result<Vec<u8>, B>,
    attempt_a: FA,
    attempt_b: FB,
) -> (res: Result<Either<L, R>, EitherExtractError<B, LE, RE>>) where
    FA: FnOnce(Vec<u8>) -> Result<L, LE>,
    FB: FnOnce(Vec<u8>) -> Result<R, RE>,

    requires
        forall|bytes: Vec<u8>| #[trigger] call_requires(attempt_a, (bytes,)),
        forall|bytes: Vec<u8>| #[trigger] call_requires(attempt_b, (bytes,)),
    ensures
        capture matches Result::Err(e) ==> res == Result::<
            Either<L, R>,
            EitherExtractError<B, LE, RE>,
        >::Err(EitherExtractError::Bytes(e)),
        capture matches Result::Ok(bytes) ==> fallback_outcome(attempt_a, attempt_b, bytes, res),
{
    let ghost captured = capture;
    let ghost ga = attempt_a;
    let ghost gb = attempt_b;
    let (state, action) = step::<L, R, B, LE, RE>(
        ExtractState::AwaitingBytes,
        ExtractEvent::BytesReady(capture),
    );
    match action {
        ExtractAction::Finish(res) => {
            proof {
                assert(captured is Err);
            }
            res
        },
        ExtractAction::StartAttemptA { bytes } => {
            let ghost handed_a = bytes;
            proof {
                assert(captured == Result::<Vec<u8>, B>::Ok(handed_a));
                assert(state matches ExtractState::AttemptingA { replay } && replay@
                    == handed_a@);
            }
            let a_res = attempt_a(bytes);
            let ghost a_outcome = a_res;
            let (state, action) = step(state, ExtractEvent::AttemptADone(a_res));
            match action {
                ExtractAction::Finish(res) => {
                    proof {
                        assert(a_outcome matches Result::Ok(v) && res == Result::<
                            Either<L, R>,
                            EitherExtractError<B, LE, RE>,
                        >::Ok(Either::Left(v)));
                        assert(fallback_outcome(ga, gb, handed_a, res));
                    }
                    res
                },
                ExtractAction::StartAttemptB { bytes } => {
                    let ghost handed_b = bytes;
                    let ghost a_err: LE = choose|e: LE| a_outcome == Result::<L, LE>::Err(e);
                    proof {
                        assert(handed_b@ == handed_a@);
                        assert(state matches ExtractState::AttemptingB { a_error } && a_outcome
                            == Result::<L, LE>::Err(a_error));
                        assert(a_outcome == Result::<L, LE>::Err(a_err));
                    }
                    let b_res = attempt_b(bytes);
                    let ghost b_outcome = b_res;
                    let (_, action) = step(state, ExtractEvent::AttemptBDone(b_res));
                    match action {
                        ExtractAction::Finish(res) => {
                            proof {
                                assert(call_ensures(ga, (handed_a,), Result::<L, LE>::Err(a_err)));
                                match b_outcome {
                                    Result::Ok(value) => lemma_fallback_outcome_right(
                                        ga,
                                        gb,
                                        handed_a,
                                        handed_b,
                                        a_err,
                                        value,
                                        res,
                                    ),
                                    Result::Err(b_error) => lemma_fallback_outcome_extract(
                                        ga,
                                        gb,
                                        handed_a,
                                        handed_b,
                                        a_err,
                                        b_error,
                                        res,
                                    ),
                                }
                            }
                            res
                        },
                        _ => vstd::pervasive::unreached(),
                    }
                },
                _ => vstd::pervasive::unreached(),
            }
        },
        _ => vstd::pervasive::unreached(),
    }
}

/// One recorded transition of a run of the machine.
pub struct ExtractStep<L, R, B, LE, RE> {
    pub pre: ExtractState<LE>,
    pub event: ExtractEvent<L, R, B, LE, RE>,
    pub post: ExtractState<LE>,
    pub action: ExtractAction<L, R, B, LE, RE>,
}

/// A run of one combinator instance: it begins awaiting the body capture,
/// every step follows the transition relation, and consecutive steps are
/// chained state to state.
pub open spec fn valid_run<L, R, B, LE, RE>(t: Seq<ExtractStep<L, R, B, LE, RE>>) -> bool {
    &&& (t.len() > 0 ==> t[0].pre is AwaitingBytes)
    &&& (forall|i: int|
        0 <= i < t.len() ==> #[trigger] step_spec(t[i].pre, t[i].event, t[i].post, t[i].action))
    &&& (forall|i: int| 0 < i < t.len() ==> (#[trigger] t[i].pre) == t[i - 1].post)
}

/// Every transition strictly increases the state's rank, and no transition
/// leaves the terminal state: the machine is one-directional.
pub proof fn lemma_step_advances<L, R, B, LE, RE>(
    pre: ExtractState<LE>,
    ev: ExtractEvent<L, R, B, LE, RE>,
    post: ExtractState<LE>,
    action: ExtractAction<L, R, B, LE, RE>,
)
    requires
        step_spec(pre, ev, post, action),
    ensures
        state_rank(pre) < state_rank(post),
        pre !is Done,
{
}

/// Along a run the ranks of the visited states increase: an earlier step's
/// successor never outranks a later step's starting state.
pub proof fn lemma_run_monotone<L, R, B, LE, RE>(
    t: Seq<ExtractStep<L, R, B, LE, RE>>,
    i: int,
    j: int,
)
    requires
        valid_run(t),
        0 <= i < j < t.len(),
    ensures
        state_rank(t[i].post) <= state_rank(t[j].pre),
        state_rank(t[i].pre) < state_rank(t[j].pre),
    decreases j - i,
{
    lemma_step_advances(t[i].pre, t[i].event, t[i].post, t[i].action);
    if j == i + 1 {
        assert(t[j].pre == t[j - 1].post);
    } else {
        lemma_run_monotone(t, i + 1, j);
        assert(t[i + 1].pre == t[i].post);
        lemma_step_advances(t[i + 1].pre, t[i + 1].event, t[i + 1].post, t[i + 1].action);
    }
}

/// The body source is captured at most once per run, however many decode
/// attempts follow: any two steps that consume a capture are the same step.
pub proof fn lemma_single_capture<L, R, B, LE, RE>(
    t: Seq<ExtractStep<L, R, B, LE, RE>>,
    i: int,
    j: int,
)
    requires
        valid_run(t),
        0 <= i < t.len(),
        0 <= j < t.len(),
        t[i].event is BytesReady,
        t[j].event is BytesReady,
    ensures
        i == j,
{
    assert(step_spec(t[i].pre, t[i].event, t[i].post, t[i].action));
    assert(step_spec(t[j].pre, t[j].event, t[j].post, t[j].action));
    assert(t[i].pre is AwaitingBytes);
    assert(t[j].pre is AwaitingBytes);
    if i < j {
        lemma_run_monotone(t, i, j);
        assert(false);
    } else if j < i {
        lemma_run_monotone(t, j, i);
        assert(false);
    }
}

/// A precedence: if attempt A succeeds, the run finishes with `Left` of its
/// value, and attempt B is never started anywhere in the run.
pub proof fn lemma_a_precedence<L, R, B, LE, RE>(
    t: Seq<ExtractStep<L, R, B, LE, RE>>,
    i: int,
    value: L,
)
    requires
        valid_run(t),
        0 <= i < t.len(),
        t[i].event == ExtractEvent::<L, R, B, LE, RE>::AttemptADone(Result::Ok(value)),
    ensures
        t[i].action == ExtractAction::<L, R, B, LE, RE>::Finish(Result::Ok(Either::Left(value))),
        forall|j: int| 0 <= j < t.len() ==> !((#[trigger] t[j].action) is StartAttemptB),
{
    assert(step_spec(t[i].pre, t[i].event, t[i].post, t[i].action));
    assert(t[i].pre is AttemptingA);
    assert forall|j: int| 0 <= j < t.len() implies !((#[trigger] t[j].action) is StartAttemptB) by {
        if t[j].action is StartAttemptB {
            assert(step_spec(t[j].pre, t[j].event, t[j].post, t[j].action));
            assert(t[j].pre is AttemptingA);
            if i < j {
                lemma_run_monotone(t, i, j);
            } else if j < i {
                lemma_run_monotone(t, j, i);
            }
            assert(false);
        }
    }
}

/// Fallback correctness, the replay half: the bytes handed to attempt A are
/// the captured bytes, and the bytes handed to attempt B are byte-for-byte
/// identical to them.
pub proof fn lemma_replay_identity<L, R, B, LE, RE>(
    t: Seq<ExtractStep<L, R, B, LE, RE>>,
    i: int,
    j: int,
    captured: Vec<u8>,
    a_bytes: Vec<u8>,
    b_bytes: Vec<u8>,
)
    requires
        valid_run(t),
        0 <= i < t.len(),
        0 <= j < t.len(),
        t[i].event == ExtractEvent::<L, R, B, LE, RE>::BytesReady(Result::Ok(captured)),
        t[i].action == (ExtractAction::<L, R, B, LE, RE>::StartAttemptA { bytes: a_bytes }),
        t[j].action == (ExtractAction::<L, R, B, LE, RE>::StartAttemptB { bytes: b_bytes }),
    ensures
        a_bytes@ == captured@,
        b_bytes@ == captured@,
        b_bytes@ == a_bytes@,
{
    assert(step_spec(t[i].pre, t[i].event, t[i].post, t[i].action));
    assert(step_spec(t[j].pre, t[j].event, t[j].post, t[j].action));
    assert(t[i].pre is AwaitingBytes);
    assert(t[i].post is AttemptingA);
    assert(t[j].pre is AttemptingA);
    if j < i {
        lemma_run_monotone(t, j, i);
        assert(false);
    }
    if j == i {
        assert(false);
    }
    if j > i + 1 {
        assert(t[i + 1].pre == t[i].post);
        lemma_run_monotone(t, i + 1, j);
        assert(false);
    }
    assert(t[j].pre == t[j - 1].post);
}

/// Aggregation on double failure: when attempt A has failed and attempt B
/// fails too, the run finishes with the aggregate of both errors, and the
/// exposed cause is attempt A's error.
pub proof fn lemma_aggregate_on_double_failure<L, R, B, LE, RE>(
    t: Seq<ExtractStep<L, R, B, LE, RE>>,
    i: int,
    j: int,
    a_error: LE,
    b_error: RE,
)
    requires
        valid_run(t),
        0 <= i < t.len(),
        0 <= j < t.len(),
        t[i].event == ExtractEvent::<L, R, B, LE, RE>::AttemptADone(Result::Err(a_error)),
        t[j].event == ExtractEvent::<L, R, B, LE, RE>::AttemptBDone(Result::Err(b_error)),
    ensures
        t[j].action == ExtractAction::<L, R, B, LE, RE>::Finish(
            Result::Err(EitherExtractError::Extract(a_error, b_error)),
        ),
        cause_of(EitherExtractError::<B, LE, RE>::Extract(a_error, b_error))
            == Either::<B, LE>::Right(a_error),
{
    assert(step_spec(t[i].pre, t[i].event, t[i].post, t[i].action));
    assert(step_spec(t[j].pre, t[j].event, t[j].post, t[j].action));
    assert(t[i].pre is AttemptingA);
    assert(t[i].post == ExtractState::<LE>::AttemptingB { a_error });
    assert(t[j].pre is AttemptingB);
    if j < i {
        lemma_run_monotone(t, j, i);
        assert(false);
    }
    if j == i {
        assert(false);
    }
    if j > i + 1 {
        assert(t[i + 1].pre == t[i].post);
        lemma_run_monotone(t, i + 1, j);
        assert(false);
    }
    assert(t[j].pre == t[j - 1].post);
}

/// Attempt B starts only after attempt A was started and has failed; it never
/// runs first, and never after a success of A.
pub proof fn lemma_b_only_after_a_failed<L, R, B, LE, RE>(
    t: Seq<ExtractStep<L, R, B, LE, RE>>,
    j: int,
    b_bytes: Vec<u8>,
)
    requires
        valid_run(t),
        0 <= j < t.len(),
        t[j].action == (ExtractAction::<L, R, B, LE, RE>::StartAttemptB { bytes: b_bytes }),
    ensures
        0 < j,
        t[j].event matches ExtractEvent::AttemptADone(r) && r is Err,
        exists|i: int| 0 <= i < j && (#[trigger] t[i].action) is StartAttemptA,
{
    assert(step_spec(t[j].pre, t[j].event, t[j].post, t[j].action));
    assert(t[j].pre is AttemptingA);
    assert(0 < j) by {
        if j == 0 {
            assert(t[0].pre is AwaitingBytes);
        }
    }
    assert(t[j].pre == t[j - 1].post);
    assert(step_spec(t[j - 1].pre, t[j - 1].event, t[j - 1].post, t[j - 1].action));
    assert(t[j - 1].action is StartAttemptA);
    assert(0 <= j - 1 < j && t[j - 1].action is StartAttemptA);
}

/// A run emits at most one final result: never an outcome and an aggregated
/// error, and never two of either. Any two steps that finish are the same
/// step.
pub proof fn lemma_at_most_one_finish<L, R, B, LE, RE>(
    t: Seq<ExtractStep<L, R, B, LE, RE>>,
    i: int,
    j: int,
)
    requires
        valid_run(t),
        0 <= i < t.len(),
        0 <= j < t.len(),
        t[i].action is Finish,
        t[j].action is Finish,
    ensures
        i == j,
{
    lemma_finish_ends_run(t, i);
    lemma_finish_ends_run(t, j);
}

/// After a step emits a final result the machine is done: a finishing step is
/// the last step of any valid run.
pub proof fn lemma_finish_ends_run<L, R, B, LE, RE>(
    t: Seq<ExtractStep<L, R, B, LE, RE>>,
    i: int,
)
    requires
        valid_run(t),
        0 <= i < t.len(),
        t[i].action is Finish,
    ensures
        i == t.len() - 1,
{
    assert(step_spec(t[i].pre, t[i].event, t[i].post, t[i].action));
    assert(t[i].post is Done);
    if i < t.len() - 1 {
        assert(t[i + 1].pre == t[i].post);
        assert(step_spec(t[i + 1].pre, t[i + 1].event, t[i + 1].post, t[i + 1].action));
        lemma_step_advances(t[i + 1].pre, t[i + 1].event, t[i + 1].post, t[i + 1].action);
        assert(false);
    }
}

/// Isolation: the bytes handed to either attempt of a run are exactly that
/// run's own captured bytes, so two instances never observe each other's
/// buffer.
pub proof fn lemma_attempts_see_captured<L, R, B, LE, RE>(
    t: Seq<ExtractStep<L, R, B, LE, RE>>,
    i: int,
    j: int,
    captured: Vec<u8>,
    bytes: Vec<u8>,
)
    requires
        valid_run(t),
        0 <= i < t.len(),
        0 <= j < t.len(),
        t[i].event == ExtractEvent::<L, R, B, LE, RE>::BytesReady(Result::Ok(captured)),
        (t[j].action == (ExtractAction::<L, R, B, LE, RE>::StartAttemptA { bytes }))
            || (t[j].action == (ExtractAction::<L, R, B, LE, RE>::StartAttemptB { bytes })),
    ensures
        bytes@ == captured@,
{
    assert(step_spec(t[i].pre, t[i].event, t[i].post, t[i].action));
    assert(step_spec(t[j].pre, t[j].event, t[j].post, t[j].action));
    if t[j].action == (ExtractAction::<L, R, B, LE, RE>::StartAttemptA { bytes }) {
        assert(t[j].event is BytesReady);
        lemma_single_capture(t, i, j);
    } else {
        assert(t[i].action == (ExtractAction::<L, R, B, LE, RE>::StartAttemptA { bytes: captured }));
        lemma_replay_identity(t, i, j, captured, captured, bytes);
    }
}

} // verus!
