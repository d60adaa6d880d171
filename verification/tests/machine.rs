//! Tests that drive the fallback extraction machine to completion, including
//! the spec'd scenarios with real form and JSON decoders.

use garde_actix_web::web::either::{
    extract_either, step, Either, EitherExtractError, ExtractAction, ExtractEvent, ExtractState,
};

/// Run one extraction to completion: consume the body source exactly once,
/// then perform each attempt the machine asks for.
fn run_extraction<L, R, B, LE, RE>(
    body_source: &mut dyn FnMut() -> Result<Vec<u8>, B>,
    attempt_a: &mut dyn FnMut(Vec<u8>) -> Result<L, LE>,
    attempt_b: &mut dyn FnMut(Vec<u8>) -> Result<R, RE>,
) -> Result<Either<L, R>, EitherExtractError<B, LE, RE>> {
    let mut state: ExtractState<LE> = ExtractState::AwaitingBytes;
    let mut event: ExtractEvent<L, R, B, LE, RE> = ExtractEvent::BytesReady(body_source());
    loop {
        let (next, action) = step(state, event);
        state = next;
        match action {
            ExtractAction::StartAttemptA { bytes } => {
                event = ExtractEvent::AttemptADone(attempt_a(bytes));
            }
            ExtractAction::StartAttemptB { bytes } => {
                event = ExtractEvent::AttemptBDone(attempt_b(bytes));
            }
            ExtractAction::Finish(result) => return result,
        }
    }
}

#[test]
fn a_success_short_circuits_b() {
    let mut reads = 0u32;
    let mut b_calls = 0u32;
    let result: Result<Either<u32, u32>, EitherExtractError<String, String, String>> =
        run_extraction(
            &mut || {
                reads += 1;
                Ok(vec![1u8, 2, 3])
            },
            &mut |bytes| {
                assert_eq!(bytes, vec![1u8, 2, 3]);
                Ok(42u32)
            },
            &mut |_| {
                b_calls += 1;
                Ok(0u32)
            },
        );
    assert_eq!(result.unwrap(), Either::Left(42));
    assert_eq!(reads, 1);
    assert_eq!(b_calls, 0);
}

#[test]
fn fallback_sees_identical_bytes() {
    let mut seen_by_a: Vec<u8> = Vec::new();
    let mut seen_by_b: Vec<u8> = Vec::new();
    let mut reads = 0u32;
    let result: Result<Either<u32, u32>, EitherExtractError<String, String, String>> =
        run_extraction(
            &mut || {
                reads += 1;
                Ok(vec![9u8, 8, 7, 6])
            },
            &mut |bytes| {
                seen_by_a = bytes;
                Err("a failed".to_string())
            },
            &mut |bytes| {
                seen_by_b = bytes;
                Ok(7u32)
            },
        );
    assert_eq!(result.unwrap(), Either::Right(7));
    assert_eq!(seen_by_a, vec![9u8, 8, 7, 6]);
    assert_eq!(seen_by_b, seen_by_a);
    assert_eq!(reads, 1);
}

#[test]
fn double_failure_aggregates_with_a_as_cause() {
    let mut reads = 0u32;
    let result: Result<Either<u32, u32>, EitherExtractError<String, String, String>> =
        run_extraction(
            &mut || {
                reads += 1;
                Ok(vec![0u8])
            },
            &mut |_| Err("a failed".to_string()),
            &mut |_| Err("b failed".to_string()),
        );
    assert_eq!(reads, 1);
    let err = result.unwrap_err();
    match &err {
        EitherExtractError::Extract(a, b) => {
            assert_eq!(a, "a failed");
            assert_eq!(b, "b failed");
        }
        EitherExtractError::Bytes(_) => panic!("expected an aggregate of both attempt errors"),
    }
    // The default cause exposes only A's error; B's stays retrievable explicitly.
    let err2: EitherExtractError<String, String, String> =
        EitherExtractError::Extract("a failed".to_string(), "b failed".to_string());
    assert_eq!(err2.into_cause(), Either::Right("a failed".to_string()));
    assert_eq!(err.into_fallback_error(), Some("b failed".to_string()));
}

#[test]
fn transport_failure_skips_both_attempts() {
    let mut a_calls = 0u32;
    let mut b_calls = 0u32;
    let result: Result<Either<u32, u32>, EitherExtractError<String, String, String>> =
        run_extraction(
            &mut || Err("connection reset".to_string()),
            &mut |_| {
                a_calls += 1;
                Ok(1u32)
            },
            &mut |_| {
                b_calls += 1;
                Ok(2u32)
            },
        );
    let err = result.unwrap_err();
    match err {
        EitherExtractError::Bytes(e) => assert_eq!(e, "connection reset"),
        EitherExtractError::Extract(_, _) => panic!("capture failure must be terminal"),
    }
    assert_eq!(a_calls, 0);
    assert_eq!(b_calls, 0);
    let cause: Either<String, String> =
        EitherExtractError::<String, String, String>::Bytes("connection reset".to_string())
            .into_cause();
    assert_eq!(cause, Either::Left("connection reset".to_string()));
    let fallback: Option<String> =
        EitherExtractError::<String, String, String>::Bytes("connection reset".to_string())
            .into_fallback_error();
    assert_eq!(fallback, None);
}

#[test]
fn interleaved_runs_stay_isolated() {
    // Two machines advanced in lock step never observe each other's bytes.
    type Ev = ExtractEvent<Vec<u8>, u32, String, String, String>;

    let first: ExtractState<String> = ExtractState::AwaitingBytes;
    let second: ExtractState<String> = ExtractState::AwaitingBytes;

    let ev1: Ev = ExtractEvent::BytesReady(Ok(vec![1u8, 1, 1]));
    let ev2: Ev = ExtractEvent::BytesReady(Ok(vec![2u8, 2]));
    let (first, act1) = step(first, ev1);
    let (second, act2) = step(second, ev2);

    let bytes1 = match act1 {
        ExtractAction::StartAttemptA { bytes } => bytes,
        _ => panic!("expected the first machine to start attempt A"),
    };
    let bytes2 = match act2 {
        ExtractAction::StartAttemptA { bytes } => bytes,
        _ => panic!("expected the second machine to start attempt A"),
    };
    assert_eq!(bytes1, vec![1u8, 1, 1]);
    assert_eq!(bytes2, vec![2u8, 2]);

    // Both A attempts fail; each machine replays its own capture to B.
    let fail1: Ev = ExtractEvent::AttemptADone(Err("a1".to_string()));
    let fail2: Ev = ExtractEvent::AttemptADone(Err("a2".to_string()));
    let (_, act1) = step(first, fail1);
    let (_, act2) = step(second, fail2);
    match (act1, act2) {
        (
            ExtractAction::StartAttemptB { bytes: replay1 },
            ExtractAction::StartAttemptB { bytes: replay2 },
        ) => {
            assert_eq!(replay1, vec![1u8, 1, 1]);
            assert_eq!(replay2, vec![2u8, 2]);
        }
        _ => panic!("expected both machines to start attempt B"),
    }
}

// --- The spec'd scenarios, with a real form decoder as A and a real JSON
// --- decoder as B, both validating the decoded age against 18..=28.

#[derive(Debug, PartialEq)]
struct AgeData {
    age: u8,
}

#[derive(Debug, PartialEq)]
enum DecodeError {
    Parse(String),
    Validation(String),
}

fn validate_age(age: u8) -> Result<AgeData, DecodeError> {
    if (18..=28).contains(&age) {
        Ok(AgeData { age })
    } else {
        Err(DecodeError::Validation(format!("age {} out of range", age)))
    }
}

/// Decode `age=<n>` from a form-encoded body, then validate.
fn form_decode_age(bytes: Vec<u8>) -> Result<AgeData, DecodeError> {
    let pairs: Vec<(String, String)> =
        serde_urlencoded::from_bytes(&bytes).map_err(|e| DecodeError::Parse(e.to_string()))?;
    if pairs.len() != 1 || pairs[0].0 != "age" {
        return Err(DecodeError::Parse("expected a single age field".to_string()));
    }
    let age: u8 = pairs[0]
        .1
        .parse()
        .map_err(|_| DecodeError::Parse("age is not a small number".to_string()))?;
    validate_age(age)
}

/// Decode `{"age":<n>}` from a JSON body, then validate.
fn json_decode_age(bytes: Vec<u8>) -> Result<AgeData, DecodeError> {
    let value: serde_json::Value =
        serde_json::from_slice(&bytes).map_err(|e| DecodeError::Parse(e.to_string()))?;
    let age = value
        .get("age")
        .and_then(|v| v.as_u64())
        .ok_or_else(|| DecodeError::Parse("expected an age member".to_string()))?;
    let age =
        u8::try_from(age).map_err(|_| DecodeError::Parse("age is not a small number".to_string()))?;
    validate_age(age)
}

fn run_form_then_json(
    body: &[u8],
) -> Result<Either<AgeData, AgeData>, EitherExtractError<String, DecodeError, DecodeError>> {
    let mut b_calls = 0u32;
    let result = run_extraction(
        &mut || Ok(body.to_vec()),
        &mut form_decode_age,
        &mut |bytes| {
            b_calls += 1;
            json_decode_age(bytes)
        },
    );
    if let Ok(Either::Left(_)) = &result {
        assert_eq!(b_calls, 0, "a success of A must not invoke B");
    }
    result
}

#[test]
fn json_body_falls_back_to_b() {
    // The body is valid JSON but not a form: A fails to parse, B succeeds.
    let result = run_form_then_json(b"{\"age\":24}");
    assert_eq!(result.unwrap(), Either::Right(AgeData { age: 24 }));
}

#[test]
fn validation_failure_falls_back_then_aggregates() {
    // A decodes age=30 but validation rejects it; B cannot parse it as JSON;
    // the cause of the aggregate is A's validation error.
    let result = run_form_then_json(b"age=30");
    let err = result.unwrap_err();
    match &err {
        EitherExtractError::Extract(a, b) => {
            assert_eq!(a, &DecodeError::Validation("age 30 out of range".to_string()));
            assert!(matches!(b, DecodeError::Parse(_)));
        }
        EitherExtractError::Bytes(_) => panic!("expected an aggregate of both attempt errors"),
    }
    assert_eq!(
        err.into_cause(),
        Either::Right(DecodeError::Validation("age 30 out of range".to_string()))
    );
}

#[test]
fn form_body_wins_without_b() {
    // The body matches A's schema and its validation constraints.
    let result = run_form_then_json(b"age=24");
    assert_eq!(result.unwrap(), Either::Left(AgeData { age: 24 }));
}

// --- The same scenarios through the library's own one-shot operation.

type ExtractResult =
    Result<Either<AgeData, AgeData>, EitherExtractError<String, DecodeError, DecodeError>>;

#[test]
fn extract_either_prefers_a() {
    let result: ExtractResult =
        extract_either(Ok(b"age=24".to_vec()), form_decode_age, json_decode_age);
    assert_eq!(result.unwrap(), Either::Left(AgeData { age: 24 }));
}

#[test]
fn extract_either_falls_back_to_b() {
    let result: ExtractResult =
        extract_either(Ok(b"{\"age\":24}".to_vec()), form_decode_age, json_decode_age);
    assert_eq!(result.unwrap(), Either::Right(AgeData { age: 24 }));
}

#[test]
fn extract_either_aggregates_double_failure() {
    let result: ExtractResult =
        extract_either(Ok(b"age=30".to_vec()), form_decode_age, json_decode_age);
    let err = result.unwrap_err();
    assert_eq!(
        err.into_cause(),
        Either::Right(DecodeError::Validation("age 30 out of range".to_string()))
    );
}

#[test]
fn extract_either_propagates_transport_error() {
    let result: ExtractResult = extract_either(
        Err("connection reset".to_string()),
        form_decode_age,
        json_decode_age,
    );
    match result.unwrap_err() {
        EitherExtractError::Bytes(e) => assert_eq!(e, "connection reset"),
        EitherExtractError::Extract(_, _) => panic!("capture failure must be terminal"),
    }
}
