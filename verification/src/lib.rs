//! Request-data extractors that couple decoding with field-level validation.
//!
//! The heart of the crate is the fallback extraction combinator in
//! [`web::either`]: it captures a request body once, attempts to decode it as
//! one representation, and, only if that fails, re-decodes the very same bytes
//! as a second representation. The combinator's sequencing rules are stated as
//! contracts and proved.

pub mod web;
