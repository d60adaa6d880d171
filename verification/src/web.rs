//! Extractor types and the fallback extraction combinator.

pub mod either;
pub mod form;
pub mod header;
pub mod json;
pub mod lab_query;
pub mod path;
pub mod qs;
pub mod qs_query;
pub mod query;

pub use either::Either;
pub use form::Form;
pub use header::Header;
pub use json::Json;
pub use lab_query::Query as LabQuery;
pub use path::Path;
pub use qs::QsForm;
pub use qs_query::QsQuery;
pub use query::Query;
