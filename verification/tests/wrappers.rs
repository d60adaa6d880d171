//! Tests of the extractor value wrappers and the outcome type.

use garde_actix_web::web::either::Either;
use garde_actix_web::web::form::Form;
use garde_actix_web::web::header::Header;
use garde_actix_web::web::json::Json;
use garde_actix_web::web::path::Path;
use garde_actix_web::web::qs::{QsForm, QsQuery};
use garde_actix_web::web::query::Query;

#[test]
fn form_into_inner_returns_the_wrapped_value() {
    assert_eq!(Form(24u8).into_inner(), 24);
}

#[test]
fn json_into_inner_returns_the_wrapped_value() {
    assert_eq!(Json("payload".to_string()).into_inner(), "payload");
}

#[test]
fn header_into_inner_returns_the_wrapped_value() {
    assert_eq!(Header(25u8).into_inner(), 25);
}

#[test]
fn path_into_inner_returns_the_wrapped_value() {
    let path: Path<u8> = Path::from(24u8);
    assert_eq!(path.into_inner(), 24);
}

#[test]
fn query_into_inner_returns_the_wrapped_value() {
    assert_eq!(Query(vec![1u8, 2, 3]).into_inner(), vec![1u8, 2, 3]);
}

#[test]
fn lab_query_into_inner_returns_the_wrapped_value() {
    let query = garde_actix_web::web::lab_query::Query(30u16);
    assert_eq!(query.into_inner(), 30);
}

#[test]
fn qs_query_into_inner_returns_the_wrapped_value() {
    assert_eq!(QsQuery(24i32).into_inner(), 24);
    let configured = garde_actix_web::web::qs_query::QsQuery("nested".to_string());
    assert_eq!(configured.into_inner(), "nested");
}

#[test]
fn qs_form_into_inner_returns_the_wrapped_value() {
    let form: QsForm<u8> = QsForm::from(28u8);
    assert_eq!(form.into_inner(), 28);
}

#[test]
fn either_of_form_and_json_unwraps_both_sides() {
    let left: Either<Form<u8>, Json<u8>> = Either::Left(Form(24u8));
    assert_eq!(left.into_inner(), 24);
    let right: Either<Form<u8>, Json<u8>> = Either::Right(Json(30u8));
    assert_eq!(right.into_inner(), 30);
}

#[test]
fn either_of_json_and_form_unwraps_both_sides() {
    let left: Either<Json<u8>, Form<u8>> = Either::Left(Json(18u8));
    assert_eq!(left.into_inner(), 18);
    let right: Either<Json<u8>, Form<u8>> = Either::Right(Form(28u8));
    assert_eq!(right.into_inner(), 28);
}
