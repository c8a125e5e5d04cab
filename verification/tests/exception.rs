use helix::exception::{ExceptionInfo, Format, Payload};
use helix::value::Value;

#[test]
fn with_message_makes_a_runtime_error() {
    let info = ExceptionInfo::with_message("boom");
    assert_eq!(info.exception.inner(), Value::RuntimeError);
    assert_eq!(info.message(), "boom");
}

#[test]
fn type_error_makes_a_type_error() {
    let info = ExceptionInfo::type_error("bad input");
    assert_eq!(info.exception.inner(), Value::TypeError);
    assert_eq!(info.message(), "bad input");
}

#[test]
fn raising_a_type_error_hands_over_its_class_and_message() {
    let request = ExceptionInfo::type_error("bad input").raise();
    assert_eq!(request.exception, Value::TypeError);
    assert_eq!(request.format, Format::ToS);
    assert_eq!(request.message, "bad input");
}

#[test]
fn raising_a_runtime_error_hands_over_its_class_and_message() {
    let request = ExceptionInfo::with_message("boom").raise();
    assert_eq!(request.exception, Value::RuntimeError);
    assert_eq!(request.format, Format::ToS);
    assert_eq!(request.message, "boom");
}

#[test]
fn raise_leaves_the_exception_as_it_was() {
    let info = ExceptionInfo::type_error("bad input");
    let _ = info.raise();
    assert_eq!(info.exception.inner(), Value::TypeError);
    assert_eq!(info.message(), "bad input");
}

#[test]
fn a_caught_exception_passes_through() {
    let info = ExceptionInfo::from_any(Payload::Exception(ExceptionInfo::type_error("bad input")));
    assert_eq!(info.exception.inner(), Value::TypeError);
    assert_eq!(info.message(), "bad input");
}

#[test]
fn a_caught_static_message_becomes_a_runtime_error() {
    let info = ExceptionInfo::from_any(Payload::Text("index out of bounds"));
    assert_eq!(info.exception.inner(), Value::RuntimeError);
    assert_eq!(info.message(), "index out of bounds");
}

#[test]
fn a_caught_owned_message_becomes_a_runtime_error() {
    let text: String = format!("no such key: {}", 42);
    let info = ExceptionInfo::from_any(Payload::Owned(text));
    assert_eq!(info.exception.inner(), Value::RuntimeError);
    assert_eq!(info.message(), "no such key: 42");
}

#[test]
fn anything_else_becomes_a_runtime_error_that_quotes_its_rendering() {
    let info = ExceptionInfo::from_any(Payload::Unknown(String::from("Any { .. }")));
    assert_eq!(info.exception.inner(), Value::RuntimeError);
    assert_eq!(info.message(), "Unknown Error; err=Any { .. }");
}

#[test]
fn an_unknown_failure_without_rendering_still_has_a_message() {
    let info = ExceptionInfo::from_any(Payload::Unknown(String::new()));
    assert_eq!(info.message(), "Unknown Error; err=");
    assert!(!info.message().is_empty());
}

#[test]
fn an_empty_message_stays_empty() {
    let info = ExceptionInfo::from_any(Payload::Text(""));
    assert_eq!(info.exception.inner(), Value::RuntimeError);
    assert_eq!(info.message(), "");
}

#[test]
fn a_caught_failure_can_be_raised() {
    let request = ExceptionInfo::from_any(Payload::Text("boom")).raise();
    assert_eq!(request.exception, Value::RuntimeError);
    assert_eq!(request.format, Format::ToS);
    assert_eq!(request.message, "boom");
}
