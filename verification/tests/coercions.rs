use helix::coercions::float::Float64;
use helix::coercions::{invalid, CheckResult, Target, TypeTag, UncheckedValue};
use helix::value::Value;

const ALL_TAGS: [TypeTag; 12] = [
    TypeTag::Object,
    TypeTag::String,
    TypeTag::Array,
    TypeTag::Hash,
    TypeTag::True,
    TypeTag::False,
    TypeTag::Symbol,
    TypeTag::Fixnum,
    TypeTag::Float,
    TypeTag::Bignum,
    TypeTag::Data,
    TypeTag::Other,
];

fn is_numeric(tag: TypeTag) -> bool {
    tag == TypeTag::Float || tag == TypeTag::Fixnum || tag == TypeTag::Bignum
}

#[test]
fn float_accepts_a_host_float() {
    let value = UncheckedValue { value: Value::Handle(0x7f00), tag: TypeTag::Float };
    let checked = value.to_checked::<Float64>().unwrap();
    assert_eq!(checked.inner(), Value::Handle(0x7f00));
    assert_eq!(checked.tag(), TypeTag::Float);
}

#[test]
fn float_accepts_a_small_integer() {
    let value = UncheckedValue { value: Value::Handle(3), tag: TypeTag::Fixnum };
    let checked = value.to_checked::<Float64>().unwrap();
    assert_eq!(checked.inner(), Value::Handle(3));
    assert_eq!(checked.tag(), TypeTag::Fixnum);
}

#[test]
fn float_accepts_a_big_integer() {
    let value = UncheckedValue { value: Value::Handle(0x1000), tag: TypeTag::Bignum };
    let checked = value.to_checked::<Float64>().unwrap();
    assert_eq!(checked.inner(), Value::Handle(0x1000));
    assert_eq!(checked.tag(), TypeTag::Bignum);
}

#[test]
fn float_rejects_a_string_and_says_what_it_got() {
    let value = UncheckedValue { value: Value::Handle(0x2000), tag: TypeTag::String };
    let mismatch = value.to_checked::<Float64>().unwrap_err();
    assert_eq!(mismatch.value, Value::Handle(0x2000));
    assert_eq!(mismatch.expected, "a 64-bit float");
    let message = mismatch.message("\"hello\"");
    assert_eq!(message, "Expected a 64-bit float, got \"hello\"");
    assert!(message.contains("a 64-bit float"));
    assert!(message.contains("\"hello\""));
}

#[test]
fn float_check_succeeds_on_the_three_numeric_tags_only() {
    for tag in ALL_TAGS {
        let value = UncheckedValue { value: Value::Handle(8), tag };
        let result: CheckResult<Float64> = value.to_checked::<Float64>();
        assert_eq!(result.is_ok(), is_numeric(tag));
        assert_eq!(Float64::check(tag), is_numeric(tag));
    }
}

#[test]
fn float_describes_itself() {
    assert_eq!(Float64::describe(), "a 64-bit float");
}

#[test]
fn a_checked_value_is_the_value_that_was_checked() {
    let value = UncheckedValue { value: Value::TypeError, tag: TypeTag::Fixnum };
    let checked = value.to_checked::<Float64>().unwrap();
    assert_eq!(checked.inner(), Value::TypeError);
}

#[test]
fn invalid_puts_the_expectation_before_the_inspection() {
    assert_eq!(invalid("nil", "a 64-bit float"), "Expected a 64-bit float, got nil");
    assert_eq!(invalid("[1, 2]", "a String"), "Expected a String, got [1, 2]");
}

#[test]
fn invalid_with_empty_parts_keeps_the_frame() {
    assert_eq!(invalid("", ""), "Expected , got ");
    assert_eq!(invalid("", "x"), "Expected x, got ");
    assert_eq!(invalid("y", ""), "Expected , got y");
}

#[test]
fn invalid_does_not_swap_its_arguments() {
    assert_ne!(invalid("a", "b"), invalid("b", "a"));
}

#[test]
fn every_rejected_value_is_reported_with_expectation_and_inspection() {
    for tag in ALL_TAGS {
        if is_numeric(tag) {
            continue;
        }
        let value = UncheckedValue { value: Value::Handle(0x44), tag };
        let mismatch = value.to_checked::<Float64>().unwrap_err();
        let message: String = mismatch.message("#<Thing>");
        assert_eq!(message, "Expected a 64-bit float, got #<Thing>");
        assert!(message.contains(mismatch.expected));
        assert!(message.contains("#<Thing>"));
    }
}
