//! Checked conversion between host values and native types.
//!
//! A host value carries a type tag. Each native type accepts the tags of the
//! host representations that convert to it. A value is first checked against
//! the target type; the conversion itself is then left to the host, which may
//! rely on the check having passed.

use std::marker::PhantomData;
use vstd::prelude::*;
use vstd::string::StringExecFns;
use crate::value::Value;

pub mod float;

verus! {

/// The type tags that the host attaches to its values.
#[derive(Clone, Copy, Debug, PartialEq, Eq, Structural)]
pub enum TypeTag {
    Object,
    String,
    Array,
    Hash,
    True,
    False,
    Symbol,
    Fixnum,
    Float,
    Bignum,
    Data,
    /// Any tag that is none of the above.
    Other,
}

/// A native type that host values are converted to.
pub trait Target {
    /// Whether a host value with this tag is one of the representations
    /// that convert to this type.
    spec fn accepts(tag: TypeTag) -> bool;

    /// How error messages describe this type.
    spec fn description() -> Seq<char>;

    /// Decides `accepts`.
    fn check(tag: TypeTag) -> (r: bool)
        ensures
            r == Self::accepts(tag),
    ;

    /// Gives `description`.
    fn describe() -> (r: &'static str)
        ensures
            r@ == Self::description(),
    ;
}

/// A host value together with the type tag that the host reports for it,
/// before any check.
#[derive(Clone, Copy, Debug)]
pub struct UncheckedValue {
    pub value: Value,
    pub tag: TypeTag,
}

/// A host value that has passed the type check for `T`.
///
/// Only `UncheckedValue::to_checked` makes one, so whoever holds a
/// `CheckedValue<T>` may convert its value to `T` without looking at the tag
/// again.
#[derive(Debug)]
pub struct CheckedValue<T: Target> {
    inner: Value,
    tag: TypeTag,
    marker: PhantomData<T>,
}

/// A failed type check: `value` is none of the representations of the type
/// that `expected` describes.
#[derive(Clone, Copy, Debug)]
pub struct Mismatch {
    pub value: Value,
    pub expected: &'static str,
}

pub type CheckResult<T> = Result<CheckedValue<T>, Mismatch>;

impl<T: Target> CheckedValue<T> {
    #[verifier::type_invariant]
    spec fn accepted(self) -> bool {
        T::accepts(self.tag)
    }

    /// The value that was checked.
    pub closed spec fn value(self) -> Value {
        self.inner
    }

    /// The tag under which the value was accepted.
    pub closed spec fn type_tag(self) -> TypeTag {
        self.tag
    }

    /// The checked value, for the host to convert.
    pub fn inner(&self) -> (r: Value)
        ensures
            r == self.value(),
    {
        self.inner
    }

    /// The tag under which the value was accepted. It is always one that
    /// `T` accepts.
    pub fn tag(&self) -> (r: TypeTag)
        ensures
            r == self.type_tag(),
            T::accepts(r),
    {
        proof {
            use_type_invariant(self);
        }
        self.tag
    }
}

impl UncheckedValue {
    /// Checks the value against the target type `T`.
    ///
    /// Succeeds exactly when `T` accepts the value's tag, and then yields the
    /// same value, marked as checked. Otherwise the error names the value
    /// and the type that was expected.
    pub fn to_checked<T: Target>(self) -> (r: CheckResult<T>)
        ensures
            match r {
                Ok(checked) => {
                    &&& T::accepts(self.tag)
                    &&& checked.value() == self.value
                    &&& checked.type_tag() == self.tag
                },
                Err(mismatch) => {
                    &&& !T::accepts(self.tag)
                    &&& mismatch.value == self.value
                    &&& mismatch.expected@ == T::description()
                },
            },
    {
        if T::check(self.tag) {
            Ok(CheckedValue { inner: self.value, tag: self.tag, marker: PhantomData })
        } else {
            Err(Mismatch { value: self.value, expected: T::describe() })
        }
    }
}

/// The text of the error for a value that failed a type check, given how
/// the host inspects the value and how the expected type is described.
pub open spec fn invalid_message(inspected: Seq<char>, expected: Seq<char>) -> Seq<char> {
    "Expected "@ + expected + ", got "@ + inspected
}

/// Builds the error message for a value that failed a type check.
///
/// `inspected` is the host's own rendering of the value.
pub fn invalid(inspected: &str, expected: &str) -> (r: String)
    ensures
        r@ == invalid_message(inspected@, expected@),
{
    let mut message = String::from_str("Expected ");
    message.append(expected);
    message.append(", got ");
    message.append(inspected);
    message
}

impl Mismatch {
    /// The error message for this mismatch, once the host has rendered the
    /// value as `inspected`.
    pub fn message(&self, inspected: &str) -> (r: String)
        ensures
            r@ == invalid_message(inspected@, self.expected@),
    {
        invalid(inspected, self.expected)
    }
}

/// Whether `needle` stands in `haystack` at offset `at`.
pub open spec fn occurs_at(needle: Seq<char>, haystack: Seq<char>, at: int) -> bool {
    &&& 0 <= at
    &&& at + needle.len() <= haystack.len()
    &&& haystack.subrange(at, at + needle.len()) == needle
}

/// Whether `needle` stands somewhere in `haystack`.
pub open spec fn occurs_in(needle: Seq<char>, haystack: Seq<char>) -> bool {
    exists|at: int| occurs_at(needle, haystack, at)
}

/// The message for a failed check quotes both the description of the
/// expected type and the host's rendering of the value.
pub proof fn lemma_invalid_message_quotes_both(inspected: Seq<char>, expected: Seq<char>)
    ensures
        occurs_in(expected, invalid_message(inspected, expected)),
        occurs_in(inspected, invalid_message(inspected, expected)),
{
    let message = invalid_message(inspected, expected);
    let head = "Expected "@;
    let middle = ", got "@;
    let first = head.len() as int;
    let second = first + expected.len() + middle.len();
    assert(message.subrange(first, first + expected.len()) =~= expected);
    assert(occurs_at(expected, message, first));
    assert(message.subrange(second, second + inspected.len()) =~= inspected);
    assert(occurs_at(inspected, message, second));
}

} // verus!
