//! Exceptions: how a native failure becomes an exception of the host.
//!
//! A failure is first turned into an `ExceptionInfo`, which pairs the class
//! of the exception with its message. Raising it hands both to the host,
//! which leaves the native call and does not come back; here, raising yields
//! the request for that.

use vstd::prelude::*;
use vstd::string::StringExecFns;
use crate::class::Class;
use crate::value::Value;

verus! {

/// An exception that is ready to be raised in the host.
#[derive(Debug)]
pub struct ExceptionInfo {
    pub exception: Class,
    pub message: String,
}

/// What an `ExceptionInfo` stands for: the host value of the exception's
/// class, and the text of the message.
pub struct ExceptionView {
    pub exception: Value,
    pub message: Seq<char>,
}

impl View for ExceptionInfo {
    type V = ExceptionView;

    open spec fn view(&self) -> ExceptionView {
        ExceptionView { exception: self.exception@, message: self.message@ }
    }
}

impl Clone for ExceptionInfo {
    fn clone(&self) -> (r: ExceptionInfo)
        ensures
            r@ == self@,
    {
        ExceptionInfo { exception: self.exception, message: self.message.clone() }
    }
}

/// What native code can fail with.
#[derive(Debug)]
pub enum Payload {
    /// The failure is an exception already.
    Exception(ExceptionInfo),
    /// The failure is a message that was written into the program.
    Text(&'static str),
    /// The failure is a message that was put together while running.
    Owned(String),
    /// The failure is something else, of which only a rendering for
    /// debugging is known.
    Unknown(String),
}

/// What a `Payload` stands for.
pub enum PayloadView {
    Exception(ExceptionView),
    Text(Seq<char>),
    Owned(Seq<char>),
    Unknown(Seq<char>),
}

impl View for Payload {
    type V = PayloadView;

    open spec fn view(&self) -> PayloadView {
        match self {
            Payload::Exception(info) => PayloadView::Exception(info@),
            Payload::Text(text) => PayloadView::Text(text@),
            Payload::Owned(text) => PayloadView::Owned(text@),
            Payload::Unknown(rendering) => PayloadView::Unknown(rendering@),
        }
    }
}

/// How the host turns the message of an exception into text.
#[derive(Clone, Copy, Debug, PartialEq, Eq, Structural)]
pub enum Format {
    /// By the message's own conversion to a string.
    ToS,
    /// By the host's inspection of the message.
    Inspect,
}

/// A request to the host: raise an exception of class `exception` whose
/// message is `message`, turned into text by `format`. The host does not
/// return from this request.
#[derive(Debug)]
pub struct Raise {
    pub exception: Value,
    pub format: Format,
    pub message: String,
}

/// The exception of the generic run-time error class with this message.
pub open spec fn runtime_error(message: Seq<char>) -> ExceptionView {
    ExceptionView { exception: Value::RuntimeError, message }
}

/// The exception of the type error class with this message.
pub open spec fn type_error(message: Seq<char>) -> ExceptionView {
    ExceptionView { exception: Value::TypeError, message }
}

/// The message for a failure of which only a rendering is known.
pub open spec fn unknown_message(rendering: Seq<char>) -> Seq<char> {
    "Unknown Error; err="@ + rendering
}

/// The exception that a failure is turned into: an exception stays as it
/// is, a message becomes a run-time error with that message, and anything
/// else becomes a run-time error that quotes its rendering.
pub open spec fn caught(payload: PayloadView) -> ExceptionView {
    match payload {
        PayloadView::Exception(info) => info,
        PayloadView::Text(text) => runtime_error(text),
        PayloadView::Owned(text) => runtime_error(text),
        PayloadView::Unknown(rendering) => runtime_error(unknown_message(rendering)),
    }
}

impl ExceptionInfo {
    /// A generic run-time error with the message `string`.
    pub fn with_message(string: &str) -> (r: ExceptionInfo)
        ensures
            r@ == runtime_error(string@),
    {
        ExceptionInfo { exception: Class::runtime_error(), message: String::from_str(string) }
    }

    /// A type error with the message `string`.
    pub fn type_error(string: &str) -> (r: ExceptionInfo)
        ensures
            r@ == type_error(string@),
    {
        ExceptionInfo { exception: Class::type_error(), message: String::from_str(string) }
    }

    /// Turns whatever native code failed with into an exception.
    pub fn from_any(any: Payload) -> (r: ExceptionInfo)
        ensures
            r@ == caught(any@),
    {
        match any {
            Payload::Exception(e) => e,
            Payload::Text(e) => ExceptionInfo::with_message(e),
            Payload::Owned(e) => ExceptionInfo::with_message(e.as_str()),
            Payload::Unknown(rendering) => {
                let mut message = String::from_str("Unknown Error; err=");
                message.append(rendering.as_str());
                ExceptionInfo::with_message(message.as_str())
            },
        }
    }

    /// The message of the exception.
    pub fn message(&self) -> (r: &str)
        ensures
            r@ == self@.message,
    {
        self.message.as_str()
    }

    /// The request that raises this exception: it names the exception's
    /// class and carries its message, which the host is to turn into text by
    /// the message's own conversion to a string.
    pub fn raise(&self) -> (r: Raise)
        ensures
            r.exception == self@.exception,
            r.format == Format::ToS,
            r.message@ == self@.message,
    {
        Raise {
            exception: self.exception.inner(),
            format: Format::ToS,
            message: self.message.clone(),
        }
    }
}

/// Whether a failure is a message without any text.
pub open spec fn is_empty_message(payload: PayloadView) -> bool {
    match payload {
        PayloadView::Text(text) => text.len() == 0,
        PayloadView::Owned(text) => text.len() == 0,
        _ => false,
    }
}

/// A failure that is not an exception already is caught as a generic
/// run-time error. Its message is the failure's own message or, for a
/// failure of which only a rendering is known, the line that quotes the
/// rendering; and it is not empty, unless the failure is an empty message.
pub proof fn lemma_caught_failure_is_runtime_error(payload: PayloadView)
    requires
        !(payload is Exception),
        !is_empty_message(payload),
    ensures
        caught(payload).exception == Value::RuntimeError,
        caught(payload).message.len() > 0,
        match payload {
            PayloadView::Exception(_) => true,
            PayloadView::Text(text) => caught(payload).message == text,
            PayloadView::Owned(text) => caught(payload).message == text,
            PayloadView::Unknown(rendering) => caught(payload).message == unknown_message(
                rendering,
            ),
        },
{
    reveal_strlit("Unknown Error; err=");
}

} // verus!
