//! Values that live in the host runtime.

use vstd::prelude::*;

verus! {

/// Names a value that is owned by the host runtime.
///
/// A value is either a handle that the host handed out, or one of the
/// objects that the host defines at start-up and that native code refers to
/// by name. Two values that are equal name the same host object; a `Handle`
/// that happens to hold the address of a well-known object is not equal to
/// that object's name here.
#[derive(Clone, Copy, Debug, PartialEq, Eq, Structural)]
pub enum Value {
    /// A handle as the host handed it out. It is meaningful only while the
    /// host considers the object reachable.
    Handle(usize),
    /// The root object class.
    Object,
    /// The class of generic run-time errors.
    RuntimeError,
    /// The class of type errors.
    TypeError,
}

impl Value {
    /// The handle behind this value, unless it is one of the well-known
    /// objects, whose handles only the host knows.
    pub fn handle(&self) -> (r: Option<usize>)
        ensures
            r == match *self {
                Value::Handle(h) => Some(h),
                _ => None::<usize>,
            },
    {
        match *self {
            Value::Handle(h) => Some(h),
            _ => None,
        }
    }
}

} // verus!
