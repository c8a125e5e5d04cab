//! The verified core of a binding layer between native code and the Ruby
//! virtual machine.
//!
//! Nothing in this crate touches the virtual machine. Each operation that the
//! machine has to carry out (defining a class, registering a method, raising
//! an exception) is computed here as a plain value that describes the call,
//! and whatever the machine answers is handed back in as a plain value. The
//! code that performs the calls lives outside this crate.

pub mod class;
pub mod coercions;
pub mod exception;
pub mod names;
pub mod value;

pub use class::{Class, DefineClass, DefineMethod, Method0, Method1, RubyMethod};
pub use coercions::float::Float64;
pub use coercions::{invalid, CheckResult, CheckedValue, Mismatch, Target, TypeTag, UncheckedValue};
pub use exception::{ExceptionInfo, Format, Payload, Raise};
pub use value::Value;
