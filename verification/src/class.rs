//! Classes of the host runtime, and the native methods registered on them.
//!
//! Defining a class and registering a method change tables that the host
//! keeps for the life of the process. The functions here do not reach the
//! host: each yields the request that describes the call, for the caller to
//! carry out.

use vstd::prelude::*;
use vstd::string::StringSliceAdditionalSpecFns;
use crate::names::{c_string, is_c_name, nul_terminated};
use crate::value::Value;

verus! {

/// A class of the host runtime.
#[derive(Clone, Copy, Debug)]
pub struct Class(Value);

impl View for Class {
    type V = Value;

    /// The host value that is the class.
    closed spec fn view(&self) -> Value {
        self.0
    }
}

/// A request to the host: define the class `name` as a direct subclass of
/// `superclass`. `name` is in C form.
#[derive(Debug)]
pub struct DefineClass {
    pub name: Vec<u8>,
    pub superclass: Value,
}

/// A request to the host: register the native function at address
/// `function` as the instance method `name` of `class`, taking `arity`
/// arguments besides the receiver. `name` is in C form.
#[derive(Debug)]
pub struct DefineMethod {
    pub class: Value,
    pub name: Vec<u8>,
    pub function: usize,
    pub arity: isize,
}

/// A native function that can be registered as a method.
///
/// Each shape of native function is a type of its own, because the host
/// calls each arity in its own way.
pub trait RubyMethod: Sized {
    /// The address of the native function.
    spec fn function(&self) -> usize;

    /// The number of arguments that the function takes besides the receiver.
    spec fn arity(&self) -> int;

    /// The request that registers this function as the method `name` of
    /// `class`: it carries this very function and the arity of its shape.
    fn install(self, class: Value, name: &str) -> (r: DefineMethod)
        requires
            is_c_name(name@),
        ensures
            r.class == class,
            r.name@ == nul_terminated(name.spec_bytes()),
            r.function == self.function(),
            r.arity == self.arity(),
    ;
}

/// A native function that takes the receiver and nothing else.
#[derive(Clone, Copy, Debug, PartialEq, Eq, Structural)]
pub struct Method0 {
    pub function: usize,
}

/// A native function that takes the receiver and one argument.
#[derive(Clone, Copy, Debug, PartialEq, Eq, Structural)]
pub struct Method1 {
    pub function: usize,
}

/// The request that registers the function at `function`, which takes
/// `arity` arguments besides the receiver, as the method `name` of `class`.
fn registration(class: Value, name: &str, function: usize, arity: isize) -> (r: DefineMethod)
    requires
        is_c_name(name@),
    ensures
        r.class == class,
        r.name@ == nul_terminated(name.spec_bytes()),
        r.function == function,
        r.arity == arity,
{
    DefineMethod { class, name: c_string(name).unwrap(), function, arity }
}

impl RubyMethod for Method0 {
    open spec fn function(&self) -> usize {
        self.function
    }

    open spec fn arity(&self) -> int {
        0
    }

    fn install(self, class: Value, name: &str) -> (r: DefineMethod) {
        registration(class, name, self.function, 0)
    }
}

impl RubyMethod for Method1 {
    open spec fn function(&self) -> usize {
        self.function
    }

    open spec fn arity(&self) -> int {
        1
    }

    fn install(self, class: Value, name: &str) -> (r: DefineMethod) {
        registration(class, name, self.function, 1)
    }
}

/// The root object class.
#[allow(non_snake_case)]
#[inline]
fn ObjectClass() -> (r: Class)
    ensures
        r@ == Value::Object,
{
    Class(Value::Object)
}

impl Class {
    /// The host value that is the class.
    pub fn inner(&self) -> (r: Value)
        ensures
            r == self@,
    {
        self.0
    }

    /// The class of generic run-time errors.
    pub(crate) fn runtime_error() -> (r: Class)
        ensures
            r@ == Value::RuntimeError,
    {
        Class(Value::RuntimeError)
    }

    /// The class of type errors.
    pub(crate) fn type_error() -> (r: Class)
        ensures
            r@ == Value::TypeError,
    {
        Class(Value::TypeError)
    }

    /// The request that defines the class `name` directly under the root
    /// object class.
    pub fn new(name: &str) -> (r: DefineClass)
        requires
            is_c_name(name@),
        ensures
            r.name@ == nul_terminated(name.spec_bytes()),
            r.superclass == Value::Object,
    {
        ObjectClass().subclass(name)
    }

    /// The request that defines the class `name` directly under this class.
    pub fn subclass(&self, name: &str) -> (r: DefineClass)
        requires
            is_c_name(name@),
        ensures
            r.name@ == nul_terminated(name.spec_bytes()),
            r.superclass == self@,
    {
        DefineClass { name: c_string(name).unwrap(), superclass: self.0 }
    }

    /// The request that registers `method` as the instance method `name` of
    /// this class.
    pub fn define_method<T: RubyMethod>(&self, name: &str, method: T) -> (r: DefineMethod)
        requires
            is_c_name(name@),
        ensures
            r.class == self@,
            r.name@ == nul_terminated(name.spec_bytes()),
            r.function == method.function(),
            r.arity == method.arity(),
    {
        method.install(self.0, name)
    }
}

impl DefineClass {
    /// The class that the host has defined in answer to this request, given
    /// the value that the host returned.
    pub fn finish(self, defined: Value) -> (r: Class)
        ensures
            r@ == defined,
    {
        Class(defined)
    }
}

} // verus!
