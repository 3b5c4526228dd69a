//! Caller-supplied callable behaviour and the two kinds of bound functions.

use vstd::prelude::*;

use crate::error::{result_view, Error};
use crate::value::{view_value_seq, SpecValue, Value};

verus! {

/// The behaviour of a bound function, supplied by the caller. An
/// implementation declares its own model `spec_call` and promises that
/// `call` agrees with it; the engine relies on that promise and on nothing
/// else about the body, and propagates a failure of the body unchanged.
pub trait Callable: Sized {
    /// The model of the body: the outcome it produces for an argument list.
    spec fn spec_call(&self, args: Seq<SpecValue>) -> Result<SpecValue, crate::error::SpecError>;

    /// Run the body once on the given arguments.
    fn call(&self, args: Vec<Value>) -> (r: Result<Value, Error>)
        ensures
            result_view(r) == self.spec_call(view_value_seq(args@)),
    ;
}

/// A function bound to a single handle. It is never carried across
/// duplication of its handle, and it resolves with the highest priority.
pub struct Function<F: Callable> {
    /// Smallest accepted argument count; unconstrained when absent.
    pub min_args: Option<usize>,
    /// Largest accepted argument count; unconstrained when absent.
    pub max_args: Option<usize>,
    /// The behaviour run once resolution and the arity check succeed.
    pub compiled: F,
}

impl<F: Callable> Function<F> {
    /// A function with the given behaviour and no arity bounds.
    pub fn new(compiled: F) -> (r: Function<F>)
        ensures
            r.min_args is None,
            r.max_args is None,
            r.compiled == compiled,
    {
        Function { min_args: None, max_args: None, compiled }
    }
}

/// A stateless function, safely shared: a handle and all its duplicates see
/// one registry of these. It resolves only when the dynamic registry does
/// not bind the name.
pub struct ConstFunction<F: Callable> {
    /// Smallest accepted argument count; unconstrained when absent.
    pub min_args: Option<usize>,
    /// Largest accepted argument count; unconstrained when absent.
    pub max_args: Option<usize>,
    /// The behaviour run once resolution and the arity check succeed.
    pub compiled: F,
}

impl<F: Callable> ConstFunction<F> {
    /// A const function with the given behaviour and no arity bounds.
    pub fn new(compiled: F) -> (r: ConstFunction<F>)
        ensures
            r.min_args is None,
            r.max_args is None,
            r.compiled == compiled,
    {
        ConstFunction { min_args: None, max_args: None, compiled }
    }
}

} // verus!
