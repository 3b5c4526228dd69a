//! The error taxonomy of the engine, and its mathematical model.

use vstd::prelude::*;

use crate::value::{SpecValue, Value, ValueKind};

verus! {

/// Every failure a public entry point can report.
///
/// - `Compile`: the source text is malformed; the attempt is terminal.
/// - `UnresolvedVariable`: a variable reference found in no context frame.
/// - `UnresolvedFunction`: a call to a name bound in neither registry.
/// - `Arity`: the argument count violates the resolved function's declared
///   bounds; carries the name, the expected range and the actual count.
/// - `Evaluation`: an operator applied to operands of the wrong shapes, or
///   whose result is not representable; carries the operator and the operand
///   kinds.
/// - `Custom`: an opaque failure produced by a caller-supplied function body,
///   propagated verbatim.
#[derive(Debug, PartialEq, Eq)]
pub enum Error {
    Compile,
    UnresolvedVariable(String),
    UnresolvedFunction(String),
    Arity { name: String, min: Option<usize>, max: Option<usize>, actual: usize },
    Evaluation { op: char, left: ValueKind, right: ValueKind },
    Custom(String),
}

/// The mathematical model of an `Error`, with names as character sequences.
pub enum SpecError {
    Compile,
    UnresolvedVariable(Seq<char>),
    UnresolvedFunction(Seq<char>),
    Arity { name: Seq<char>, min: Option<usize>, max: Option<usize>, actual: usize },
    Evaluation { op: char, left: ValueKind, right: ValueKind },
    Custom(Seq<char>),
}

impl View for Error {
    type V = SpecError;

    open spec fn view(&self) -> SpecError {
        match *self {
            Error::Compile => SpecError::Compile,
            Error::UnresolvedVariable(name) => SpecError::UnresolvedVariable(name@),
            Error::UnresolvedFunction(name) => SpecError::UnresolvedFunction(name@),
            Error::Arity { name, min, max, actual } => SpecError::Arity {
                name: name@,
                min,
                max,
                actual,
            },
            Error::Evaluation { op, left, right } => SpecError::Evaluation { op, left, right },
            Error::Custom(msg) => SpecError::Custom(msg@),
        }
    }
}

/// The model of an execution outcome: the model of the value on success, the
/// model of the error on failure.
pub open spec fn result_view(r: Result<Value, Error>) -> Result<SpecValue, SpecError> {
    match r {
        Ok(v) => Ok(v@),
        Err(e) => Err(e@),
    }
}

} // verus!
