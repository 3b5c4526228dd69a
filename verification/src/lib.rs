//! An embeddable expression compiler and evaluator: source text is compiled
//! once into a reusable executable unit, then evaluated repeatedly against
//! varying variable bindings and callable behaviour, producing a JSON-like
//! value or a typed error.

pub mod ast;
pub mod context;
pub mod error;
pub mod eval;
pub mod expr;
pub mod function;
pub mod laws;
pub mod parse;
pub mod table;
pub mod value;

pub use ast::Ast;
pub use context::Context;
pub use error::Error;
pub use expr::{create_empty_contexts, ExecOptions, Expr};
pub use function::{Callable, ConstFunction, Function};
pub use table::Table;
pub use value::{Value, ValueKind};
