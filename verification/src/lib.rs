//! Static type checking for a small expression language: integers, booleans,
//! arithmetic and comparison operators, conditionals, explicitly annotated
//! functions, single and mutually recursive function bindings, and
//! application.
//!
//! The crate takes an already-parsed expression tree and either produces the
//! tree's type or rejects it with a descriptive error. It checks against
//! explicit annotations; it performs no inference.

pub mod context;
pub mod exprs;
pub mod text;
pub mod typecheck;
pub mod types;
