//! Structural type-relation engine for a TypeScript-like language.
//!
//! The crate decides two coupled questions a type checker asks while
//! validating expressions:
//!
//! * when a tuple or object-literal type with union-typed components must be
//!   rewritten into an explicit union of concrete shapes before ordinary
//!   union-vs-union assignability can be judged (the union flattening
//!   engine), and
//! * whether an explicit type assertion `<T>expr` between two types is
//!   legal under the overlap rule (the castability engine).
//!
//! Types are modelled as an immutable recursive tree of plain values; the
//! host's named nominal definitions (interfaces, classes, aliases) are
//! supplied through a [`env::TypeEnv`]. Reference resolution is bounded by
//! an explicit fuel argument, so a cyclic alias chain surfaces as an error
//! instead of diverging.

pub mod assign;
pub mod cast;
pub mod env;
pub mod eq;
pub mod flatten;
pub mod laws;
pub mod ty;
