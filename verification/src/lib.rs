//! A verified code-generation front end over a cranelift JIT backend.
//!
//! The library orchestrates the backend's declare → build → seal → finalize
//! → verify → define protocol for each compiled function, manages anonymous
//! read-only data blobs and named mutable variable cells backed by global
//! data, and resolves imports inside function bodies.  Every operation's
//! contract is stated over a model of the backend's symbol state, and the
//! session invariant ties the library's bookkeeping to that model; the laws
//! in [`laws`] state the session-wide guarantees that follow.
//!
//! The backend calls themselves stand behind the trusted boundary collected
//! in [`backend`]; everything else is verified.

use vstd::prelude::*;

pub mod backend;
pub mod compiler;
pub mod laws;
pub mod names;
pub mod table;

pub use compiler::BodyBuild;
pub use compiler::Compiler;

verus! {

/// Kinds of failure the code-generation layer can report.
#[derive(Debug)]
pub enum CompileError {
    /// A symbol name was declared or defined twice.
    DuplicateSymbol(String),
    /// A variable name was used before being created.
    UnknownVariable(String),
    /// The backend rejected a symbol declaration.
    BackendDeclaration(String),
    /// The backend rejected a symbol definition.
    BackendDefinition(String),
    /// The finalized function body failed structural verification.
    Verification(String),
}

} // verus!
