//! Host-side invocation core of an embeddable scripting runtime: a registry of
//! native functions, loading and validation of compiled script modules, a
//! runtime instance with hot reload, and name-based invocation with a bounded
//! retry combinator.
pub mod laws;
pub mod module;
pub mod registry;
pub mod runtime;
pub mod types;
