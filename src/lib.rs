//! Thread-like tasks for a host that runs one cooperative scheduler per
//! execution context: handles that can be joined for a result or aborted.

mod deps;
pub mod task;
pub mod thread;
