//! Inspection and manipulation of a process's environment, behind a
//! substitutable capability interface, together with an in-memory simulated
//! provider that lets a test pre-load fixed values deterministically.

pub mod env;
