//! Sandbox policy and container lifecycle rules for running a repository
//! digesting tool inside a locked-down container.
//!
//! The crate decides; it never talks to the container runtime itself. A
//! caller performs each runtime call the crate asks for and reports back what
//! happened.

pub mod text;
pub mod policy;
pub mod provision;
pub mod cleanup;
pub mod runtime;
pub mod orchestrator;
