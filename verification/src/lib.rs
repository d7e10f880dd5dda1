//! Verified core of a cross-platform playbook test orchestrator.
//!
//! A playbook is a declarative sequence of shell automation steps tagged
//! with an intended operating-system target. The library resolves each
//! target to a container image, decides when an image must be pulled,
//! plans the container lifecycle and the per-step execution sessions as a
//! state machine, and aggregates per-target outcomes into an ordered
//! report. All engine I/O (listing and pulling images, creating and
//! starting containers and execution sessions, streaming logs) is left to
//! the embedding program, which performs each requested action against a
//! container engine and feeds the outcome back as an event.

pub mod driver;
pub mod laws;
pub mod manifest;
pub mod model;
pub mod orchestrate;
pub mod provision;
pub mod resolve;
pub mod session;
pub mod text;
