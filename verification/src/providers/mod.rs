//! What is particular to one backend.

pub mod copilot;
