//! Helpers of the tools.

pub mod fs;
