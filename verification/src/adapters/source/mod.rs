//! Test-file sources.

pub mod fs;
pub mod memory;
