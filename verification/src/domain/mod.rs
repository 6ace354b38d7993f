//! Domain layer: language-agnostic types shared by every adapter.

pub mod assertion_sources;
pub mod behavioral_fact;
pub mod classification;
pub mod config;
pub mod finding;
pub mod literal_value;
pub mod opt_outs;
pub mod parsed;
pub mod report;
pub mod smell;
pub mod source;
pub mod threshold;
pub mod types;
