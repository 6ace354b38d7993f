//! Adapters around the domain: report renderers and test-file sources.

pub mod reporters;
pub mod source;
