//! Static detection of structural test smells over language-agnostic
//! parsed-test facts.

pub mod text;
pub mod domain;
pub mod glob;
pub mod paths;
pub mod detectors;
pub mod adapter_meta;
pub mod cli;
pub mod adapters;
pub mod ports;
pub mod pipeline;
