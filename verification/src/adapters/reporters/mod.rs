//! Report renderers. Each format is a set of free functions from the
//! report (and the adapter identity) to text or wire-shape values.

pub mod github_annotations;
pub mod json;
pub mod markdown;
pub mod sarif;
pub mod stdout;
pub mod table;
