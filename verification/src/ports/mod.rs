//! Ports: the traits that bridge the domain and its adapters, with
//! their error types.

pub mod parser;
pub mod source;
