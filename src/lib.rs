//! Resolution of the attributes on an asynchronous entry point into a runtime
//! configuration, and the bootstrap plan that the generated wrapper follows.

pub mod text;
pub mod flavor;
pub mod diagnostic;
pub mod config;
pub mod plan;
pub mod laws;
