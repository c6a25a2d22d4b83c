//! fcplug: the verified core of a Rust/Go foreign-call plugin generator.
pub mod text;
pub mod build;
pub mod runtime;
pub mod demo;
pub mod laws;
