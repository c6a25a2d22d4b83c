//! Code generation for the Rust and Go sides of an IDL-described FFI.
pub mod ir;
pub mod generator;
pub mod rust_gen;
pub mod go_gen;
pub mod backend;
pub mod os_arch;
pub mod config;
pub mod files;
pub mod builder;
pub mod ffidl;
pub mod ffidl_templates;
pub mod caller;
pub mod caller_templates;
pub mod commands;
pub mod ffidl_go;
pub mod ffidl_go_templates;
pub mod templates;
pub mod rust_callee;
