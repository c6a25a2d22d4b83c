//! The generator's shared state: configuration, service kinds and empty types.
use vstd::prelude::*;
use crate::build::ir::TyKind;
use crate::text::{lowercase, str_eq, to_lowercase};

verus! {

/// Whether the generated code encodes messages with a codec.
#[derive(Clone, Copy, PartialEq, Eq, Structural)]
pub enum GenMode {
    Codec,
    NoCodec,
}

/// What the code generators read of the work configuration.
pub struct CodegenConfig {
    /// The unit-like struct that implements the FFI traits, e.g. `FfiImpl`.
    pub rust_mod_impl_name: String,
    /// The Go module (and package) name.
    pub gomod_name: String,
    /// The base name of the Go C library.
    pub go_clib_name_base: String,
    /// How rustc links the Go C library (`static` or `dylib`).
    pub rustc_link_kind_goffi: String,
    pub gen_mode: GenMode,
}

impl CodegenConfig {
    /// A copy of this configuration.
    pub fn copy(&self) -> (r: CodegenConfig)
        ensures
            r == *self,
    {
        CodegenConfig {
            rust_mod_impl_name: self.rust_mod_impl_name.clone(),
            gomod_name: self.gomod_name.clone(),
            go_clib_name_base: self.go_clib_name_base.clone(),
            rustc_link_kind_goffi: self.rustc_link_kind_goffi.clone(),
            gen_mode: self.gen_mode,
        }
    }
}

/// The two kinds of service.
#[derive(Clone, Copy, PartialEq, Eq, Structural)]
pub enum ServiceType {
    /// Go calls Rust.
    RustFfi,
    /// Rust calls Go.
    GoFfi,
}

/// The kind of a service, by its lowercased name.
pub open spec fn spec_service_type(name: Seq<char>) -> Option<ServiceType> {
    if lowercase(name) == "rustffi"@ {
        Some(ServiceType::RustFfi)
    } else if lowercase(name) == "goffi"@ {
        Some(ServiceType::GoFfi)
    } else {
        None
    }
}

/// The kind of the service named `name`: `rustffi` or `goffi`, whatever the
/// case; `None` for any other name.
pub fn service_type(name: &str) -> (r: Option<ServiceType>)
    ensures
        r == spec_service_type(name@),
{
    let lower = to_lowercase(name);
    if str_eq(lower.as_str(), "rustffi") {
        Some(ServiceType::RustFfi)
    } else if str_eq(lower.as_str(), "goffi") {
        Some(ServiceType::GoFfi)
    } else {
        None
    }
}

/// Whether a type carries no data: the void type, or a message with no field.
pub open spec fn spec_is_empty_ty(kind: TyKind) -> bool {
    match kind {
        TyKind::Path(p) => p.empty_message,
        TyKind::Void => true,
        _ => false,
    }
}

/// Whether a type carries no data: the void type, or a message with no field.
pub fn is_empty_ty(kind: &TyKind) -> (r: bool)
    ensures
        r == spec_is_empty_ty(*kind),
{
    match kind {
        TyKind::Path(p) => p.empty_message,
        TyKind::Void => true,
        _ => false,
    }
}

/// The Rust-side code generator.
pub struct RustGeneratorBackend {
    pub config: CodegenConfig,
}

/// The Go-side code generator.
pub struct GoGeneratorBackend {
    pub config: CodegenConfig,
}

} // verus!
