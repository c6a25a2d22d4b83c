use fcplug::build::backend::GeneratorBackend;
use fcplug::build::ffidl::{FFIDLBackend, RustCodegenBackend};
use fcplug::build::ffidl_go::GoCodegenBackend;
use fcplug::build::generator::{CodegenConfig, GenMode, RustGeneratorBackend};
use fcplug::build::ir::{Arg, Method, PathTy, Service, Ty, TyKind};

fn config() -> CodegenConfig {
    CodegenConfig {
        rust_mod_impl_name: "FfiImpl".to_string(),
        gomod_name: "demo".to_string(),
        go_clib_name_base: "go_demo".to_string(),
        rustc_link_kind_goffi: "static".to_string(),
        gen_mode: GenMode::Codec,
    }
}

fn backend() -> FFIDLBackend {
    FFIDLBackend {
        generator: GeneratorBackend::new(config()),
        rust: RustCodegenBackend { base: RustGeneratorBackend { config: config() } },
        go: GoCodegenBackend { gomod_name: "demo".to_string() },
    }
}

fn path(name: &str, empty: bool) -> Ty {
    Ty { kind: TyKind::Path(PathTy { rust_name: name.to_string(), struct_ident: format!("S{name}"), empty_message: empty }) }
}

fn service(name: &str, ret: Ty) -> Service {
    Service {
        rust_name: name.to_string(),
        methods: vec![Method {
            name: "GetUser".to_string(),
            fn_ident: "get_user".to_string(),
            upper_camel_ident: "GetUser".to_string(),
            args: vec![Arg { name: "Req".to_string(), snake_ident: "req".to_string(), ty: path("Req", false) }],
            ret,
        }],
    }
}

#[test]
fn idl_rustffi_service() {
    let out = backend().codegen_service_impl(&service("RustFFI", path("Resp", false))).unwrap();
    assert!(out.rust_code.contains("pub(super) trait RustFFI {"));
    assert!(out.rust_code.contains("fn get_user(req: ::fcplug::RustFfiArg<Req>) -> ::fcplug::ABIResult<::fcplug::TBytes<Resp>>;\n"));
    assert!(out.rust_code.contains("pub extern \"C\" fn rustffi_get_user(req: ::fcplug::Buffer) -> ::fcplug::RustFfiResult {"));
    assert!(out.rust_impl_rustffi_code.contains("impl RustFFI for FfiImpl {"));
    assert!(out.rust_impl_rustffi_code.contains(" { todo!() }\n"));
    assert_eq!(out.rust_impl_goffi_code, "");
    assert!(out.go_pkg_code.contains("GetUser(req TBytes[*Req]) RustFfiResult[Resp]\n"));
    assert!(out.go_pkg_code.contains("return newRustFfiResult[Resp](C.rustffi_get_user(req.asBuffer()))"));
    assert!(out.go_pkg_code.contains("var GlobalRustFfi RustFfi = RustFfiImpl{}"));
    assert_eq!(out.go_main_code, "");
}

#[test]
fn idl_goffi_service() {
    let out = backend().codegen_service_impl(&service("GoFFI", path("Resp", false))).unwrap();
    assert!(out.rust_code.contains("pub trait GoFFICall {"));
    assert!(out.rust_code.contains("unsafe fn get_user_set_result(go_ret: ::fcplug::RustFfiArg<Resp>) -> ::fcplug::GoFfiResult;\n"));
    assert!(out.rust_code.contains("extern \"C\" {"));
    assert!(out.rust_code.contains("fn goffi_get_user(req: ::fcplug::Buffer) -> ::fcplug::GoFfiResult;"));
    assert!(out.rust_impl_goffi_code.contains("unsafe fn get_user_set_result(go_ret: ::fcplug::RustFfiArg<Resp>) -> ::fcplug::GoFfiResult { todo!() }\n"));
    assert!(out.go_main_code.contains("GetUser(req demo.TBytes[*demo.Req]) gust.EnumResult[demo.TBytes[*demo.Resp], ResultMsg]"));
    assert!(out.go_main_code.contains("asBytes[*demo.Req](req)"));
    assert!(out.go_main_code.contains("//export goffi_get_user"));
    assert_eq!(out.go_pkg_code, "");
    let empty = backend().codegen_service_impl(&service("goffi", path("Empty", true))).unwrap();
    assert!(empty.go_main_code.contains("GetUser(req demo.TBytes[*demo.Req]) ResultMsg"));
    assert!(!empty.rust_code.contains("unsafe fn get_user_set_result"));
    assert!(empty.rust_code.contains("pub extern \"C\" fn goffi_get_user_set_result(buf: ::fcplug::Buffer)"));
    assert!(backend().codegen_service_impl(&service("Api", Ty { kind: TyKind::Void })).is_none());
}

#[test]
fn idl_go_names() {
    let g = GoCodegenBackend { gomod_name: "demo".to_string() };
    assert_eq!(g.codegen_item_ty(&path("User", false).kind, true), "demo.User");
    let m = Method { name: "X".to_string(), fn_ident: "x".to_string(), upper_camel_ident: "X".to_string(), args: vec![], ret: Ty { kind: TyKind::Void } };
    assert_eq!(g.ffi_func_name("RustFFI", &m, true), "C.rustffi_x");
    assert_eq!(g.ffi_func_name("RustFFI", &m, false), "rustffi_x");
    assert_eq!(backend().codegen_service_method(&m), "");
}
