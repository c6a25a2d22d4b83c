use fcplug::build::backend::GeneratorBackend;
use fcplug::build::generator::{CodegenConfig, GenMode, GoGeneratorBackend, RustGeneratorBackend, ServiceType, service_type};
use fcplug::build::ir::{Arg, Field, Message, Method, PathTy, Service, Ty, TyKind};

fn config(mode: GenMode) -> CodegenConfig {
    CodegenConfig {
        rust_mod_impl_name: "FfiImpl".to_string(),
        gomod_name: "demo".to_string(),
        go_clib_name_base: "go_demo".to_string(),
        rustc_link_kind_goffi: "static".to_string(),
        gen_mode: mode,
    }
}

fn path(name: &str, empty: bool) -> Ty {
    Ty { kind: TyKind::Path(PathTy { rust_name: name.to_string(), struct_ident: name.to_string(), empty_message: empty }) }
}

fn arg(name: &str, ty: Ty) -> Arg {
    Arg { name: name.to_string(), snake_ident: name.to_lowercase(), ty }
}

fn method(fn_ident: &str, camel: &str, args: Vec<Arg>, ret: Ty) -> Method {
    Method { name: camel.to_string(), fn_ident: fn_ident.to_string(), upper_camel_ident: camel.to_string(), args, ret }
}

#[test]
fn service_type_ignores_case() {
    assert!(service_type("RustFFI") == Some(ServiceType::RustFfi));
    assert!(service_type("goffi") == Some(ServiceType::GoFfi));
    assert!(service_type("Other").is_none());
}

#[test]
fn rust_type_names() {
    let b = RustGeneratorBackend { config: config(GenMode::Codec) };
    let t = TyKind::Vec(Box::new(path("User", false)));
    assert_eq!(b.rust_codegen_item_ty(&t), "::std::vec::Vec<User>");
    let m = TyKind::MapOf(Box::new(Ty { kind: TyKind::String }), Box::new(Ty { kind: TyKind::I32 }));
    assert_eq!(b.rust_codegen_item_ty(&m), "::std::collections::HashMap<::std::string::String, i32>");
    assert_eq!(b.rust_codegen_item_ty(&TyKind::Void), "()");
}

#[test]
fn go_type_names() {
    let g = GoGeneratorBackend { config: config(GenMode::Codec) };
    let p = path("User", false).kind;
    assert_eq!(g.go_codegen_item_ty(&p, true), "demo.User");
    assert_eq!(g.go_codegen_item_ty(&p, false), "User");
    let m = TyKind::MapOf(Box::new(Ty { kind: TyKind::String }), Box::new(Ty { kind: TyKind::I32 }));
    assert_eq!(g.go_codegen_item_ty(&m, false), "map[string]int32");
    let a = TyKind::Arc(Box::new(Ty { kind: TyKind::Bytes }));
    assert_eq!(g.go_codegen_item_ty(&a, false), "*[]byte");
}

#[test]
fn rust_argument_lists() {
    let b = RustGeneratorBackend { config: config(GenMode::Codec) };
    let m = method("get_user", "GetUser", vec![arg("id", Ty { kind: TyKind::I64 }), arg("req", path("Req", false))], path("Resp", false));
    assert_eq!(b.codegen_method_args(ServiceType::RustFfi, &m), "id: i64, req: ::fcplug::RustFfiArg<Req>");
    assert_eq!(b.codegen_method_args(ServiceType::GoFfi, &m), "id: i64, req: ::fcplug::TBytes<Req>");
    assert_eq!(b.codegen_ffi_args_param(ServiceType::RustFfi, &m), "id: i64, req: ::fcplug::Buffer");
    assert_eq!(b.codegen_ffi_args_ident(ServiceType::GoFfi, &m), "id, ::fcplug::Buffer::from_vec(req.bytes)");
    assert_eq!(b.codegen_ffi_args_ident(ServiceType::RustFfi, &m), "id, ::fcplug::RustFfiArg::from(req)");
    assert_eq!(b.codegen_method_ret(ServiceType::RustFfi, &m), "::fcplug::ABIResult<::fcplug::TBytes<Resp>>");
    assert_eq!(b.codegen_method_ret(ServiceType::GoFfi, &m), "::fcplug::ABIResult<T>");
    assert_eq!(b.codegen_ffi_ret(ServiceType::GoFfi, &m), "::fcplug::GoFfiResult");
    let t = b.codegen_rustffi_trait_method(ServiceType::RustFfi, &m).unwrap();
    assert_eq!(t, "fn get_user(id: i64, req: ::fcplug::RustFfiArg<Req>) -> ::fcplug::ABIResult<::fcplug::TBytes<Resp>>");
}

#[test]
fn scalar_returns_are_passed_by_value() {
    let b = RustGeneratorBackend { config: config(GenMode::Codec) };
    let m = method("count", "Count", vec![], Ty { kind: TyKind::UInt32 });
    assert_eq!(b.codegen_method_ret(ServiceType::RustFfi, &m), "u32");
    assert_eq!(b.codegen_ffi_ret(ServiceType::RustFfi, &m), "u32");
    assert!(b.codegen_goffi_trait_method(ServiceType::GoFfi, &m).is_some());
    let v = method("ping", "Ping", vec![], Ty { kind: TyKind::Void });
    assert!(b.codegen_goffi_trait_method(ServiceType::GoFfi, &v).is_none());
    assert_eq!(b.codegen_method_ret(ServiceType::GoFfi, &v), "::fcplug::ABIResult<()>");
}

#[test]
fn fix_empty_params_drops_empty_messages() {
    let g = GeneratorBackend::new(config(GenMode::Codec));
    let m = method("ping", "Ping", vec![arg("e", path("Empty", true)), arg("n", Ty { kind: TyKind::I8 })], path("Empty", true));
    let f = g.fix_empty_params(&m);
    assert_eq!(f.args.len(), 1);
    assert_eq!(f.args[0].name, "n");
    assert!(matches!(f.ret.kind, TyKind::Void));
    let again = g.fix_empty_params(&f);
    assert_eq!(again.args.len(), 1);
    assert!(matches!(again.ret.kind, TyKind::Void));
}

fn demo_service(name: &str) -> Service {
    Service {
        rust_name: name.to_string(),
        methods: vec![method("get_user", "GetUser", vec![arg("req", path("Req", false))], path("Resp", false))],
    }
}

#[test]
fn rustffi_service_output() {
    let g = GeneratorBackend::new(config(GenMode::Codec));
    let out = g.codegen_service_impl(&demo_service("RustFfi")).unwrap();
    assert!(out.rust_code.contains("pub(super) trait RustFfi {"));
    assert!(out.rust_code.contains("fn get_user(req: ::fcplug::RustFfiArg<Req>) -> ::fcplug::ABIResult<::fcplug::TBytes<Resp>>;"));
    assert!(out.rust_code.contains("pub extern \"C\" fn rustffi_get_user(req: ::fcplug::Buffer) -> ::fcplug::RustFfiResult {"));
    assert!(out.rust_code.contains("::fcplug::RustFfiResult::from(<FfiImpl as RustFfi>::get_user(::fcplug::RustFfiArg::from(req)))"));
    assert!(out.rust_mod_impl_code.contains("impl RustFfi for FfiImpl {"));
    assert!(out.rust_mod_impl_code.contains(" { todo!() }\n"));
    assert!(out.go_lib_code.contains("GetUser(req TBytes[*Req]) RustFfiResult[Resp]\n"));
    assert!(out.go_lib_code.contains("return newRustFfiResult[Resp](C.rustffi_get_user(req.asBuffer()))"));
    assert!(out.go_lib_code.contains("type ResultCode = int8"));
    assert_eq!(out.go_main_code, "");
}

#[test]
fn goffi_service_output() {
    let g = GeneratorBackend::new(config(GenMode::Codec));
    let out = g.codegen_service_impl(&demo_service("GoFFI")).unwrap();
    assert!(out.rust_code.contains("pub trait GoFFICall {"));
    assert!(out.rust_code.contains("unsafe fn get_user<T: Default>(req: ::fcplug::TBytes<Req>) -> ::fcplug::ABIResult<T> {"));
    assert!(out.rust_code.contains("#[link(name = \"go_demo\", kind = \"static\")]"));
    assert!(out.rust_code.contains("fn goffi_get_user(req: ::fcplug::Buffer) -> ::fcplug::GoFfiResult;"));
    assert!(out.rust_code.contains("pub extern \"C\" fn goffi_get_user_set_result(buf: ::fcplug::Buffer) -> ::fcplug::GoFfiResult {"));
    assert!(out.rust_code.contains("unsafe fn get_user_set_result(go_ret: ::fcplug::RustFfiArg<Resp>) -> ::fcplug::GoFfiResult;"));
    assert!(out.go_main_code.contains("GetUser(req demo.TBytes[demo.Req]) gust.EnumResult[demo.TBytes[*demo.Resp], ResultMsg]\n"));
    assert!(out.go_main_code.contains("//export goffi_get_user"));
    assert!(out.go_main_code.contains("func goffi_get_user(req C.struct_Buffer) C.struct_GoFfiResult {"));
    assert_eq!(out.go_lib_code, "");
}

#[test]
fn unknown_service_gives_nothing() {
    let g = GeneratorBackend::new(config(GenMode::Codec));
    assert!(g.codegen_service_impl(&demo_service("Other")).is_none());
}

#[test]
fn no_codec_go_code_is_empty_and_structs_are_written() {
    let g = GeneratorBackend::new(config(GenMode::NoCodec));
    let out = g.codegen_service_impl(&demo_service("RustFfi")).unwrap();
    assert!(!out.go_lib_code.contains("RustFfiResult[Resp]"));
    assert!(!out.go_lib_code.contains("type ResultCode = int8"));
    let msg = Message {
        struct_ident: "User".to_string(),
        fields: vec![
            Field { upper_camel_ident: "UserId".to_string(), snake_ident: "user_id".to_string(), ty: Ty { kind: TyKind::I32 } },
            Field { upper_camel_ident: "Name".to_string(), snake_ident: "name".to_string(), ty: Ty { kind: TyKind::String } },
        ],
    };
    let text = g.codegen_struct_impl(&msg);
    assert!(text.contains("type User struct {"));
    assert!(text.contains("UserId    int32    `json:\"user_id\"`    \nName    string    `json:\"name\"`"));
    let codec = GeneratorBackend::new(config(GenMode::Codec));
    assert_eq!(codec.codegen_struct_impl(&msg), "");
}

#[test]
fn go_names() {
    let g = GoGeneratorBackend { config: config(GenMode::Codec) };
    let m = method("get_user", "GetUser", vec![arg("UserID", Ty { kind: TyKind::Bool })], Ty { kind: TyKind::Void });
    assert_eq!(g.arg_name(&m.args[0]), "userid");
    assert_eq!(g.ffi_func_name("GoFFI", &m), "goffi_get_user");
    assert_eq!(g.iface_method_name(&m), "GetUser");
    let iface = g.codegen_rustffi_iface_method("RustFFI", &m).unwrap();
    assert_eq!(iface.0, "GetUser(userid bool) RustFfiResult[struct{}]");
    assert_eq!(iface.1, "return newRustFfiResult[struct{}](C.rustffi_get_user(C._Bool(userid)))");
    assert_eq!(g.codegen_goffi_iface_method(&m).unwrap(), "GetUser(userid bool) ResultMsg");
}
