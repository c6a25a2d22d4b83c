use fcplug::build::builder::{Builder, MkProtobufBackend, Plugin, SourceType};
use fcplug::build::caller::{c_fn_names, gen_go_caller_file, gen_go_code, generates_go_caller, go_caller_fn, protoc_command};
use fcplug::build::config::IdlType;
use fcplug::build::ffidl::{CLibConfig, Config as FfidlConfig, FFIDL};
use fcplug::build::files::{
    clib_dirs_relative, gen_go_lib_code, gen_go_main_code, gen_go_mod_code, go_clib_built_header_name, go_imports, mid_output,
    missing_mod_requires, rust_gen_more_code,
};

#[test]
fn codec_output_and_imports() {
    let mid = mid_output(IdlType::Proto, "github.com/x/demo", "demo");
    assert_eq!(mid.mod_requires, vec![
        "github.com/andeya/gust@v1.5.2".to_string(),
        "github.com/bytedance/sonic@latest".to_string(),
        "google.golang.org/protobuf@v1.26.0".to_string(),
    ]);
    assert!(mid.rust_clib_includes.contains("typedef int8_t ResultCode;"));
    let (lines, uses) = go_imports(&mid.imports, false);
    assert_eq!(lines, "\"github.com/andeya/gust/valconv\"\n   \"github.com/bytedance/sonic\"\n   \"google.golang.org/protobuf/proto\"\n   ");
    assert_eq!(uses, "var _ valconv.ReadonlyBytes\nvar _ = sonic.Marshal\nvar _ = proto.Marshal\n");
    let (lines, uses) = go_imports(&mid.imports, true);
    assert_eq!(lines, "\"github.com/andeya/gust\"\n   \"github.com/x/demo\"\n   ");
    assert_eq!(uses, "var _ gust.EnumResult[any, any]\nvar _ demo.ResultCode\n");
    let thrift = mid_output(IdlType::Thrift, "github.com/x/demo", "demo");
    assert_eq!(thrift.mod_requires[2], "github.com/apache/thrift@v0.13.0");
    let (lines, _) = go_imports(&thrift.imports, false);
    assert_eq!(lines, "\"github.com/andeya/gust/valconv\"\n   \"github.com/bytedance/sonic\"\n   ");
}

#[test]
fn go_files() {
    let mid = mid_output(IdlType::Proto, "github.com/x/demo", "demo");
    let lib = gen_go_lib_code("demo", "../target/debug", "demo", &mid, "// body");
    assert!(lib.starts_with("// Code generated by fcplug. DO NOT EDIT."));
    assert!(lib.contains("package demo"));
    assert!(lib.contains("#cgo LDFLAGS: -L../target/debug -ldemo -ldl -lm"));
    assert!(lib.contains("#include \"demo.h\""));
    assert!(lib.contains("\"github.com/bytedance/sonic\""));
    assert!(lib.contains("// body"));
    let main = gen_go_main_code("../../target/debug", "demo", &mid, "// main body");
    assert!(main.contains("package main"));
    assert!(main.contains("\"github.com/x/demo\""));
    assert!(main.contains("func main() {}"));
    let m = gen_go_mod_code("github.com/x/demo", &mid.mod_requires);
    assert!(m.starts_with("module github.com/x/demo\n"));
    assert!(m.contains("github.com/andeya/gust v1.5.2\n    github.com/bytedance/sonic latest\n    google.golang.org/protobuf v1.26.0"));
    let missing = missing_mod_requires("require (\n github.com/andeya/gust v1.5.2\n)", &mid.mod_requires);
    assert_eq!(missing, vec!["github.com/bytedance/sonic@latest".to_string(), "google.golang.org/protobuf@v1.26.0".to_string()]);
    assert_eq!(go_clib_built_header_name("libgo_demo.a"), Some("libgo_demo.h".to_string()));
    assert_eq!(go_clib_built_header_name("libgo.demo.so"), Some("libgo.demo.h".to_string()));
    assert_eq!(go_clib_built_header_name("noext"), None);
}

#[test]
fn rust_module_additions() {
    let code = rust_gen_more_code("X", false, true, "FfiImpl");
    assert!(code.starts_with("Xpub(super) trait RustFfi {}trait Ffi: RustFfi + GoFfi + GoFfiCall {}"));
    assert!(code.contains("pub struct FfiImpl;"));
    let code = rust_gen_more_code("", true, false, "Imp");
    assert!(code.starts_with("pub(super) trait GoFfi {}pub trait GoFfiCall {}trait Ffi"));
}

#[test]
fn go_caller_file() {
    let header = "FFIResult ffi_raw_echo(Buffer req);\nint x;\nFFIResult ffi_pb_hello(Buffer req);\nFFIResult other(Buffer req);";
    let text = gen_go_code("mypkg", "libdemo.h", header).unwrap();
    assert!(text.contains("package mypkg"));
    assert!(text.contains("-llibdemo"));
    assert!(text.contains("#include \"libdemo.h\""));
    assert!(text.contains("C.ffi_raw_echo("));
    assert!(text.contains("C.ffi_pb_hello("));
    assert!(!text.contains("${"));
    assert_eq!(go_caller_fn("other"), "");
    assert!(go_caller_fn("ffi_fb_x").contains("func C_ffi_fb_x_bytes"));
    let empty = gen_go_caller_file("p", "a.h.h", &vec![]);
    assert!(empty.contains("-la\n") || empty.contains("-la "));
    assert_eq!(protoc_command("/idl", "/out", "/idl/x.proto"), "protoc --proto_path=/idl --go_out /out /idl/x.proto");
    assert!(!generates_go_caller("fcplug-callee"));
    assert!(generates_go_caller("demo"));
}

#[test]
fn idl_generator_names() {
    assert_eq!(FfidlConfig::pkg_name_prefix("my-demo.v1.proto"), "my_demo_v1");
    assert_eq!(FfidlConfig::file_name_base("ffidl.proto"), "ffidl_gen");
    assert_eq!(FfidlConfig::go_mod_name("ffidl-demo"), "ffidl_demo");
    let cfg = FfidlConfig { idl_file: "x.proto".to_string(), target_crate_dir: None, go_root_path: None, go_mod_parent: "github.com/a/".to_string() };
    assert_eq!(cfg.go_mod_path("ffidl-demo"), "github.com/a/ffidl_demo");
    let clib = CLibConfig::new("ffidl-demo");
    assert_eq!(clib.rust_c_header_name_base, "ffidl_demo");
    assert_eq!(clib.go_c_header_name_base, "go_ffidl_demo");
    assert_eq!(clib.rustc_link_lines("/t"), vec!["cargo:rustc-link-search=/t".to_string(), "cargo:rustc-link-lib=go_ffidl_demo".to_string()]);
    let f = FFIDL { config: cfg, clib, has_goffi: false, has_rustffi: true, crate_modified: "|ab".to_string() };
    assert!(f.gen_rust_more_code("//").starts_with("//pub trait GoFfi {}pub trait Ffi: RustFfi + GoFfi {}"));
    assert_eq!(f.go_clib_name(), "libgo_ffidl_demo.a");
    assert!(f.should_re_execute(false, "|ab"));
    assert!(f.should_re_execute(true, "|cd"));
    assert!(!f.should_re_execute(true, "|ab"));
    assert_eq!(FFIDL::go_build_command("go", "/t/lib.a", "/p/cgobin"), "go build -buildmode=c-archive -o /t/lib.a /p/cgobin");
    assert!(f.go_main_code("/t", "github.com/a/x", "x").contains("_ x.ResultCode"));
    assert!(f.go_pkg_code("x", "/t").contains("#cgo LDFLAGS: -L/t -lffidl_demo"));
}

#[test]
fn builder_settings() {
    let b = Builder::thrift_with_backend(MkProtobufBackend);
    assert!(b.source_type == SourceType::Thrift);
    assert_eq!(b.plugins.len(), 3);
    assert!(b.ignore_unused && b.change_case);
    let b = b.include_dirs(vec!["idl".to_string()])
        .plugin(Plugin::AutoDerive(vec!["#[derive(Clone)]".to_string()]))
        .change_case(false)
        .ignore_unused(false)
        .touch(vec![("a.thrift".to_string(), vec!["A".to_string()])]);
    assert_eq!(b.include_dirs, vec!["idl".to_string()]);
    assert_eq!(b.plugins.len(), 4);
    assert!(!b.change_case && !b.ignore_unused);
    assert_eq!(b.touches.len(), 1);
    let p = Builder::protobuf_with_backend(1u8).with_backend("other");
    assert!(p.source_type == SourceType::Protobuf);
    assert_eq!(p.mk_backend, "other");
}

#[test]
fn clib_dirs_relative_to_crate_and_cgobin() {
    let (root, cgobin) = clib_dirs_relative("/w/c/target/out", "/w/c", "/w/c/cgobin").unwrap();
    assert_eq!(root, "target/out");
    assert_eq!(cgobin, "../target/out");
    assert_eq!(clib_dirs_relative("out", "/w/c", "/w/c/cgobin"), None);
}

#[test]
fn c_function_names_in_header() {
    let header = "FFIResult ffi_raw_a(Buffer req);\nvoid free_buffer(int t);\nFFIResult ffi_pb_b(Buffer req);\n";
    assert_eq!(c_fn_names(header), Some(vec!["ffi_raw_a".to_string(), "ffi_pb_b".to_string()]));
    assert_eq!(c_fn_names("nothing here"), Some(vec![]));
}
