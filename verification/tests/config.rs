use fcplug::build::config::{
    Config, IdlItem, IdlItemKind, IdlType, ProtoDesc, WorkConfig, check_go_mod_path, check_proto_descs,
    clean_idl, fingerprint, go_cmd_path, go_file_suffix, is_fingerprint_file, new_gomod_path, new_idl_type,
    new_pkg_name, rustc_link_lines, tidy_idl_file_name, tidy_proto, to_hex,
};
use fcplug::build::generator::GenMode;
use fcplug::build::os_arch::{GoArch, GoOS, RustArch, RustOS, get_go_os_arch, parse_target_triple};

#[test]
fn target_triples() {
    assert!(parse_target_triple("x86_64-unknown-linux-gnu") == Ok((RustOS::linux, RustArch::x86_64)));
    assert!(get_go_os_arch("x86_64-unknown-linux-gnu") == Ok((GoOS::linux, GoArch::amd64)));
    assert!(get_go_os_arch("aarch64-apple-darwin") == Ok((GoOS::darwin, GoArch::amd64)));
    assert!(get_go_os_arch("i386-apple-ios") == Ok((GoOS::ios, GoArch::_386)));
    assert!(get_go_os_arch("thumbv8m.base-none-eabi") == Err("eabi not supported by golang".to_string()));
    assert!(get_go_os_arch("i686-pc-windows-msvc") == Err("i686 not supported by golang".to_string()));
    assert!(parse_target_triple("x86_64-foo") == Err("unknown os None".to_string()));
    assert!(parse_target_triple("x86_64-pc-bogus") == Err("unknown os Some(\"bogus\")".to_string()));
    assert!(parse_target_triple("bogus-pc-linux") == Err("unknown arch Some(\"bogus\")".to_string()));
}

#[test]
fn os_and_arch_names() {
    assert_eq!(GoArch::_386.as_ref(), "386");
    assert!(GoArch::from_str("386") == Some(GoArch::_386));
    assert!(GoOS::from_str("plan9") == Some(GoOS::plan9));
    assert!(GoOS::from_str("PLAN9").is_none());
    assert_eq!(RustOS::_3ds.as_ref(), "3ds");
    assert!(RustArch::from_str("thumbv8m_main") == Some(RustArch::thumbv8m_main));
    assert!(GoOS::try_from(RustOS::unknown) == Ok(GoOS::js));
    assert!(GoArch::try_from(RustArch::wasm32) == Ok(GoArch::wasm));
}

#[test]
fn names_of_a_run() {
    assert_eq!(new_pkg_name("-my.crate-"), "my_crate");
    assert_eq!(new_pkg_name("__"), "");
    assert_eq!(new_gomod_path("github.com/x//", "demo"), "github.com/x/demo");
    assert!(new_idl_type("proto", GenMode::Codec) == Some(IdlType::Proto));
    assert!(new_idl_type("thrift", GenMode::NoCodec) == Some(IdlType::ThriftNoCodec));
    assert!(new_idl_type("yaml", GenMode::Codec).is_none());
    assert_eq!(go_file_suffix(Some((GoOS::linux, GoArch::arm64))), "_linux_arm64");
    assert_eq!(go_file_suffix(None), "");
    assert_eq!(tidy_idl_file_name(IdlType::ThriftNoCodec, "demo"), "demo.thrift");
    assert_eq!(tidy_proto("syntax = \"proto3\";", "demo"), "syntax = \"proto3\";\noption go_package=\"./;demo\";\npackage demo;\n");
}

#[test]
fn work_config_names() {
    let cfg = Config {
        idl_file: "/x/echo.proto".to_string(),
        target_crate_dir: None,
        go_root_path: None,
        go_mod_parent: "github.com/andeya/fcplug/samples/".to_string(),
        use_goffi_cdylib: false,
        add_clib_to_git: false,
    };
    let w = WorkConfig::new(&cfg, "echo-pb.proto", "proto", "echo-pb", "echo-pb", Some((GoOS::linux, GoArch::amd64)), GenMode::Codec).unwrap();
    assert_eq!(w.pkg_name, "echo_pb");
    assert_eq!(w.gomod_path, "github.com/andeya/fcplug/samples/echo_pb");
    assert_eq!(w.rust_mod_dir_name, "echo_pb_ffi");
    assert_eq!(w.rust_mod_gen_file_name, "echo_pb_gen.rs");
    assert_eq!(w.go_lib_file_name, "echo_pb_gen_linux_amd64.go");
    assert_eq!(w.go_main_file_name, "clib_goffi_gen_linux_amd64.go");
    assert_eq!(w.rust_clib_file_name, "libecho_pb.a");
    assert_eq!(w.go_clib_file_name, "libgo_echo_pb.a");
    assert_eq!(w.go_clib_header_name, "go_echo_pb.h");
    assert_eq!(w.go_buildmode, "c-archive");
    assert_eq!(w.rustc_link_kind_goffi, "static");
    assert!(WorkConfig::new(&cfg, "echo.json", "json", "echo", "echo", None, GenMode::Codec).is_none());
    let cdylib = Config { use_goffi_cdylib: true, ..cfg };
    let w = WorkConfig::new(&cdylib, "echo.thrift", "thrift", "echo", "echo", None, GenMode::Codec).unwrap();
    assert_eq!(w.go_clib_file_name, "libgo_echo.so");
    assert_eq!(w.go_lib_file_name, "echo_gen.go");
    assert_eq!(w.rustc_link_kind_goffi, "dylib");
}

#[test]
fn work_config_module_named_after_idl_file() {
    let cfg = Config {
        idl_file: "/w/mycrate/ffi_a.proto".to_string(),
        target_crate_dir: Some("/w/mycrate".to_string()),
        go_root_path: None,
        go_mod_parent: "github.com/x/".to_string(),
        use_goffi_cdylib: false,
        add_clib_to_git: false,
    };
    let w = WorkConfig::new(&cfg, "ffi_a.proto", "proto", "mycrate", "mycrate", None, GenMode::Codec).unwrap();
    assert_eq!(w.pkg_name, "mycrate");
    assert_eq!(w.rust_mod_dir_name, "ffi_a_ffi");
    assert_eq!(w.rust_mod_gen_name, "ffi_a_gen");
    assert_eq!(w.rust_mod_gen_file_name, "ffi_a_gen.rs");
    assert_eq!(w.go_lib_file_name, "ffi_a_gen.go");
}

#[test]
fn go_mod_path_check() {
    assert!(check_go_mod_path("module github.com/x/demo\n\ngo 1.18\n", "github.com/x/demo"));
    assert!(check_go_mod_path("module github.com/x/demo ", "github.com/x/demo"));
    assert!(!check_go_mod_path("module github.com/x/demo2\n", "github.com/x/demo"));
    assert!(!check_go_mod_path("module github.com/x/demo", "github.com/x/demo"));
}

fn item(kind: IdlItemKind, name: &str, debug: &str) -> IdlItem {
    IdlItem { kind, name: name.to_string(), debug: debug.to_string() }
}

#[test]
fn idl_checks() {
    let ok = vec![item(IdlItemKind::Message, "", ""), item(IdlItemKind::Service, "GoFFI", ""), item(IdlItemKind::Service, "rustffi", "")];
    assert!(clean_idl(IdlType::Proto, false, &ok) == Ok((true, true)));
    let only = vec![item(IdlItemKind::Service, "RustFFI", "")];
    assert!(clean_idl(IdlType::Thrift, false, &only) == Ok((false, true)));
    assert!(clean_idl(IdlType::Proto, true, &ok) == Err("IDL-Check: Does not support Protobuf 'import'.".to_string()));
    assert!(clean_idl(IdlType::Thrift, true, &ok) == Err("IDL-Check: Does not support Thrift 'include'.".to_string()));
    let bad = vec![item(IdlItemKind::Service, "Api", "")];
    assert!(clean_idl(IdlType::Proto, false, &bad) == Err("IDL-Check: Protobuf Service name can only be: 'GoFFI', 'RustFFI'.".to_string()));
    let other = vec![item(IdlItemKind::Other, "", "Item { kind: Enum(Enum { name: x }) }")];
    assert!(clean_idl(IdlType::Proto, false, &other) == Err("IDL-Check: Protobuf Item 'enum' not supported.".to_string()));
    assert!(clean_idl(IdlType::Thrift, false, &other) == Err("Thrift Item 'item { kind: enum' not supported.".to_string()));
    let descs = vec![ProtoDesc { has_package: false, has_go_package: true }, ProtoDesc { has_package: true, has_go_package: false }];
    assert!(check_proto_descs(&descs) == Err("IDL-Check: The 'option go_package' should not be configured".to_string()));
    assert!(check_proto_descs(&vec![ProtoDesc { has_package: false, has_go_package: false }]).is_ok());
}

#[test]
fn fingerprints() {
    assert_eq!(to_hex(&vec![0, 255, 16]), "00ff10");
    assert_eq!(fingerprint(&vec![b"".to_vec()]), "|d41d8cd98f00b204e9800998ecf8427e");
    assert_eq!(fingerprint(&vec![b"abc".to_vec(), b"".to_vec()]), "|900150983cd24fb0d6963f7d28e17f72|d41d8cd98f00b204e9800998ecf8427e");
    assert_eq!(fingerprint(&vec![]), "");
    assert!(is_fingerprint_file(Some("rs"), true));
    assert!(!is_fingerprint_file(Some("rs"), false));
    assert!(!is_fingerprint_file(Some("md"), true));
    assert!(!is_fingerprint_file(None, true));
}

#[test]
fn build_script_lines() {
    let lines = rustc_link_lines("/t/debug", "static", "go_demo");
    assert_eq!(lines, vec![
        "cargo:rustc-link-search=native=/t/debug".to_string(),
        "cargo:rustc-link-search=dependency=/t/debug".to_string(),
        "cargo:rustc-link-lib=static=go_demo".to_string(),
    ]);
    assert_eq!(go_cmd_path(Some("/usr/local/go"), None, "go"), "/usr/local/go/bin/go");
    assert_eq!(go_cmd_path(None, Some("/opt/go/"), "gofmt"), "/opt/go/bin/gofmt");
    assert_eq!(go_cmd_path(Some("/a"), Some("/b"), "go"), "/a/bin/go");
    assert_eq!(go_cmd_path(None, None, "go"), "go");
    assert_eq!(go_cmd_path(None, Some(""), "go"), "bin/go");
    assert_eq!(go_cmd_path(Some(""), Some("/b"), "gofmt"), "bin/gofmt");
}

#[test]
fn fresh_go_mod_passes_the_module_check() {
    let reqs = vec!["github.com/andeya/gust@v1.5.2".to_string()];
    let text = fcplug::build::files::gen_go_mod_code("github.com/x/demo", &reqs);
    assert!(check_go_mod_path(&text, "github.com/x/demo"));
}

#[test]
fn names_read_back() {
    for os in [GoOS::aix, GoOS::linux, GoOS::windows, GoOS::plan9] {
        assert!(GoOS::from_str(os.as_ref()) == Some(os));
    }
    for arch in [GoArch::_386, GoArch::amd64, GoArch::mips64le, GoArch::wasm] {
        assert!(GoArch::from_str(arch.as_ref()) == Some(arch));
    }
    for os in [RustOS::_3ds, RustOS::solid_asp3, RustOS::none] {
        assert!(RustOS::from_str(os.as_ref()) == Some(os));
    }
    for arch in [RustArch::thumbv8m_base, RustArch::x86_64h, RustArch::i386] {
        assert!(RustArch::from_str(arch.as_ref()) == Some(arch));
    }
}
