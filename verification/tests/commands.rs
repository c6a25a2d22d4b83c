use fcplug::build::rust_callee::{callee_after_include, callee_report, profile_dir_components};
use fcplug::build::builder::{Plugin, SourceType};
use fcplug::build::commands::{
    PbConfigs, codec_gen_command, fingerprint_changed, git_add_args, go_build_args, idl_builder, protoc_go_command,
    thrift_go_file_names, workspace_dir_components,
};
use fcplug::build::config::IdlType;
use fcplug::runtime::rclib::{callback, ABIRequest, ABIResponse, ABIResult, Buffer, FFIResult, LeakBuffer, ResultCode};

#[test]
fn tool_arguments() {
    assert_eq!(go_build_args("c-archive", "/t/libgo_x.a", "/p/cgobin"), vec!["build", "-buildmode=c-archive", "-o=/t/libgo_x.a", "/p/cgobin"]);
    assert_eq!(git_add_args(&vec!["a.h".to_string(), "b.a".to_string()]), vec!["add", "-f", "a.h", "b.a"]);
    assert!(fingerprint_changed("", "|x"));
    assert!(!fingerprint_changed("|x", "|x"));
    let (p, args) = codec_gen_command(IdlType::Proto, "/t/debug", "/p", "/t/debug/x.proto");
    assert_eq!(p, "protoc");
    assert_eq!(args, vec!["--proto_path=/t/debug", "--go_out=/p", "/t/debug/x.proto"]);
    let (p, args) = codec_gen_command(IdlType::ThriftNoCodec, "/t/debug", "/p", "x.thrift");
    assert_eq!(p, "thriftgo");
    assert_eq!(args, vec!["-g=go", "-o=/t/debug/gen-thrift", "x.thrift"]);
    assert_eq!(thrift_go_file_names("echo"), ("gen-thrift/echo/echo.go".to_string(), "echo.thrift.go".to_string()));
    let pb = PbConfigs { inputs: vec!["a.proto".to_string(), "b.proto".to_string()], includes: vec!["idl".to_string(), "x".to_string()] };
    assert_eq!(protoc_go_command(&pb, "out"), "protoc --proto_path=idl --proto_path=x --go_out out a.proto b.proto");
}

#[test]
fn workspace_directory() {
    let c = |v: &[&str]| v.iter().map(|s| s.to_string()).collect::<Vec<String>>();
    assert_eq!(workspace_dir_components(&c(&["/", "w", "target", "debug", "build", "target", "out"])), c(&["/", "w", "target", "debug", "build"]));
    assert_eq!(workspace_dir_components(&c(&["/", "w", "target", "debug"])), c(&["/", "w"]));
    assert!(workspace_dir_components(&c(&["/", "w"])).is_empty());
}

#[test]
fn idl_builder_settings() {
    let b = idl_builder(IdlType::Thrift, 0u8, "/idl");
    assert!(b.source_type == SourceType::Thrift);
    assert_eq!(b.include_dirs, vec!["/idl".to_string()]);
    assert_eq!(b.plugins.len(), 4);
    assert!(matches!(&b.plugins[3], Plugin::AutoDerive(a) if a == &vec!["#[derive(::serde::Serialize, ::serde::Deserialize)]".to_string()]));
    assert!(b.ignore_unused);
    assert!(idl_builder(IdlType::ProtoNoCodec, 0u8, "/idl").source_type == SourceType::Protobuf);
}

#[derive(Debug)]
struct Num(u8);

impl ABIRequest for Num {
    type DecodeError = ();
    fn try_from_bytes(buf: &[u8]) -> Result<Self, ()> {
        if buf.len() == 1 { Ok(Num(buf[0])) } else { Err(()) }
    }
}

impl ABIResponse for Num {
    type EncodeError = ();
    fn try_into_buffer(self) -> Result<LeakBuffer, ()> {
        if self.0 == 0 { Err(()) } else { Ok(LeakBuffer::from_vec(vec![self.0])) }
    }
}

fn double(n: Num) -> ABIResult<Num> {
    if n.0 > 100 { Err(ResultCode::Decode) } else { Ok(Num(n.0 * 2)) }
}

#[test]
fn serving_calls() {
    let r: FFIResult = callback::<Num, Num, _>("double", double, &Buffer { bytes: vec![21] });
    assert!(r.code == ResultCode::NoError);
    assert_eq!(r.data.read(), Some(&[42u8][..]));
    let r = callback::<Num, Num, _>("double", double, &Buffer { bytes: vec![1, 2] });
    assert!(r.code == ResultCode::Decode);
    let r = callback::<Num, Num, _>("double", double, &Buffer { bytes: vec![0] });
    assert!(r.code == ResultCode::Encode);
    let r = callback::<Num, Num, _>("double", double, &Buffer { bytes: vec![200] });
    assert!(r.code == ResultCode::Encode);
    assert!(r.data.is_empty());
}

#[derive(Debug)]
struct Text(String);

impl ABIRequest for Text {
    type DecodeError = std::string::FromUtf8Error;
    fn try_from_bytes(buf: &[u8]) -> Result<Self, Self::DecodeError> {
        String::from_utf8(buf.to_vec()).map(Text)
    }
}

impl ABIResponse for Text {
    type EncodeError = ();
    fn try_into_buffer(self) -> Result<LeakBuffer, ()> {
        Ok(LeakBuffer::from_vec(self.0.into_bytes()))
    }
}

fn raw_echo(args: Text) -> ABIResult<Text> {
    fcplug::demo::echo(&args.0).map(Text)
}

#[test]
fn test_echo() {
    let req = Buffer { bytes: "andeya".as_bytes().to_vec() };
    let r: FFIResult = callback::<Text, Text, _>("echo", raw_echo, &req);
    assert!(r.code == ResultCode::NoError);
    assert_eq!(r.data.read(), Some("input is: andeya".as_bytes()));
    let r = callback::<Text, Text, _>("echo", raw_echo, &Buffer { bytes: vec![0xff] });
    assert!(r.code == ResultCode::Decode);
}

#[test]
fn rust_callee_header_paths() {
    let comps: Vec<String> = ["/", "w", "target", "debug", "build", "demo-1a2b", "out"].iter().map(|s| s.to_string()).collect();
    assert_eq!(profile_dir_components(&comps), vec!["/", "w", "target", "debug"]);
    assert!(profile_dir_components(&vec!["a".to_string()]).is_empty());
    let r = callee_report("/w/target/debug", "my-demo");
    assert_eq!(r.rust_c_header_filename, "/w/target/debug/my_demo.h");
    assert_eq!(r.rust_c_lib_filename, "/w/target/debug/libmy_demo.a");
    assert_eq!(callee_after_include("fcplug-callee"), "");
    assert!(callee_after_include("demo").contains("typedef struct FFIResult {"));
    assert!(callee_after_include("demo").ends_with("void free_buffer(enum OriginType free_type, uintptr_t free_ptr);\n"));
}
