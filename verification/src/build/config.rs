//! The configuration of a code generation run: the names of the files and
//! libraries it writes, the checks on the IDL file and on `go.mod`, and the
//! fingerprint of the crate.
use vstd::prelude::*;
use crate::build::generator::{CodegenConfig, GenMode};
use crate::build::os_arch::{GoArch, GoOS, go_arch_name, go_os_name};
use crate::build::ffidl::{idl_stem, Config as FfidlConfig};
use crate::text::{views, 
    before_first, contains, lowercase, prefix_before, push_char, replace_char, replace_char_str,
    seq_concat, seq_contains, str_eq, to_lowercase, trim_end, trim_end_char, trim_start,
    trim_start_char, trim_start_seq, trim_start_str,
};

verus! {

/// The configuration of a generation run, as the user writes it. Paths are
/// held as text.
pub struct Config {
    /// The IDL file (`.proto` or `.thrift`).
    pub idl_file: String,
    /// The target crate directory for code generation.
    pub target_crate_dir: Option<String>,
    /// The directory of the go command; found from `$GOROOT`, then `$PATH`, if none.
    pub go_root_path: Option<String>,
    /// The parent path of the Go module.
    pub go_mod_parent: String,
    /// Whether Go is compiled into a C dynamic library (else a static one).
    pub use_goffi_cdylib: bool,
    /// Whether the C library files are added to git.
    pub add_clib_to_git: bool,
}

/// A unit-like struct path, e.g. `::mycrate::Abc`.
pub struct UnitLikeStructPath(pub String);

/// A Go object and the package that it comes from.
pub struct GoObjectPath {
    /// e.g. `github.com/xxx/mypkg`
    pub import: String,
    /// e.g. `mypkg.Abc`
    pub object_ident: String,
}

/// The kind of IDL file, with or without a codec.
#[derive(Clone, Copy, PartialEq, Eq, Structural)]
pub enum IdlType {
    Proto,
    Thrift,
    ProtoNoCodec,
    ThriftNoCodec,
}

/// The kind of IDL file for an extension; none for an unknown extension.
pub open spec fn idl_type_of(extension: Seq<char>, mode: GenMode) -> Option<IdlType> {
    if extension == "thrift"@ {
        Some(match mode {
            GenMode::Codec => IdlType::Thrift,
            GenMode::NoCodec => IdlType::ThriftNoCodec,
        })
    } else if extension == "proto"@ {
        Some(match mode {
            GenMode::Codec => IdlType::Proto,
            GenMode::NoCodec => IdlType::ProtoNoCodec,
        })
    } else {
        None
    }
}

/// Whether the IDL is protobuf (else thrift).
pub open spec fn is_proto(t: IdlType) -> bool {
    t is Proto || t is ProtoNoCodec
}

/// The kind of IDL file with extension `extension`: `thrift` or `proto`; none
/// for another extension.
pub fn new_idl_type(extension: &str, mode: GenMode) -> (r: Option<IdlType>)
    ensures
        r == idl_type_of(extension@, mode),
{
    if str_eq(extension, "thrift") {
        Some(match mode {
            GenMode::Codec => IdlType::Thrift,
            GenMode::NoCodec => IdlType::ThriftNoCodec,
        })
    } else if str_eq(extension, "proto") {
        Some(match mode {
            GenMode::Codec => IdlType::Proto,
            GenMode::NoCodec => IdlType::ProtoNoCodec,
        })
    } else {
        None
    }
}

/// The package name for a crate directory named `dir_name`: `.` and `-`
/// become `_`, then leading and trailing `_` are dropped.
pub open spec fn pkg_name_of(dir_name: Seq<char>) -> Seq<char> {
    trim_end(trim_start(replace_char(replace_char(dir_name, '.', '_'), '-', '_'), '_'), '_')
}

/// The package name for a crate directory named `dir_name`.
pub fn new_pkg_name(dir_name: &str) -> (r: String)
    ensures
        r@ == pkg_name_of(dir_name@),
{
    let a = replace_char_str(dir_name, '.', '_');
    let b = replace_char_str(a.as_str(), '-', '_');
    let c = trim_start_char(b.as_str(), '_');
    trim_end_char(c.as_str(), '_')
}

/// The Go module path: the parent path without trailing `/`, then `/` and
/// the module name.
pub open spec fn gomod_path_of(go_mod_parent: Seq<char>, gomod_name: Seq<char>) -> Seq<char> {
    trim_end(go_mod_parent, '/') + "/"@ + gomod_name
}

/// The Go module path.
pub fn new_gomod_path(go_mod_parent: &str, gomod_name: &str) -> (r: String)
    ensures
        r@ == gomod_path_of(go_mod_parent@, gomod_name@),
{
    let mut r = trim_end_char(go_mod_parent, '/');
    r.append("/");
    r.append(gomod_name);
    r
}

/// The base name of the Rust C library: the Cargo package name with `-` as `_`.
pub fn new_rust_clib_name_base(cargo_pkg_name: &str) -> (r: String)
    ensures
        r@ == replace_char(cargo_pkg_name@, '-', '_'),
{
    replace_char_str(cargo_pkg_name, '-', '_')
}

/// The base name of the Go C library: `go_` and the Rust one.
pub fn new_go_clib_name_base(rust_clib_name_base: &str) -> (r: String)
    ensures
        r@ == "go_"@ + rust_clib_name_base@,
{
    let mut r = String::from_str("go_");
    r.append(rust_clib_name_base);
    r
}

/// The `go build -buildmode` for the Go C library.
pub fn go_buildmode(use_goffi_cdylib: bool) -> (r: &'static str)
    ensures
        r@ == if use_goffi_cdylib { "c-shared"@ } else { "c-archive"@ },
{
    if use_goffi_cdylib {
        "c-shared"
    } else {
        "c-archive"
    }
}

/// How rustc links the Go C library.
pub fn rustc_link_kind_goffi(use_goffi_cdylib: bool) -> (r: &'static str)
    ensures
        r@ == if use_goffi_cdylib { "dylib"@ } else { "static"@ },
{
    if use_goffi_cdylib {
        "dylib"
    } else {
        "static"
    }
}

/// The file name of the Rust C library: `lib<base>.a`.
pub fn rust_clib_file_name(rust_clib_name_base: &str) -> (r: String)
    ensures
        r@ == "lib"@ + rust_clib_name_base@ + ".a"@,
{
    let mut r = String::from_str("lib");
    r.append(rust_clib_name_base);
    r.append(".a");
    r
}

/// The file name of a C header: `<base>.h`.
pub fn clib_header_name(name_base: &str) -> (r: String)
    ensures
        r@ == name_base@ + ".h"@,
{
    let mut r = String::from_str(name_base);
    r.append(".h");
    r
}

/// The file name of the Go C library: `lib<base>.so` or `lib<base>.a`.
pub fn go_clib_file_name(go_clib_name_base: &str, use_goffi_cdylib: bool) -> (r: String)
    ensures
        r@ == "lib"@ + go_clib_name_base@ + if use_goffi_cdylib { ".so"@ } else { ".a"@ },
{
    let mut r = String::from_str("lib");
    r.append(go_clib_name_base);
    if use_goffi_cdylib {
        r.append(".so");
    } else {
        r.append(".a");
    }
    r
}

/// The suffix of the generated Go file names: `_<os>_<arch>`, or nothing
/// where the target has no Go operating system and architecture.
pub open spec fn go_file_suffix_of(os_arch: Option<(GoOS, GoArch)>) -> Seq<char> {
    match os_arch {
        Some((os, arch)) => "_"@ + go_os_name(os) + "_"@ + go_arch_name(arch),
        None => Seq::empty(),
    }
}

/// The suffix of the generated Go file names.
pub fn go_file_suffix(os_arch: Option<(GoOS, GoArch)>) -> (r: String)
    ensures
        r@ == go_file_suffix_of(os_arch),
{
    match os_arch {
        Some((os, arch)) => {
            let mut r = String::from_str("_");
            r.append(os.as_ref());
            r.append("_");
            r.append(arch.as_ref());
            r
        },
        None => String::new(),
    }
}

/// Whether a `go.mod` file declares the module `gomod_path`: `module <path>`
/// followed by a newline, a tab, a carriage return or a space.
pub open spec fn declares_module(content: Seq<char>, gomod_path: Seq<char>) -> bool {
    let line = "module "@ + gomod_path;
    seq_contains(content, line + "\n"@) || seq_contains(content, line + "\t"@)
        || seq_contains(content, line + "\r"@) || seq_contains(content, line + " "@)
}

/// Whether a `go.mod` file declares the module `gomod_path`.
pub fn check_go_mod_path(content: &str, gomod_path: &str) -> (r: bool)
    ensures
        r == declares_module(content@, gomod_path@),
{
    let mut line = String::from_str("module ");
    line.append(gomod_path);
    let mut a = line.clone();
    a.append("\n");
    let mut b = line.clone();
    b.append("\t");
    let mut c = line.clone();
    c.append("\r");
    let mut d = line.clone();
    d.append(" ");
    contains(content, a.as_str()) || contains(content, b.as_str()) || contains(content, c.as_str())
        || contains(content, d.as_str())
}

/// What an IDL item is, as far as the checks care.
#[derive(Clone, Copy, PartialEq, Eq, Structural)]
pub enum IdlItemKind {
    Message,
    Service,
    Other,
}

/// An item of the parsed IDL file.
pub struct IdlItem {
    pub kind: IdlItemKind,
    /// The name of a service.
    pub name: String,
    /// The `Debug` text of the parsed item, which names its kind.
    pub debug: String,
}

/// What the checks read of a parsed protobuf file descriptor.
pub struct ProtoDesc {
    pub has_package: bool,
    pub has_go_package: bool,
}

/// The error for the first protobuf descriptor that sets `package` or
/// `option go_package`.
pub open spec fn proto_desc_error(descs: Seq<ProtoDesc>) -> Option<Seq<char>>
    decreases descs.len(),
{
    if descs.len() == 0 {
        None
    } else if descs[0].has_package {
        Some("IDL-Check: The 'package' should not be configured"@)
    } else if descs[0].has_go_package {
        Some("IDL-Check: The 'option go_package' should not be configured"@)
    } else {
        proto_desc_error(descs.drop_first())
    }
}

/// Checks that no protobuf descriptor sets `package` or `option go_package`;
/// the error is that of the first one that does.
pub fn check_proto_descs(descs: &Vec<ProtoDesc>) -> (r: Result<(), String>)
    ensures
        match proto_desc_error(descs@) {
            None => r is Ok,
            Some(e) => r matches Err(m) && m@ == e,
        },
{
    let n = descs.len();
    let mut i: usize = 0;
    assert(descs@.skip(0) =~= descs@);
    while i < n
        invariant
            n == descs.len(),
            i <= n,
            proto_desc_error(descs@) == proto_desc_error(descs@.skip(i as int)),
        decreases n - i,
    {
        assert(descs@.skip(i as int).drop_first() =~= descs@.skip(i + 1));
        if descs[i].has_package {
            return Err(String::from_str("IDL-Check: The 'package' should not be configured"));
        }
        if descs[i].has_go_package {
            return Err(String::from_str("IDL-Check: The 'option go_package' should not be configured"));
        }
        i = i + 1;
    }
    Ok(())
}

/// The kind that the `Debug` text of an unsupported item names: for protobuf
/// the text after `Item { kind: `, for thrift the whole text, up to the first
/// `(`, in lowercase.
pub open spec fn item_kind_name(t: IdlType, debug: Seq<char>) -> Seq<char> {
    if is_proto(t) {
        lowercase(before_first(trim_start_seq(debug, "Item { kind: "@), '('))
    } else {
        lowercase(before_first(debug, '('))
    }
}

/// The error for one item of the IDL file, if it is not supported: a service
/// must be named `GoFFI` or `RustFFI` (in any case); only messages and
/// services are supported.
pub open spec fn idl_item_error(t: IdlType, item: IdlItem) -> Option<Seq<char>> {
    match item.kind {
        IdlItemKind::Message => None,
        IdlItemKind::Service => if lowercase(item.name@) == "goffi"@ || lowercase(item.name@)
            == "rustffi"@ {
            None
        } else {
            Some("IDL-Check: Protobuf Service name can only be: 'GoFFI', 'RustFFI'."@)
        },
        IdlItemKind::Other => if is_proto(t) {
            Some("IDL-Check: Protobuf Item '"@ + item_kind_name(t, item.debug@) + "' not supported."@)
        } else {
            Some("Thrift Item '"@ + item_kind_name(t, item.debug@) + "' not supported."@)
        },
    }
}

/// The error for the first unsupported item.
pub open spec fn first_item_error(t: IdlType, items: Seq<IdlItem>) -> Option<Seq<char>>
    decreases items.len(),
{
    if items.len() == 0 {
        None
    } else {
        match idl_item_error(t, items[0]) {
            Some(e) => Some(e),
            None => first_item_error(t, items.drop_first()),
        }
    }
}

/// Whether the items hold a service whose lowercased name is `name`.
pub open spec fn has_service(items: Seq<IdlItem>, name: Seq<char>) -> bool {
    exists|j: int|
        0 <= j < items.len() && (#[trigger] items[j]).kind == IdlItemKind::Service && lowercase(
            items[j].name@,
        ) == name
}

/// The error for an IDL file that imports (protobuf) or includes (thrift)
/// another.
pub open spec fn uses_error(t: IdlType) -> Seq<char> {
    if is_proto(t) {
        "IDL-Check: Does not support Protobuf 'import'."@
    } else {
        "IDL-Check: Does not support Thrift 'include'."@
    }
}

/// The kind that the `Debug` text of an unsupported item names.
fn item_kind_of(t: IdlType, debug: &str) -> (r: String)
    ensures
        r@ == item_kind_name(t, debug@),
{
    let head = if t == IdlType::Proto || t == IdlType::ProtoNoCodec {
        let trimmed = trim_start_str(debug, "Item { kind: ");
        prefix_before(trimmed.as_str(), '(')
    } else {
        prefix_before(debug, '(')
    };
    to_lowercase(head.as_str())
}

/// Checks the items of an IDL file: it uses no other file, and holds only
/// messages and services named `GoFFI` or `RustFFI`. On success, tells
/// whether it has a `GoFFI` and a `RustFFI` service; else the error of the
/// first problem.
pub fn clean_idl(t: IdlType, has_uses: bool, items: &Vec<IdlItem>) -> (r: Result<(bool, bool), String>)
    ensures
        has_uses ==> (r matches Err(e) && e@ == uses_error(t)),
        !has_uses ==> match first_item_error(t, items@) {
            Some(e) => r matches Err(m) && m@ == e,
            None => r == Ok::<(bool, bool), String>(
                (has_service(items@, "goffi"@), has_service(items@, "rustffi"@)),
            ),
        },
{
    if has_uses {
        if t == IdlType::Proto || t == IdlType::ProtoNoCodec {
            return Err(String::from_str("IDL-Check: Does not support Protobuf 'import'."));
        } else {
            return Err(String::from_str("IDL-Check: Does not support Thrift 'include'."));
        }
    }
    let mut has_goffi = false;
    let mut has_rustffi = false;
    let n = items.len();
    let mut i: usize = 0;
    assert(items@.skip(0) =~= items@);
    while i < n
        invariant
            n == items.len(),
            i <= n,
            !has_uses,
            first_item_error(t, items@) == first_item_error(t, items@.skip(i as int)),
            has_goffi == has_service(items@.take(i as int), "goffi"@),
            has_rustffi == has_service(items@.take(i as int), "rustffi"@),
        decreases n - i,
    {
        let item = &items[i];
        assert(items@.skip(i as int).drop_first() =~= items@.skip(i + 1));
        assert(items@.skip(i as int)[0] == items@[i as int]);
        let ghost prev = items@.take(i as int);
        let ghost next = items@.take(i + 1);
        assert(next =~= prev.push(items@[i as int]));
        match item.kind {
            IdlItemKind::Message => {},
            IdlItemKind::Service => {
                let lower = to_lowercase(item.name.as_str());
                if str_eq(lower.as_str(), "goffi") {
                    has_goffi = true;
                } else if str_eq(lower.as_str(), "rustffi") {
                    has_rustffi = true;
                } else {
                    return Err(String::from_str(
                        "IDL-Check: Protobuf Service name can only be: 'GoFFI', 'RustFFI'.",
                    ));
                }
            },
            IdlItemKind::Other => {
                let kind = item_kind_of(t, item.debug.as_str());
                let mut e = if t == IdlType::Proto || t == IdlType::ProtoNoCodec {
                    String::from_str("IDL-Check: Protobuf Item '")
                } else {
                    String::from_str("Thrift Item '")
                };
                e.append(kind.as_str());
                e.append("' not supported.");
                return Err(e);
            },
        }
        proof {
            reveal_strlit("goffi");
            reveal_strlit("rustffi");
            assert("goffi"@.len() != "rustffi"@.len());
            assert forall|name: Seq<char>| has_service(next, name) == (has_service(prev, name) || (
            items@[i as int].kind == IdlItemKind::Service && lowercase(items@[i as int].name@)
                == name)) by {
                if has_service(next, name) {
                    let j = choose|j: int|
                        0 <= j < next.len() && (#[trigger] next[j]).kind == IdlItemKind::Service
                            && lowercase(next[j].name@) == name;
                    if j < prev.len() {
                        assert(prev[j] == next[j]);
                    }
                }
                if has_service(prev, name) {
                    let j = choose|j: int|
                        0 <= j < prev.len() && (#[trigger] prev[j]).kind == IdlItemKind::Service
                            && lowercase(prev[j].name@) == name;
                    assert(next[j] == prev[j]);
                }
                if items@[i as int].kind == IdlItemKind::Service && lowercase(items@[i as int].name@)
                    == name {
                    assert(next[i as int] == items@[i as int]);
                }
            }
        }
        i = i + 1;
    }
    assert(items@.take(n as int) =~= items@);
    assert(items@.skip(n as int) =~= Seq::<IdlItem>::empty());
    Ok((has_goffi, has_rustffi))
}

/// The text of the protobuf file handed to the code generators: the user's
/// file, then the Go package option and the package clause.
pub open spec fn tidy_proto_text(content: Seq<char>, go_mod_name: Seq<char>) -> Seq<char> {
    content + "\noption go_package=\"./;"@ + go_mod_name + "\";\npackage "@ + go_mod_name + ";\n"@
}

/// The text of the protobuf file handed to the code generators.
pub fn tidy_proto(content: &str, go_mod_name: &str) -> (r: String)
    ensures
        r@ == tidy_proto_text(content@, go_mod_name@),
{
    let mut r = String::from_str(content);
    r.append("\noption go_package=\"./;");
    r.append(go_mod_name);
    r.append("\";\npackage ");
    r.append(go_mod_name);
    r.append(";\n");
    r
}

/// The file name of the IDL file handed to the code generators: the Go module
/// name with the extension of the IDL kind.
pub fn tidy_idl_file_name(t: IdlType, go_mod_name: &str) -> (r: String)
    ensures
        r@ == go_mod_name@ + if is_proto(t) { ".proto"@ } else { ".thrift"@ },
{
    let mut r = String::from_str(go_mod_name);
    if t == IdlType::Proto || t == IdlType::ProtoNoCodec {
        r.append(".proto");
    } else {
        r.append(".thrift");
    }
    r
}

/// The MD5 digest of `data`, as `md5::compute` computes it.
pub uninterp spec fn md5_digest(data: Seq<u8>) -> Seq<u8>;

/// `md5::compute`: the 16 bytes of the MD5 digest of `data`.
#[verifier::external_body]
fn md5_compute(data: &[u8]) -> (r: Vec<u8>)
    ensures
        r@ == md5_digest(data@),
        r@.len() == 16,
{
    md5::compute(data).0.to_vec()
}

/// The lowercase hexadecimal digit of `n` (below 16).
pub open spec fn hex_digit(n: u8) -> char {
    if n < 10 {
        ((n + 48) as u8) as char
    } else {
        ((n + 87) as u8) as char
    }
}

/// The lowercase hexadecimal text of some bytes, two digits a byte, as the
/// `LowerHex` format of an MD5 digest writes it.
pub open spec fn hex_text(bytes: Seq<u8>) -> Seq<char>
    decreases bytes.len(),
{
    if bytes.len() == 0 {
        Seq::empty()
    } else {
        hex_text(bytes.drop_last()) + seq![hex_digit(bytes.last() / 16), hex_digit(bytes.last() % 16)]
    }
}

/// The lowercase hexadecimal digit of `n`.
fn hex_digit_of(n: u8) -> (r: char)
    requires
        n < 16,
    ensures
        r == hex_digit(n),
{
    if n < 10 {
        ((n + 48) as u8) as char
    } else {
        ((n + 87) as u8) as char
    }
}

/// The lowercase hexadecimal text of `bytes`.
pub fn to_hex(bytes: &Vec<u8>) -> (r: String)
    ensures
        r@ == hex_text(bytes@),
{
    let mut r = String::new();
    let n = bytes.len();
    let mut i: usize = 0;
    while i < n
        invariant
            n == bytes.len(),
            i <= n,
            r@ == hex_text(bytes@.take(i as int)),
        decreases n - i,
    {
        let b = bytes[i];
        assert(bytes@.take(i + 1).drop_last() =~= bytes@.take(i as int));
        let ghost before = r@;
        push_char(&mut r, hex_digit_of(b / 16));
        push_char(&mut r, hex_digit_of(b % 16));
        assert(r@ =~= before + seq![hex_digit(b / 16), hex_digit(b % 16)]);
        i = i + 1;
    }
    assert(bytes@.take(n as int) =~= bytes@);
    r
}

/// The fingerprint of some file contents: for each, `|` and the hexadecimal
/// MD5 digest.
pub open spec fn fingerprint_text(contents: Seq<Vec<u8>>) -> Seq<char> {
    seq_concat(contents.map_values(|c: Vec<u8>| "|"@ + hex_text(md5_digest(c@))))
}

/// The fingerprint of the contents of the crate's source files, in the order
/// the directory walk found them.
pub fn fingerprint(contents: &Vec<Vec<u8>>) -> (r: String)
    ensures
        r@ == fingerprint_text(contents@),
{
    let ghost f = |c: Vec<u8>| "|"@ + hex_text(md5_digest(c@));
    let mut r = String::new();
    let n = contents.len();
    let mut i: usize = 0;
    while i < n
        invariant
            n == contents.len(),
            i <= n,
            f == (|c: Vec<u8>| "|"@ + hex_text(md5_digest(c@))),
            r@ == seq_concat(contents@.take(i as int).map_values(f)),
        decreases n - i,
    {
        let digest = md5_compute(contents[i].as_slice());
        let hex = to_hex(&digest);
        assert(contents@.take(i + 1).map_values(f).drop_last() =~= contents@.take(i as int).map_values(f));
        r.append("|");
        r.append(hex.as_str());
        i = i + 1;
    }
    assert(contents@.take(n as int) =~= contents@);
    r
}

/// Whether a file takes part in the fingerprint: a regular file with the
/// extension `go`, `rs`, `toml` or `proto`.
pub open spec fn is_fingerprint_file_spec(extension: Option<Seq<char>>, is_file: bool) -> bool {
    match extension {
        Some(e) => (e == "go"@ || e == "rs"@ || e == "toml"@ || e == "proto"@) && is_file,
        None => false,
    }
}

/// Whether a file takes part in the fingerprint.
pub fn is_fingerprint_file(extension: Option<&str>, is_file: bool) -> (r: bool)
    ensures
        r == is_fingerprint_file_spec(
            match extension {
                Some(e) => Some(e@),
                None => None,
            },
            is_file,
        ),
{
    match extension {
        Some(e) => (str_eq(e, "go") || str_eq(e, "rs") || str_eq(e, "toml") || str_eq(e, "proto"))
            && is_file,
        None => false,
    }
}

/// The lines that tell Cargo to link the Go C library: the search paths
/// (native and dependency) and the library with its link kind.
pub fn rustc_link_lines(clib_gen_dir: &str, rustc_link_kind_goffi: &str, go_clib_name_base: &str) -> (r: Vec<String>)
    ensures
        views(r@) == seq![
            "cargo:rustc-link-search=native="@ + clib_gen_dir@,
            "cargo:rustc-link-search=dependency="@ + clib_gen_dir@,
            "cargo:rustc-link-lib="@ + rustc_link_kind_goffi@ + "="@ + go_clib_name_base@,
        ],
{
    let mut a = String::from_str("cargo:rustc-link-search=native=");
    a.append(clib_gen_dir);
    let mut b = String::from_str("cargo:rustc-link-search=dependency=");
    b.append(clib_gen_dir);
    let mut c = String::from_str("cargo:rustc-link-lib=");
    c.append(rustc_link_kind_goffi);
    c.append("=");
    c.append(go_clib_name_base);
    let r = vec![a, b, c];
    assert(views(r@) =~= seq![a@, b@, c@]);
    r
}

/// The lines that tell Cargo to rerun the build when the crate or the
/// output directory changes.
pub fn rerun_if_changed_lines(pkg_dir: &str, target_out_dir: &str) -> (r: Vec<String>)
    ensures
        views(r@) == seq![
            "cargo:rerun-if-changed="@ + pkg_dir@,
            "cargo:rerun-if-changed="@ + target_out_dir@,
        ],
{
    let mut a = String::from_str("cargo:rerun-if-changed=");
    a.append(pkg_dir);
    let mut b = String::from_str("cargo:rerun-if-changed=");
    b.append(target_out_dir);
    let r = vec![a, b];
    assert(views(r@) =~= seq![a@, b@]);
    r
}

/// `dir/bin/cmd` on a Unix path, with no doubled separator after `dir`;
/// an empty `dir` adds nothing, so that the path is `bin/cmd`.
pub open spec fn bin_path(dir: Seq<char>, cmd: Seq<char>) -> Seq<char> {
    if dir.len() == 0 || dir.last() == '/' {
        dir + "bin/"@ + cmd
    } else {
        dir + "/bin/"@ + cmd
    }
}

/// The path of a Go tool: in the `bin` directory of the configured Go root,
/// else of `$GOROOT`, else the bare command, found on `$PATH`.
pub fn go_cmd_path(go_root_path: Option<&str>, env_goroot: Option<&str>, cmd: &str) -> (r: String)
    ensures
        r@ == match go_root_path {
            Some(d) => bin_path(d@, cmd@),
            None => match env_goroot {
                Some(d) => bin_path(d@, cmd@),
                None => cmd@,
            },
        },
{
    let dir = match go_root_path {
        Some(d) => d,
        None => match env_goroot {
            Some(d) => d,
            None => return String::from_str(cmd),
        },
    };
    let n = dir.unicode_len();
    let mut r = String::from_str(dir);
    if n == 0 || dir.get_char(n - 1) == '/' {
        r.append("bin/");
    } else {
        r.append("/bin/");
    }
    r.append(cmd);
    r
}

/// The names that a generation run works with, derived from the user's
/// configuration and the build environment. File names are relative to the
/// directories that the build script resolves.
pub struct WorkConfig {
    pub go_buildmode: String,
    pub rustc_link_kind_goffi: String,
    pub idl_type: IdlType,
    pub rust_clib_name_base: String,
    pub go_clib_name_base: String,
    pub pkg_name: String,
    pub gomod_name: String,
    pub gomod_path: String,
    /// The directory of the Rust FFI module, under `src`.
    pub rust_mod_dir_name: String,
    /// The name of the generated Rust module.
    pub rust_mod_gen_name: String,
    pub rust_mod_gen_file_name: String,
    pub go_lib_file_name: String,
    /// The generated Go file of the `main` package, under `cgobin`.
    pub go_main_file_name: String,
    pub rust_clib_file_name: String,
    pub rust_clib_header_name: String,
    pub go_clib_file_name: String,
    pub go_clib_header_name: String,
    /// The unit-like struct that implements the FFI traits.
    pub rust_mod_impl_name: String,
    pub gen_mode: GenMode,
}

impl WorkConfig {
    /// The names for a run on the IDL file named `idl_file_name` (its
    /// extension `idl_extension`), in the crate in the directory named
    /// `pkg_dir_name`, for the Cargo package `cargo_pkg_name`, on a target
    /// with the Go operating system and architecture `go_os_arch` (none if Go
    /// has none); none where the IDL file's extension is neither `proto` nor
    /// `thrift`. The Rust module and the generated files are named after the
    /// IDL file: `{name}.proto` gives the module directory `{name}_ffi`.
    pub fn new(
        config: &Config,
        idl_file_name: &str,
        idl_extension: &str,
        pkg_dir_name: &str,
        cargo_pkg_name: &str,
        go_os_arch: Option<(GoOS, GoArch)>,
        gen_mode: GenMode,
    ) -> (r: Option<WorkConfig>)
        ensures
            idl_type_of(idl_extension@, gen_mode) is None ==> r is None,
            idl_type_of(idl_extension@, gen_mode) matches Some(t) ==> r matches Some(w) && {
                let pkg = pkg_name_of(pkg_dir_name@);
                let ffi = pkg_name_of(idl_stem(idl_file_name@));
                let rust_base = replace_char(cargo_pkg_name@, '-', '_');
                let go_base = "go_"@ + rust_base;
                let suffix = go_file_suffix_of(go_os_arch);
                &&& w.idl_type == t
                &&& w.gen_mode == gen_mode
                &&& w.go_buildmode@ == if config.use_goffi_cdylib { "c-shared"@ } else { "c-archive"@ }
                &&& w.rustc_link_kind_goffi@ == if config.use_goffi_cdylib { "dylib"@ } else { "static"@ }
                &&& w.rust_clib_name_base@ == rust_base
                &&& w.go_clib_name_base@ == go_base
                &&& w.pkg_name@ == pkg
                &&& w.gomod_name@ == pkg
                &&& w.gomod_path@ == gomod_path_of(config.go_mod_parent@, pkg)
                &&& w.rust_mod_dir_name@ == ffi + "_ffi"@
                &&& w.rust_mod_gen_name@ == ffi + "_gen"@
                &&& w.rust_mod_gen_file_name@ == ffi + "_gen"@ + ".rs"@
                &&& w.go_lib_file_name@ == ffi + "_gen"@ + suffix + ".go"@
                &&& w.go_main_file_name@ == "clib_goffi_gen"@ + suffix + ".go"@
                &&& w.rust_clib_file_name@ == "lib"@ + rust_base + ".a"@
                &&& w.rust_clib_header_name@ == rust_base + ".h"@
                &&& w.go_clib_file_name@ == "lib"@ + go_base + if config.use_goffi_cdylib {
                    ".so"@
                } else {
                    ".a"@
                }
                &&& w.go_clib_header_name@ == go_base + ".h"@
                &&& w.rust_mod_impl_name@ == "FfiImpl"@
            },
    {
        let idl_type = match new_idl_type(idl_extension, gen_mode) {
            Some(t) => t,
            None => return None,
        };
        let rust_clib_name_base = new_rust_clib_name_base(cargo_pkg_name);
        let go_clib_name_base = new_go_clib_name_base(rust_clib_name_base.as_str());
        let pkg_name = new_pkg_name(pkg_dir_name);
        let gomod_name = pkg_name.clone();
        let gomod_path = new_gomod_path(config.go_mod_parent.as_str(), gomod_name.as_str());
        let ffi_name = FfidlConfig::pkg_name_prefix(idl_file_name);
        let mut rust_mod_dir_name = ffi_name.clone();
        rust_mod_dir_name.append("_ffi");
        let rust_mod_gen_name = FfidlConfig::file_name_base(idl_file_name);
        let mut rust_mod_gen_file_name = rust_mod_gen_name.clone();
        rust_mod_gen_file_name.append(".rs");
        let suffix = go_file_suffix(go_os_arch);
        let mut go_lib_file_name = rust_mod_gen_name.clone();
        go_lib_file_name.append(suffix.as_str());
        go_lib_file_name.append(".go");
        let mut go_main_file_name = String::from_str("clib_goffi_gen");
        go_main_file_name.append(suffix.as_str());
        go_main_file_name.append(".go");
        let rust_clib_file_name = rust_clib_file_name(rust_clib_name_base.as_str());
        let rust_clib_header_name = clib_header_name(rust_clib_name_base.as_str());
        let go_clib_file_name = go_clib_file_name(go_clib_name_base.as_str(), config.use_goffi_cdylib);
        let go_clib_header_name = clib_header_name(go_clib_name_base.as_str());
        Some(WorkConfig {
            go_buildmode: String::from_str(go_buildmode(config.use_goffi_cdylib)),
            rustc_link_kind_goffi: String::from_str(rustc_link_kind_goffi(config.use_goffi_cdylib)),
            idl_type,
            rust_clib_name_base,
            go_clib_name_base,
            pkg_name,
            gomod_name,
            gomod_path,
            rust_mod_dir_name,
            rust_mod_gen_name,
            rust_mod_gen_file_name,
            go_lib_file_name,
            go_main_file_name,
            rust_clib_file_name,
            rust_clib_header_name,
            go_clib_file_name,
            go_clib_header_name,
            rust_mod_impl_name: String::from_str("FfiImpl"),
            gen_mode,
        })
    }

    /// What the code generators read of this configuration.
    pub fn codegen_config(&self) -> (r: CodegenConfig)
        ensures
            r.rust_mod_impl_name == self.rust_mod_impl_name,
            r.gomod_name == self.gomod_name,
            r.go_clib_name_base == self.go_clib_name_base,
            r.rustc_link_kind_goffi == self.rustc_link_kind_goffi,
            r.gen_mode == self.gen_mode,
    {
        CodegenConfig {
            rust_mod_impl_name: self.rust_mod_impl_name.clone(),
            gomod_name: self.gomod_name.clone(),
            go_clib_name_base: self.go_clib_name_base.clone(),
            rustc_link_kind_goffi: self.rustc_link_kind_goffi.clone(),
            gen_mode: self.gen_mode,
        }
    }
}

} // verus!
