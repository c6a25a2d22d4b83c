//! The text of the generated files around the per-service code: the Go
//! package and `main` files, `go.mod`, the additions to the Rust module, and
//! the packages that the Go code imports.
use vstd::prelude::*;
use crate::build::config::{IdlType, is_proto};
use crate::build::templates::{
    ffi_trait_block, go_lib_file, go_main_file, go_mod_file, rust_clib_includes,
    spec_ffi_trait_block, spec_go_lib_file, spec_go_main_file, spec_go_mod_file,
    spec_rust_clib_includes,
};
use crate::text::{
    before_first, before_last, concat, contains, join, prefix_before, prefix_before_last,
    replace_char, replace_char_str, seq_concat, seq_contains, seq_join, views,
};

verus! {

/// A Go package that the generated Go code imports.
pub struct ImportPkg {
    /// Whether the `main` package imports it.
    pub in_main: bool,
    /// Whether the library package imports it.
    pub in_lib: bool,
    pub import_path: String,
    /// A line that uses the package, so that Go does not reject the import.
    pub use_code: String,
}

/// What the codec part of the generator hands to the file writer.
pub struct MidOutput {
    /// The C declarations that the Rust C header starts with.
    pub rust_clib_includes: String,
    /// The Go modules to require, as `path@version`.
    pub mod_requires: Vec<String>,
    pub imports: Vec<ImportPkg>,
}

/// A default, empty import.
pub fn empty_import() -> (r: ImportPkg)
    ensures
        !r.in_main,
        !r.in_lib,
        r.import_path@ == Seq::<char>::empty(),
        r.use_code@ == Seq::<char>::empty(),
{
    ImportPkg { in_main: false, in_lib: false, import_path: String::new(), use_code: String::new() }
}

/// An import, from its parts.
fn import_pkg(in_main: bool, in_lib: bool, import_path: &str, use_code: &str) -> (r: ImportPkg)
    ensures
        r.in_main == in_main,
        r.in_lib == in_lib,
        r.import_path@ == import_path@,
        r.use_code@ == use_code@,
{
    ImportPkg {
        in_main,
        in_lib,
        import_path: String::from_str(import_path),
        use_code: String::from_str(use_code),
    }
}

/// The Go modules that the generated code requires: gust, sonic, and the
/// protobuf or thrift runtime.
pub open spec fn mod_requires_of(t: IdlType) -> Seq<Seq<char>> {
    seq![
        "github.com/andeya/gust@v1.5.2"@,
        "github.com/bytedance/sonic@latest"@,
        if is_proto(t) {
            "google.golang.org/protobuf@v1.26.0"@
        } else {
            "github.com/apache/thrift@v0.13.0"@
        },
    ]
}

/// The codec part of the generator's output for an IDL of kind `t` whose Go
/// module is `gomod_path` (named `gomod_name`): the shared C declarations,
/// the required Go modules, and five imports: gust (main), gust's `valconv`
/// (library), sonic (library), the protobuf runtime (library; an empty import
/// for thrift) and the Go module itself (main).
pub fn mid_output(t: IdlType, gomod_path: &str, gomod_name: &str) -> (r: MidOutput)
    ensures
        r.rust_clib_includes@ == spec_rust_clib_includes(),
        views(r.mod_requires@) == mod_requires_of(t),
        r.imports@.len() == 5,
        r.imports@[0].in_main && !r.imports@[0].in_lib,
        r.imports@[0].import_path@ == "github.com/andeya/gust"@,
        r.imports@[0].use_code@ == "var _ gust.EnumResult[any, any]"@,
        !r.imports@[1].in_main && r.imports@[1].in_lib,
        r.imports@[1].import_path@ == "github.com/andeya/gust/valconv"@,
        r.imports@[1].use_code@ == "var _ valconv.ReadonlyBytes"@,
        !r.imports@[2].in_main && r.imports@[2].in_lib,
        r.imports@[2].import_path@ == "github.com/bytedance/sonic"@,
        r.imports@[2].use_code@ == "var _ = sonic.Marshal"@,
        is_proto(t) ==> {
            &&& !r.imports@[3].in_main && r.imports@[3].in_lib
            &&& r.imports@[3].import_path@ == "google.golang.org/protobuf/proto"@
            &&& r.imports@[3].use_code@ == "var _ = proto.Marshal"@
        },
        !is_proto(t) ==> {
            &&& !r.imports@[3].in_main && !r.imports@[3].in_lib
            &&& r.imports@[3].import_path@ == Seq::<char>::empty()
            &&& r.imports@[3].use_code@ == Seq::<char>::empty()
        },
        r.imports@[4].in_main && !r.imports@[4].in_lib,
        r.imports@[4].import_path@ == gomod_path@,
        r.imports@[4].use_code@ == "var _ "@ + gomod_name@ + ".ResultCode"@,
{
    let proto = t == IdlType::Proto || t == IdlType::ProtoNoCodec;
    let runtime = if proto {
        String::from_str("google.golang.org/protobuf@v1.26.0")
    } else {
        String::from_str("github.com/apache/thrift@v0.13.0")
    };
    let mod_requires = vec![
        String::from_str("github.com/andeya/gust@v1.5.2"),
        String::from_str("github.com/bytedance/sonic@latest"),
        runtime,
    ];
    assert(views(mod_requires@) =~= mod_requires_of(t));
    let codec_import = if proto {
        import_pkg(false, true, "google.golang.org/protobuf/proto", "var _ = proto.Marshal")
    } else {
        empty_import()
    };
    let mut self_use = String::from_str("var _ ");
    self_use.append(gomod_name);
    self_use.append(".ResultCode");
    let imports = vec![
        import_pkg(true, false, "github.com/andeya/gust", "var _ gust.EnumResult[any, any]"),
        import_pkg(false, true, "github.com/andeya/gust/valconv", "var _ valconv.ReadonlyBytes"),
        import_pkg(false, true, "github.com/bytedance/sonic", "var _ = sonic.Marshal"),
        codec_import,
        ImportPkg { in_main: true, in_lib: false, import_path: String::from_str(gomod_path), use_code: self_use },
    ];
    MidOutput { rust_clib_includes: rust_clib_includes(), mod_requires, imports }
}

/// Whether a package is imported where the Go file of `in_main` is written.
pub open spec fn imported_here(v: ImportPkg, in_main: bool) -> bool {
    if in_main {
        v.in_main
    } else {
        v.in_lib
    }
}

/// The import lines of a Go file: each path quoted, followed by a newline
/// and the indentation.
pub open spec fn import_lines(imports: Seq<ImportPkg>, in_main: bool) -> Seq<char> {
    seq_concat(
        imports.filter(|v: ImportPkg| imported_here(v, in_main)).map_values(
            |v: ImportPkg| "\""@ + v.import_path@ + "\"\n   "@,
        ),
    )
}

/// The lines that use the imported packages of a Go file, one per package.
pub open spec fn import_use_lines(imports: Seq<ImportPkg>, in_main: bool) -> Seq<char> {
    seq_concat(
        imports.filter(|v: ImportPkg| imported_here(v, in_main)).map_values(
            |v: ImportPkg| v.use_code@ + "\n"@,
        ),
    )
}

/// The import lines and the use lines of the Go file of the `main` package
/// (`in_main`) or of the library package.
pub fn go_imports(imports: &Vec<ImportPkg>, in_main: bool) -> (r: (String, String))
    ensures
        r.0@ == import_lines(imports@, in_main),
        r.1@ == import_use_lines(imports@, in_main),
{
    let ghost p = |v: ImportPkg| imported_here(v, in_main);
    let ghost f = |v: ImportPkg| "\""@ + v.import_path@ + "\"\n   "@;
    let ghost g = |v: ImportPkg| v.use_code@ + "\n"@;
    let mut lines = String::new();
    let mut uses = String::new();
    let n = imports.len();
    let mut i: usize = 0;
    while i < n
        invariant
            n == imports.len(),
            i <= n,
            p == (|v: ImportPkg| imported_here(v, in_main)),
            f == (|v: ImportPkg| "\""@ + v.import_path@ + "\"\n   "@),
            g == (|v: ImportPkg| v.use_code@ + "\n"@),
            lines@ == seq_concat(imports@.take(i as int).filter(p).map_values(f)),
            uses@ == seq_concat(imports@.take(i as int).filter(p).map_values(g)),
        decreases n - i,
    {
        let v = &imports[i];
        assert(imports@.take(i + 1).drop_last() =~= imports@.take(i as int));
        reveal(Seq::filter);
        let here = if in_main {
            v.in_main
        } else {
            v.in_lib
        };
        if here {
            let ghost kept = imports@.take(i as int).filter(p);
            assert(imports@.take(i + 1).filter(p) =~= kept.push(*v));
            assert(kept.push(*v).map_values(f).drop_last() =~= kept.map_values(f));
            assert(kept.push(*v).map_values(g).drop_last() =~= kept.map_values(g));
            lines.append("\"");
            lines.append(v.import_path.as_str());
            lines.append("\"\n   ");
            uses.append(v.use_code.as_str());
            uses.append("\n");
        }
        i = i + 1;
    }
    assert(imports@.take(n as int) =~= imports@);
    (lines, uses)
}

/// The relative path from the directory `base` to `path`, as the
/// `pathdiff` crate computes it from the components of the two paths,
/// without looking at the file system; none where it finds none.
pub uninterp spec fn path_diff(path: Seq<char>, base: Seq<char>) -> Option<Seq<char>>;

/// `pathdiff::diff_paths`: the relative path from `base` to `path`; none
/// where the crate finds none.
#[verifier::external_body]
fn diff_paths(path: &str, base: &str) -> (r: Option<String>)
    ensures
        match path_diff(path@, base@) {
            Some(t) => r matches Some(s) && s@ == t,
            None => r is None,
        },
{
    pathdiff::diff_paths(path, base).and_then(|p| p.to_str().map(|s| s.to_string()))
}

/// Where the Go files find the C libraries in `clib_gen_dir`: the path
/// relative to the crate directory `pkg_dir`, for the package file, and the
/// path relative to the `main` package directory `go_main_dir`; none where
/// either has no relative path.
pub fn clib_dirs_relative(clib_gen_dir: &str, pkg_dir: &str, go_main_dir: &str) -> (r: Option<(String, String)>)
    ensures
        match (path_diff(clib_gen_dir@, pkg_dir@), path_diff(clib_gen_dir@, go_main_dir@)) {
            (Some(a), Some(b)) => r matches Some(p) && p.0@ == a && p.1@ == b,
            _ => r is None,
        },
{
    let root = match diff_paths(clib_gen_dir, pkg_dir) {
        Some(t) => t,
        None => return None,
    };
    match diff_paths(clib_gen_dir, go_main_dir) {
        Some(cgobin) => Some((root, cgobin)),
        None => None,
    }
}

/// The Go package file: the cgo preamble that links the Rust C library,
/// the imports of the library package, and the package code.
pub fn gen_go_lib_code(
    go_mod_name: &str,
    clib_dir_relative_root: &str,
    rust_clib_name_base: &str,
    mid: &MidOutput,
    go_pkg_code: &str,
) -> (r: String)
    ensures
        r@ == spec_go_lib_file(
            go_mod_name@,
            clib_dir_relative_root@,
            rust_clib_name_base@,
            import_lines(mid.imports@, false),
            import_use_lines(mid.imports@, false),
            go_pkg_code@,
        ),
{
    let (lines, uses) = go_imports(&mid.imports, false);
    go_lib_file(
        go_mod_name,
        clib_dir_relative_root,
        rust_clib_name_base,
        lines.as_str(),
        uses.as_str(),
        go_pkg_code,
    )
}

/// The Go file of the `main` package: the cgo preamble that links the Rust
/// C library, the imports of the `main` package, and the package code.
pub fn gen_go_main_code(
    clib_dir_relative_cgobin: &str,
    rust_clib_name_base: &str,
    mid: &MidOutput,
    go_main_code: &str,
) -> (r: String)
    ensures
        r@ == spec_go_main_file(
            clib_dir_relative_cgobin@,
            rust_clib_name_base@,
            import_lines(mid.imports@, true),
            import_use_lines(mid.imports@, true),
            go_main_code@,
        ),
{
    let (lines, uses) = go_imports(&mid.imports, true);
    go_main_file(clib_dir_relative_cgobin, rust_clib_name_base, lines.as_str(), uses.as_str(), go_main_code)
}

/// The `require` lines of a fresh `go.mod`: each `path@version` written
/// `path version`, joined with a newline and the indentation.
pub open spec fn go_mod_require_lines(mod_requires: Seq<Seq<char>>) -> Seq<char> {
    seq_join(mod_requires.map_values(|r: Seq<char>| replace_char(r, '@', ' ')), "\n    "@)
}

/// A fresh `go.mod` for the module `gomod_path` with its requirements.
pub fn gen_go_mod_code(gomod_path: &str, mod_requires: &Vec<String>) -> (r: String)
    ensures
        r@ == spec_go_mod_file(gomod_path@, go_mod_require_lines(views(mod_requires@))),
{
    let ghost f = |r: Seq<char>| replace_char(r, '@', ' ');
    let mut parts: Vec<String> = Vec::new();
    let n = mod_requires.len();
    let mut i: usize = 0;
    while i < n
        invariant
            n == mod_requires.len(),
            i <= n,
            f == (|r: Seq<char>| replace_char(r, '@', ' ')),
            views(parts@) =~= views(mod_requires@).take(i as int).map_values(f),
        decreases n - i,
    {
        let t = replace_char_str(mod_requires[i].as_str(), '@', ' ');
        let ghost old_parts = parts@;
        parts.push(t);
        assert(views(parts@) =~= views(old_parts).push(t@));
        assert(views(mod_requires@).take(i + 1) =~= views(mod_requires@).take(i as int).push(
            mod_requires@[i as int]@,
        ));
        i = i + 1;
    }
    assert(views(mod_requires@).take(n as int) =~= views(mod_requires@));
    let lines = join(&parts, "\n    ");
    go_mod_file(gomod_path, lines.as_str())
}

/// Whether an existing `go.mod` already requires the module of
/// `path@version`: it holds the path followed by a space.
pub open spec fn already_required(mod_content: Seq<char>, mod_require: Seq<char>) -> bool {
    seq_contains(mod_content, before_first(mod_require, '@') + " "@)
}

/// The requirements that an existing `go.mod` lacks, in order; each is
/// fetched with `go get`.
pub fn missing_mod_requires(mod_content: &str, mod_requires: &Vec<String>) -> (r: Vec<String>)
    ensures
        views(r@) == views(mod_requires@).filter(|m: Seq<char>| !already_required(mod_content@, m)),
{
    let ghost p = |m: Seq<char>| !already_required(mod_content@, m);
    let ghost vs = views(mod_requires@);
    let mut out: Vec<String> = Vec::new();
    let n = mod_requires.len();
    let mut i: usize = 0;
    while i < n
        invariant
            n == mod_requires.len(),
            i <= n,
            vs == views(mod_requires@),
            p == (|m: Seq<char>| !already_required(mod_content@, m)),
            views(out@) =~= vs.take(i as int).filter(p),
        decreases n - i,
    {
        assert(vs.take(i + 1).drop_last() =~= vs.take(i as int));
        reveal(Seq::filter);
        let m = &mod_requires[i];
        let mut key = prefix_before(m.as_str(), '@');
        key.append(" ");
        if !contains(mod_content, key.as_str()) {
            let ghost old_out = out@;
            out.push(m.clone());
            assert(views(out@) =~= views(old_out).push(m@));
        }
        i = i + 1;
    }
    assert(vs.take(n as int) =~= vs);
    out
}

/// The C header that `go build` writes beside the Go C library: the library's
/// file name up to its last `.`, then `.h`; none for a name without `.`.
pub fn go_clib_built_header_name(go_clib_filename: &str) -> (r: Option<String>)
    ensures
        match before_last(go_clib_filename@, '.') {
            Some(stem) => r matches Some(h) && h@ == stem + ".h"@,
            None => r is None,
        },
{
    match prefix_before_last(go_clib_filename, '.') {
        Some(stem) => {
            let mut h = stem;
            h.append(".h");
            Some(h)
        },
        None => None,
    }
}

/// The generated Rust module after the services: empty `RustFfi` and `GoFfi`
/// traits where the IDL has no such service, then the `Ffi` trait and the
/// unit-like struct that implements the traits.
pub open spec fn rust_more_code_text(rust_code: Seq<char>, has_rustffi: bool, has_goffi: bool, rust_impl_name: Seq<char>) -> Seq<char> {
    rust_code + (if has_rustffi { Seq::empty() } else { "pub(super) trait RustFfi {}"@ }) + (
    if has_goffi {
        Seq::empty()
    } else {
        "pub(super) trait GoFfi {}"@ + "pub trait GoFfiCall {}"@
    }) + spec_ffi_trait_block(rust_impl_name)
}

/// The generated Rust module after the services.
pub fn rust_gen_more_code(rust_code: &str, has_rustffi: bool, has_goffi: bool, rust_impl_name: &str) -> (r: String)
    ensures
        r@ == rust_more_code_text(rust_code@, has_rustffi, has_goffi, rust_impl_name@),
{
    let mut r = String::from_str(rust_code);
    if !has_rustffi {
        r.append("pub(super) trait RustFfi {}");
    }
    if !has_goffi {
        r.append("pub(super) trait GoFfi {}");
        r.append("pub trait GoFfiCall {}");
    }
    let block = ffi_trait_block(rust_impl_name);
    r.append(block.as_str());
    r
}

} // verus!
