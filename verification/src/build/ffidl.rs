//! The IDL-driven generator: its configuration, the checks on the IDL file,
//! and the Rust and Go text that it writes around each service.
use vstd::prelude::*;
use crate::build::config::{
    IdlItem, IdlType, ProtoDesc, check_proto_descs, clean_idl, first_item_error, gomod_path_of,
    has_service, is_proto, new_gomod_path, new_pkg_name, pkg_name_of, proto_desc_error, uses_error,
};
use crate::build::generator::{
    RustGeneratorBackend, ServiceType, is_empty_ty, service_type, spec_is_empty_ty, spec_service_type,
};
use crate::build::backend::{GeneratorBackend, fixed_method};
use crate::build::ffidl_go::{GoCodegenBackend, ffidl_goffi_go_text, ffidl_rustffi_go_text};
use crate::build::ir::{Method, MethodView, Service, spec_is_scalar};
use crate::build::rust_gen::{
    RustArgForm, goffi_extern_decl_text, goffi_set_result_fn_text, has_buffer_ret, rust_args_text,
    rust_ffi_ret, rust_method_ret, rust_ty_name, rustffi_service_text,
};
use crate::build::ffidl_templates::{
    ffidl_go_main_file, ffidl_go_pkg_file, ffidl_rust_more_code, spec_ffidl_go_main_file,
    spec_ffidl_go_pkg_file, spec_ffidl_rust_more_code,
    ffidl_call_method, ffidl_call_trait, ffidl_extern_block, ffidl_impl_method_line,
    ffidl_service_impl, ffidl_service_trait, ffidl_set_result_impl_line,
    ffidl_set_result_trait_line, ffidl_trait_method_line, spec_ffidl_call_method,
    spec_ffidl_call_trait, spec_ffidl_extern_block, spec_ffidl_impl_method_line,
    spec_ffidl_service_impl, spec_ffidl_service_trait, spec_ffidl_set_result_impl_line,
    spec_ffidl_set_result_trait_line, spec_ffidl_trait_method_line,
};
use crate::text::{
    before_last, concat, join, lowercase, prefix_before_last, seq_concat, seq_join, to_lowercase,
    views,
};

verus! {

/// The configuration of a run of the IDL-driven generator. Paths are held as
/// text.
pub struct Config {
    pub idl_file: String,
    /// The target crate directory for code generation.
    pub target_crate_dir: Option<String>,
    /// The directory of the go command; found from `$GOROOT`, then `$PATH`, if none.
    pub go_root_path: Option<String>,
    pub go_mod_parent: String,
}

/// A unit-like struct path, e.g. `::mycrate::Abc`.
pub struct UnitLikeStructPath(pub String);

/// A Go object and the package that it comes from.
pub struct GoObjectPath {
    /// e.g. `github.com/xxx/mypkg`
    pub import: String,
    /// e.g. `mypkg.Abc`
    pub object_ident: String,
}

/// Which services the IDL file declares.
pub struct FfiSet {
    pub has_goffi: bool,
    pub has_rustffi: bool,
}

/// The IDL file name without its extension (the part before the last `.`,
/// or all of it).
pub open spec fn idl_stem(idl_file_name: Seq<char>) -> Seq<char> {
    match before_last(idl_file_name, '.') {
        Some(stem) => stem,
        None => idl_file_name,
    }
}

impl Config {
    /// The prefix of the generated names, from the IDL file named
    /// `idl_file_name`: its stem, with `.` and `-` as `_` and without
    /// leading or trailing `_`.
    pub fn pkg_name_prefix(idl_file_name: &str) -> (r: String)
        ensures
            r@ == pkg_name_of(idl_stem(idl_file_name@)),
    {
        match prefix_before_last(idl_file_name, '.') {
            Some(stem) => new_pkg_name(stem.as_str()),
            None => new_pkg_name(idl_file_name),
        }
    }

    /// The base of the generated file names: the prefix and `_gen`.
    pub fn file_name_base(idl_file_name: &str) -> (r: String)
        ensures
            r@ == pkg_name_of(idl_stem(idl_file_name@)) + "_gen"@,
    {
        let mut r = Self::pkg_name_prefix(idl_file_name);
        r.append("_gen");
        r
    }

    /// The Go module name for the crate directory named `pkg_dir_name`.
    pub fn go_mod_name(pkg_dir_name: &str) -> (r: String)
        ensures
            r@ == pkg_name_of(pkg_dir_name@),
    {
        new_pkg_name(pkg_dir_name)
    }

    /// The Go module path for the crate directory named `pkg_dir_name`.
    pub fn go_mod_path(&self, pkg_dir_name: &str) -> (r: String)
        ensures
            r@ == gomod_path_of(self.go_mod_parent@, pkg_name_of(pkg_dir_name@)),
    {
        let name = Self::go_mod_name(pkg_dir_name);
        new_gomod_path(self.go_mod_parent.as_str(), name.as_str())
    }

    /// The unit-like struct that implements the FFI traits.
    pub fn rust_mod_impl_name(&self) -> (r: &'static str)
        ensures
            r@ == "FfiImpl"@,
    {
        "FfiImpl"
    }

    /// Checks the items of the IDL file, as `clean_idl` does, and tells which
    /// services it declares.
    pub fn check_idl(t: IdlType, has_uses: bool, items: &Vec<IdlItem>) -> (r: Result<FfiSet, String>)
        ensures
            has_uses ==> (r matches Err(e) && e@ == uses_error(t)),
            !has_uses ==> match first_item_error(t, items@) {
                Some(e) => r matches Err(m) && m@ == e,
                None => r matches Ok(s) && s.has_goffi == has_service(items@, "goffi"@)
                    && s.has_rustffi == has_service(items@, "rustffi"@),
            },
    {
        match clean_idl(t, has_uses, items) {
            Ok((has_goffi, has_rustffi)) => Ok(FfiSet { has_goffi, has_rustffi }),
            Err(e) => Err(e),
        }
    }

    /// Checks the IDL file whose protobuf descriptors are `descs` (for a
    /// protobuf file) and whose items are `items`: first that no descriptor
    /// sets `package` or `option go_package`, then the items as `check_idl`
    /// does. The error is that of the first check that fails.
    pub fn check_idl_file(t: IdlType, descs: &Vec<ProtoDesc>, has_uses: bool, items: &Vec<IdlItem>) -> (r: Result<FfiSet, String>)
        ensures
            is_proto(t) && proto_desc_error(descs@) is Some ==> (r matches Err(e) && e@ == proto_desc_error(descs@)->0),
            !(is_proto(t) && proto_desc_error(descs@) is Some) ==> {
                &&& has_uses ==> (r matches Err(e) && e@ == uses_error(t))
                &&& !has_uses ==> match first_item_error(t, items@) {
                    Some(e) => r matches Err(m) && m@ == e,
                    None => r matches Ok(s) && s.has_goffi == has_service(items@, "goffi"@)
                        && s.has_rustffi == has_service(items@, "rustffi"@),
                }
            },
    {
        let proto = match t {
            IdlType::Proto | IdlType::ProtoNoCodec => true,
            _ => false,
        };
        if proto {
            match check_proto_descs(descs) {
                Ok(()) => {},
                Err(e) => return Err(e),
            }
        }
        Self::check_idl(t, has_uses, items)
    }
}

/// The names of the C libraries of a run.
pub struct CLibConfig {
    pub rust_c_header_name_base: String,
    pub go_c_header_name_base: String,
}

impl CLibConfig {
    /// The names for the Cargo package `cargo_pkg_name`: its name with `-` as
    /// `_`, and that with `go_` before it.
    pub fn new(cargo_pkg_name: &str) -> (r: CLibConfig)
        ensures
            r.rust_c_header_name_base@ == crate::text::replace_char(cargo_pkg_name@, '-', '_'),
            r.go_c_header_name_base@ == "go_"@ + crate::text::replace_char(cargo_pkg_name@, '-', '_'),
    {
        let base = crate::text::replace_char_str(cargo_pkg_name, '-', '_');
        let mut go = String::from_str("go_");
        go.append(base.as_str());
        CLibConfig { rust_c_header_name_base: base, go_c_header_name_base: go }
    }

    /// The lines that tell Cargo to link the Go C library.
    pub fn rustc_link_lines(&self, clib_dir: &str) -> (r: Vec<String>)
        ensures
            views(r@) == seq![
                "cargo:rustc-link-search="@ + clib_dir@,
                "cargo:rustc-link-lib="@ + self.go_c_header_name_base@,
            ],
    {
        let mut a = String::from_str("cargo:rustc-link-search=");
        a.append(clib_dir);
        let mut b = String::from_str("cargo:rustc-link-lib=");
        b.append(self.go_c_header_name_base.as_str());
        let r = vec![a, b];
        assert(views(r@) =~= seq![a@, b@]);
        r
    }
}

/// The Rust side of the IDL-driven generator.
pub struct RustCodegenBackend {
    pub base: RustGeneratorBackend,
}

/// The trait declaration and the `todo!()` implementation of one method.
pub open spec fn ffidl_method_lines(st: ServiceType, m: MethodView) -> (Seq<char>, Seq<char>) {
    let args = rust_args_text(RustArgForm::MethodArg, st, m.args);
    let ret = rust_method_ret(st, m.ret);
    (spec_ffidl_trait_method_line(m.fn_ident, args, ret), spec_ffidl_impl_method_line(m.fn_ident, args, ret))
}

/// What a `RustFfi` service adds to the Rust module: the trait, then the
/// `extern "C"` functions.
pub open spec fn ffidl_rustffi_stream_text(st: ServiceType, name: Seq<char>, ust: Seq<char>, methods: Seq<MethodView>) -> Seq<char> {
    spec_ffidl_service_trait(name, seq_concat(methods.map_values(|m: MethodView| ffidl_method_lines(st, m).0)))
        + rustffi_service_text(st, name, ust, methods)
}

/// What a `RustFfi` service adds to the implementation stub.
pub open spec fn ffidl_rustffi_impl_text(st: ServiceType, name: Seq<char>, ust: Seq<char>, methods: Seq<MethodView>) -> Seq<char> {
    spec_ffidl_service_impl(name, ust, seq_concat(methods.map_values(|m: MethodView| ffidl_method_lines(st, m).1)))
}

/// The `GoFfiCall` method of one `GoFfi` method.
pub open spec fn ffidl_call_method_text(st: ServiceType, name: Seq<char>, m: MethodView) -> Seq<char> {
    spec_ffidl_call_method(
        m.fn_ident,
        if spec_is_empty_ty(m.ret) { Seq::empty() } else { "<T: Default>"@ },
        rust_args_text(RustArgForm::MethodArg, st, m.args),
        rust_method_ret(st, m.ret),
        lowercase(name),
        rust_args_text(RustArgForm::FfiIdent, st, m.args),
    )
}

/// Whether a `GoFfi` method hands a message back through `_set_result`.
pub open spec fn has_message_ret(m: MethodView) -> bool {
    !spec_is_empty_ty(m.ret) && !spec_is_scalar(m.ret)
}

/// The `_set_result` declaration and `todo!()` implementation of one method.
pub open spec fn ffidl_set_result_lines(st: ServiceType, m: MethodView) -> (Seq<char>, Seq<char>) {
    let ffi_ret = rust_ffi_ret(st, m.ret);
    let ty = rust_ty_name(m.ret);
    (spec_ffidl_set_result_trait_line(m.fn_ident, ty, ffi_ret), spec_ffidl_set_result_impl_line(m.fn_ident, ty, ffi_ret))
}

/// What a `GoFfi` service adds to the Rust module: the `GoFfiCall` trait,
/// the service trait of `_set_result` methods, the block that declares the
/// Go-exported functions, and the `_set_result` functions.
pub open spec fn ffidl_goffi_stream_text(st: ServiceType, name: Seq<char>, ust: Seq<char>, methods: Seq<MethodView>) -> Seq<char> {
    let kept = methods.filter(|m: MethodView| has_message_ret(m));
    spec_ffidl_call_trait(name, seq_join(methods.map_values(|m: MethodView| ffidl_call_method_text(st, name, m)), "\n"@))
        + spec_ffidl_service_trait(name, seq_concat(kept.map_values(|m: MethodView| ffidl_set_result_lines(st, m).0)))
        + spec_ffidl_extern_block(seq_join(methods.map_values(|m: MethodView| goffi_extern_decl_text(st, name, m)), "\n"@))
        + seq_join(
        methods.filter(|m: MethodView| has_buffer_ret(m)).map_values(
            |m: MethodView| goffi_set_result_fn_text(st, name, ust, m),
        ),
        "\n"@,
    )
}

/// What a `GoFfi` service adds to the implementation stub.
pub open spec fn ffidl_goffi_impl_text(st: ServiceType, name: Seq<char>, ust: Seq<char>, methods: Seq<MethodView>) -> Seq<char> {
    let kept = methods.filter(|m: MethodView| has_message_ret(m));
    spec_ffidl_service_impl(name, ust, seq_concat(kept.map_values(|m: MethodView| ffidl_set_result_lines(st, m).1)))
}

impl RustCodegenBackend {
    /// Appends the Rust code of the `RustFfi` service `s` to `stream`, and its
    /// `todo!()` implementation to `impl_code`.
    pub fn codegen_rustffi_service_impl(&self, st: ServiceType, stream: &mut String, impl_code: &mut String, s: &Service)
        ensures
            final(stream)@ == old(stream)@ + ffidl_rustffi_stream_text(
                st,
                s@.rust_name,
                self.base.config.rust_mod_impl_name@,
                s@.methods,
            ),
            final(impl_code)@ == old(impl_code)@ + ffidl_rustffi_impl_text(
                st,
                s@.rust_name,
                self.base.config.rust_mod_impl_name@,
                s@.methods,
            ),
    {
        let ghost f0 = |m: MethodView| ffidl_method_lines(st, m).0;
        let ghost f1 = |m: MethodView| ffidl_method_lines(st, m).1;
        let mut trait_methods = String::new();
        let mut impl_trait_methods = String::new();
        let n = s.methods.len();
        let mut i: usize = 0;
        while i < n
            invariant
                n == s.methods.len(),
                i <= n,
                f0 == (|m: MethodView| ffidl_method_lines(st, m).0),
                f1 == (|m: MethodView| ffidl_method_lines(st, m).1),
                trait_methods@ == seq_concat(s@.methods.take(i as int).map_values(f0)),
                impl_trait_methods@ == seq_concat(s@.methods.take(i as int).map_values(f1)),
            decreases n - i,
        {
            let method = &s.methods[i];
            let args = self.base.codegen_method_args(st, method);
            let ret = self.base.codegen_method_ret(st, method);
            let a = ffidl_trait_method_line(method.fn_ident.as_str(), args.as_str(), ret.as_str());
            let b = ffidl_impl_method_line(method.fn_ident.as_str(), args.as_str(), ret.as_str());
            assert(s@.methods.take(i + 1) =~= s@.methods.take(i as int).push(method@));
            assert(s@.methods.take(i + 1).map_values(f0).drop_last() =~= s@.methods.take(i as int).map_values(f0));
            assert(s@.methods.take(i + 1).map_values(f1).drop_last() =~= s@.methods.take(i as int).map_values(f1));
            trait_methods.append(a.as_str());
            impl_trait_methods.append(b.as_str());
            i = i + 1;
        }
        assert(s@.methods.take(n as int) =~= s@.methods);
        let name = s.rust_name.as_str();
        let ust = self.base.config.rust_mod_impl_name.as_str();
        let t = ffidl_service_trait(name, trait_methods.as_str());
        stream.append(t.as_str());
        let im = ffidl_service_impl(name, ust, impl_trait_methods.as_str());
        impl_code.append(im.as_str());
        self.base.codegen_rustffi_service_impl(st, stream, s);
    }

    /// The `GoFfiCall` methods of the `GoFfi` service `s`, joined with newlines.
    fn call_methods(&self, st: ServiceType, s: &Service) -> (r: String)
        ensures
            r@ == seq_join(
                s@.methods.map_values(|m: MethodView| ffidl_call_method_text(st, s@.rust_name, m)),
                "\n"@,
            ),
    {
        let ghost f = |m: MethodView| ffidl_call_method_text(st, s@.rust_name, m);
        let name_lower = to_lowercase(s.rust_name.as_str());
        let mut parts: Vec<String> = Vec::new();
        let n = s.methods.len();
        let mut i: usize = 0;
        while i < n
            invariant
                n == s.methods.len(),
                i <= n,
                name_lower@ == lowercase(s@.rust_name),
                f == (|m: MethodView| ffidl_call_method_text(st, s@.rust_name, m)),
                views(parts@) =~= s@.methods.take(i as int).map_values(f),
            decreases n - i,
        {
            let method = &s.methods[i];
            let args = self.base.codegen_method_args(st, method);
            let ret = self.base.codegen_method_ret(st, method);
            let generic_signature = if is_empty_ty(&method.ret.kind) {
                String::new()
            } else {
                String::from_str("<T: Default>")
            };
            let args_ident = self.base.codegen_ffi_args_ident(st, method);
            let t = ffidl_call_method(
                method.fn_ident.as_str(),
                generic_signature.as_str(),
                args.as_str(),
                ret.as_str(),
                name_lower.as_str(),
                args_ident.as_str(),
            );
            let ghost old_parts = parts@;
            parts.push(t);
            assert(views(parts@) =~= views(old_parts).push(t@));
            assert(s@.methods.take(i + 1) =~= s@.methods.take(i as int).push(s@.methods[i as int]));
            i = i + 1;
        }
        assert(s@.methods.take(n as int) =~= s@.methods);
        join(&parts, "\n")
    }

    /// Appends the Rust code of the `GoFfi` service `s` to `stream`, and the
    /// `todo!()` implementation of its `_set_result` methods to `impl_code`.
    pub fn codegen_goffi_service_impl(&self, st: ServiceType, stream: &mut String, impl_code: &mut String, s: &Service)
        ensures
            final(stream)@ == old(stream)@ + ffidl_goffi_stream_text(
                st,
                s@.rust_name,
                self.base.config.rust_mod_impl_name@,
                s@.methods,
            ),
            final(impl_code)@ == old(impl_code)@ + ffidl_goffi_impl_text(
                st,
                s@.rust_name,
                self.base.config.rust_mod_impl_name@,
                s@.methods,
            ),
    {
        let name = s.rust_name.as_str();
        let ust = self.base.config.rust_mod_impl_name.as_str();
        let methods = self.call_methods(st, s);
        let call_trait = ffidl_call_trait(name, methods.as_str());
        stream.append(call_trait.as_str());
        let ghost p = |m: MethodView| has_message_ret(m);
        let ghost f0 = |m: MethodView| ffidl_set_result_lines(st, m).0;
        let ghost f1 = |m: MethodView| ffidl_set_result_lines(st, m).1;
        let mut trait_methods = String::new();
        let mut impl_trait_methods = String::new();
        let n = s.methods.len();
        let mut i: usize = 0;
        while i < n
            invariant
                n == s.methods.len(),
                i <= n,
                p == (|m: MethodView| has_message_ret(m)),
                f0 == (|m: MethodView| ffidl_set_result_lines(st, m).0),
                f1 == (|m: MethodView| ffidl_set_result_lines(st, m).1),
                trait_methods@ == seq_concat(s@.methods.take(i as int).filter(p).map_values(f0)),
                impl_trait_methods@ == seq_concat(s@.methods.take(i as int).filter(p).map_values(f1)),
            decreases n - i,
        {
            let method = &s.methods[i];
            assert(s@.methods.take(i + 1).drop_last() =~= s@.methods.take(i as int));
            assert(s@.methods.take(i + 1).last() == method@);
            reveal(Seq::filter);
            if !is_empty_ty(&method.ret.kind) && !method.ret.is_scalar() {
                let ghost kept = s@.methods.take(i as int).filter(p);
                assert(s@.methods.take(i + 1).filter(p) =~= kept.push(method@));
                assert(kept.push(method@).map_values(f0).drop_last() =~= kept.map_values(f0));
                assert(kept.push(method@).map_values(f1).drop_last() =~= kept.map_values(f1));
                let ffi_ret = self.base.codegen_ffi_ret(st, method);
                let ret_ty_name = self.base.rust_codegen_item_ty(&method.ret.kind);
                let a = ffidl_set_result_trait_line(method.fn_ident.as_str(), ret_ty_name.as_str(), ffi_ret.as_str());
                let b = ffidl_set_result_impl_line(method.fn_ident.as_str(), ret_ty_name.as_str(), ffi_ret.as_str());
                trait_methods.append(a.as_str());
                impl_trait_methods.append(b.as_str());
            }
            i = i + 1;
        }
        assert(s@.methods.take(n as int) =~= s@.methods);
        let t = ffidl_service_trait(name, trait_methods.as_str());
        stream.append(t.as_str());
        let im = ffidl_service_impl(name, ust, impl_trait_methods.as_str());
        impl_code.append(im.as_str());
        let ffi_fns = self.base.goffi_extern_decls(st, s);
        let block = ffidl_extern_block(ffi_fns.as_str());
        stream.append(block.as_str());
        let store = self.base.goffi_set_result_fns(st, s);
        stream.append(store.as_str());
    }
}

/// A run of the IDL-driven generator, once the IDL file is checked.
pub struct FFIDL {
    pub config: Config,
    pub clib: CLibConfig,
    pub has_goffi: bool,
    pub has_rustffi: bool,
    /// The fingerprint of the crate's source files.
    pub crate_modified: String,
}

impl FFIDL {
    /// The generated Rust module after the services: empty `RustFfi` and
    /// `GoFfi` traits where the IDL has no such service, then the `Ffi` trait
    /// and the unit-like struct that implements it.
    pub fn gen_rust_more_code(&self, rust_code: &str) -> (r: String)
        ensures
            r@ == rust_code@ + (if self.has_rustffi { Seq::empty() } else { "pub trait RustFfi {}"@ })
                + (if self.has_goffi { Seq::empty() } else { "pub trait GoFfi {}"@ })
                + spec_ffidl_rust_more_code("FfiImpl"@),
    {
        let mut r = String::from_str(rust_code);
        if !self.has_rustffi {
            r.append("pub trait RustFfi {}");
        }
        if !self.has_goffi {
            r.append("pub trait GoFfi {}");
        }
        let block = ffidl_rust_more_code(self.config.rust_mod_impl_name());
        r.append(block.as_str());
        r
    }

    /// The shell command that generates the Go code of the messages:
    /// `protoc` with the copied IDL file, mapped to the Go package.
    pub fn protoc_command(temp_dir: &str, pkg_dir: &str, go_mod_name: &str, temp_idl: &str) -> (r: String)
        ensures
            r@ == "protoc --proto_path="@ + temp_dir@ + " --go_opt=M"@ + pkg_dir@ + ";"@ + go_mod_name@
                + " --go_out "@ + pkg_dir@ + " "@ + temp_idl@,
    {
        let mut r = String::from_str("protoc --proto_path=");
        r.append(temp_dir);
        r.append(" --go_opt=M");
        r.append(pkg_dir);
        r.append(";");
        r.append(go_mod_name);
        r.append(" --go_out ");
        r.append(pkg_dir);
        r.append(" ");
        r.append(temp_idl);
        r
    }

    /// The Go `main` package file, which links the Rust C library in
    /// `rust_c_lib_dir` and imports the Go module `go_mod_path` (named
    /// `go_mod_name`).
    pub fn go_main_code(&self, rust_c_lib_dir: &str, go_mod_path: &str, go_mod_name: &str) -> (r: String)
        ensures
            r@ == spec_ffidl_go_main_file(
                rust_c_lib_dir@,
                self.clib.rust_c_header_name_base@,
                go_mod_path@,
                "_ "@ + go_mod_name@ + ".ResultCode"@,
            ),
    {
        let mut var = String::from_str("_ ");
        var.append(go_mod_name);
        var.append(".ResultCode");
        ffidl_go_main_file(rust_c_lib_dir, self.clib.rust_c_header_name_base.as_str(), go_mod_path, var.as_str())
    }

    /// The Go package file, which links the Rust C library in `rust_c_lib_dir`.
    pub fn go_pkg_code(&self, go_mod_name: &str, rust_c_lib_dir: &str) -> (r: String)
        ensures
            r@ == spec_ffidl_go_pkg_file(go_mod_name@, rust_c_lib_dir@, self.clib.rust_c_header_name_base@),
    {
        ffidl_go_pkg_file(go_mod_name, rust_c_lib_dir, self.clib.rust_c_header_name_base.as_str())
    }

    /// The file name of the Go C library: `lib<go base>.a`.
    pub fn go_clib_name(&self) -> (r: String)
        ensures
            r@ == "lib"@ + self.clib.go_c_header_name_base@ + ".a"@,
    {
        let mut r = String::from_str("lib");
        r.append(self.clib.go_c_header_name_base.as_str());
        r.append(".a");
        r
    }

    /// The shell command that builds the Go C library.
    pub fn go_build_command(go_cmd: &str, clib_path: &str, go_main_dir: &str) -> (r: String)
        ensures
            r@ == go_cmd@ + " build -buildmode=c-archive -o "@ + clib_path@ + " "@ + go_main_dir@,
    {
        let mut r = String::from_str(go_cmd);
        r.append(" build -buildmode=c-archive -o ");
        r.append(clib_path);
        r.append(" ");
        r.append(go_main_dir);
        r
    }

    /// Whether the build should run again: the Go C library is missing, or
    /// the recorded fingerprint differs from the crate's.
    pub fn should_re_execute(&self, clib_exists: bool, recorded: &str) -> (r: bool)
        ensures
            r == (!clib_exists || recorded@ != self.crate_modified@),
    {
        let changed = !crate::text::str_eq(recorded, self.crate_modified.as_str());
        !clib_exists || changed
    }
}

/// What the IDL-driven generator adds for a service: to the Rust module, to
/// the two implementation stubs, and to the two Go packages.
pub struct FfidlServiceOutput {
    pub rust_code: String,
    pub rust_impl_rustffi_code: String,
    pub rust_impl_goffi_code: String,
    pub go_pkg_code: String,
    pub go_main_code: String,
}

/// The backend of the IDL-driven generator.
pub struct FFIDLBackend {
    pub generator: GeneratorBackend,
    pub rust: RustCodegenBackend,
    pub go: GoCodegenBackend,
}

impl FFIDLBackend {
    /// The code that the service `s` adds, after the code of its codec; each
    /// method is first fixed by `fix_empty_params`. A service whose name is
    /// neither `RustFFI` nor `GoFFI` (in any case) gives `None`.
    pub fn codegen_service_impl(&self, s: &Service) -> (r: Option<FfidlServiceOutput>)
        ensures
            spec_service_type(s@.rust_name) is None ==> r is None,
            spec_service_type(s@.rust_name) matches Some(st) ==> r matches Some(o) && {
                let methods = s@.methods.map_values(|m: MethodView| fixed_method(m));
                let name = s@.rust_name;
                let ust = self.rust.base.config.rust_mod_impl_name@;
                let g = self.go.gomod_name@;
                match st {
                    ServiceType::RustFfi => {
                        &&& o.rust_code@ == ffidl_rustffi_stream_text(st, name, ust, methods)
                        &&& o.rust_impl_rustffi_code@ == ffidl_rustffi_impl_text(st, name, ust, methods)
                        &&& o.rust_impl_goffi_code@ == Seq::<char>::empty()
                        &&& o.go_pkg_code@ == ffidl_rustffi_go_text(g, name, methods)
                        &&& o.go_main_code@ == Seq::<char>::empty()
                    },
                    ServiceType::GoFfi => {
                        &&& o.rust_code@ == ffidl_goffi_stream_text(st, name, ust, methods)
                        &&& o.rust_impl_rustffi_code@ == Seq::<char>::empty()
                        &&& o.rust_impl_goffi_code@ == ffidl_goffi_impl_text(st, name, ust, methods)
                        &&& o.go_pkg_code@ == Seq::<char>::empty()
                        &&& o.go_main_code@ == ffidl_goffi_go_text(g, name, methods)
                    },
                }
            },
    {
        let st = match service_type(s.rust_name.as_str()) {
            Some(st) => st,
            None => return None,
        };
        let fs = self.generator.fix_service(s);
        let mut rust_code = String::new();
        let mut rust_impl_rustffi_code = String::new();
        let mut rust_impl_goffi_code = String::new();
        match st {
            ServiceType::RustFfi => {
                self.rust.codegen_rustffi_service_impl(st, &mut rust_code, &mut rust_impl_rustffi_code, &fs);
            },
            ServiceType::GoFfi => {
                self.rust.codegen_goffi_service_impl(st, &mut rust_code, &mut rust_impl_goffi_code, &fs);
            },
        }
        let (go_pkg_code, go_main_code) = self.go.codegen(st, &fs);
        Some(FfidlServiceOutput {
            rust_code,
            rust_impl_rustffi_code,
            rust_impl_goffi_code,
            go_pkg_code,
            go_main_code,
        })
    }

    /// A service method adds no code of its own beyond its codec's.
    pub fn codegen_service_method(&self, method: &Method) -> (r: String)
        ensures
            r@ == Seq::<char>::empty(),
    {
        let _fixed = self.generator.fix_empty_params(method);
        String::new()
    }
}

} // verus!
