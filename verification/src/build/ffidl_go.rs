//! The Go side of the IDL-driven generator.
use vstd::prelude::*;
use crate::build::ir::{Arg, Method, MethodView, Service, TyKind, spec_is_scalar};
use crate::build::generator::{ServiceType, is_empty_ty, spec_is_empty_ty};
use crate::build::go_gen::ffi_func_name_text;
use crate::build::templates::{rustffi_go_iface_method, spec_rustffi_go_iface_method};
use crate::build::ffidl_go_templates::{
    ffidl_go_export, ffidl_go_export_empty, ffidl_go_goffi_block, ffidl_go_goffi_support, ffidl_go_iface,
    ffidl_go_iface_empty, ffidl_go_impl_method, ffidl_go_runtime, ffidl_go_rustffi_block, ffidl_go_unimpl,
    ffidl_go_unimpl_empty, spec_ffidl_go_export, spec_ffidl_go_export_empty, spec_ffidl_go_goffi_block,
    spec_ffidl_go_goffi_support, spec_ffidl_go_iface, spec_ffidl_go_iface_empty, spec_ffidl_go_impl_method,
    spec_ffidl_go_runtime, spec_ffidl_go_rustffi_block, spec_ffidl_go_unimpl, spec_ffidl_go_unimpl_empty,
};
use crate::text::{join, lowercase, seq_concat, seq_join, to_lowercase, views};

verus! {

/// The Go spelling of an IDL type in this generator: a message is named by
/// its Rust name, qualified by the Go package name in the `main` package.
pub open spec fn ffidl_go_ty_name(k: TyKind, is_main: bool, gomod_name: Seq<char>) -> Seq<char>
    decreases k,
{
    match k {
        TyKind::String => "string"@,
        TyKind::Void => "struct{}"@,
        TyKind::U8 => "uint8"@,
        TyKind::Bool => "bool"@,
        TyKind::Bytes => "[]byte"@,
        TyKind::I8 => "int8"@,
        TyKind::I16 => "int16"@,
        TyKind::I32 => "int32"@,
        TyKind::I64 => "int64"@,
        TyKind::F64 => "float64"@,
        TyKind::Vec(e) => "[]"@ + ffidl_go_ty_name(e.kind, is_main, gomod_name),
        TyKind::SetOf(e) => "[]"@ + ffidl_go_ty_name(e.kind, is_main, gomod_name),
        TyKind::MapOf(k, v) => "map["@ + ffidl_go_ty_name(k.kind, is_main, gomod_name) + "]"@
            + ffidl_go_ty_name(v.kind, is_main, gomod_name),
        TyKind::Path(p) => if is_main {
            gomod_name + "."@ + p.rust_name@
        } else {
            p.rust_name@
        },
        TyKind::UInt32 => "uint32"@,
        TyKind::UInt64 => "uint64"@,
        TyKind::F32 => "float32"@,
        TyKind::Arc(e) => "*"@ + ffidl_go_ty_name(e.kind, is_main, gomod_name),
    }
}

/// How an argument is rendered in the Go code of this generator.
#[derive(Clone, Copy)]
pub enum FfidlGoArgForm {
    RustFfiSign,
    RustFfiAssign,
    GoFfiSign,
    GoFfiAssign,
    GoFfiExportSign,
}

/// The Go rendering of one argument.
pub open spec fn ffidl_go_arg_text(form: FfidlGoArgForm, gomod_name: Seq<char>, a: Arg) -> Seq<char> {
    let name = lowercase(a.name@);
    let lib_ty = ffidl_go_ty_name(a.ty.kind, false, gomod_name);
    let main_ty = ffidl_go_ty_name(a.ty.kind, true, gomod_name);
    let scalar = spec_is_scalar(a.ty.kind);
    let is_bool = a.ty.kind is Bool;
    match form {
        FfidlGoArgForm::RustFfiSign => if scalar {
            name + " "@ + lib_ty
        } else {
            name + " TBytes[*"@ + lib_ty + "]"@
        },
        FfidlGoArgForm::RustFfiAssign => if scalar {
            if is_bool {
                "C._Bool("@ + name + ")"@
            } else {
                name
            }
        } else {
            name + ".asBuffer()"@
        },
        FfidlGoArgForm::GoFfiSign => if scalar {
            name + " "@ + main_ty
        } else {
            name + " "@ + gomod_name + ".TBytes[*"@ + main_ty + "]"@
        },
        FfidlGoArgForm::GoFfiAssign => if scalar {
            if is_bool {
                "bool("@ + name + ")"@
            } else {
                name
            }
        } else {
            "asBytes[*"@ + main_ty + "]("@ + name + ")"@
        },
        FfidlGoArgForm::GoFfiExportSign => if scalar {
            name + " "@ + main_ty
        } else {
            name + " C.struct_Buffer"@
        },
    }
}

/// The Go rendering of an argument list, joined with `","`.
pub open spec fn ffidl_go_args_text(form: FfidlGoArgForm, gomod_name: Seq<char>, args: Seq<Arg>) -> Seq<char> {
    seq_join(args.map_values(|a: Arg| ffidl_go_arg_text(form, gomod_name, a)), ","@)
}

/// The interface method and the implementation of a `RustFfi` method.
pub open spec fn ffidl_rustffi_parts(g: Seq<char>, service_name: Seq<char>, m: MethodView) -> (Seq<char>, Seq<char>) {
    let sign = ffidl_go_args_text(FfidlGoArgForm::RustFfiSign, g, m.args);
    let ret = ffidl_go_ty_name(m.ret, false, g);
    (
        spec_rustffi_go_iface_method(m.upper_camel_ident, sign, ret) + "\n"@,
        spec_ffidl_go_impl_method(
            m.upper_camel_ident,
            sign,
            ret,
            "C."@ + ffi_func_name_text(service_name, m),
            ffidl_go_args_text(FfidlGoArgForm::RustFfiAssign, g, m.args),
        ),
    )
}

/// The Go package code of a `RustFfi` service.
pub open spec fn ffidl_rustffi_go_text(g: Seq<char>, service_name: Seq<char>, methods: Seq<MethodView>) -> Seq<char> {
    spec_ffidl_go_rustffi_block(
        spec_ffidl_go_runtime(),
        seq_concat(methods.map_values(|m: MethodView| ffidl_rustffi_parts(g, service_name, m).0)),
        seq_concat(methods.map_values(|m: MethodView| ffidl_rustffi_parts(g, service_name, m).1)),
    )
}

/// The interface method, the unimplemented stub and the exported function of
/// a `GoFfi` method.
pub open spec fn ffidl_goffi_parts(g: Seq<char>, service_name: Seq<char>, m: MethodView) -> (Seq<char>, Seq<char>, Seq<char>) {
    let sign = ffidl_go_args_text(FfidlGoArgForm::GoFfiSign, g, m.args);
    let ret = ffidl_go_ty_name(m.ret, true, g);
    let name = ffi_func_name_text(service_name, m);
    let export_sign = ffidl_go_args_text(FfidlGoArgForm::GoFfiExportSign, g, m.args);
    let assign = ffidl_go_args_text(FfidlGoArgForm::GoFfiAssign, g, m.args);
    if spec_is_empty_ty(m.ret) {
        (
            spec_ffidl_go_iface_empty(m.upper_camel_ident, sign),
            spec_ffidl_go_unimpl_empty(m.upper_camel_ident, sign),
            spec_ffidl_go_export_empty(name, export_sign, m.upper_camel_ident, assign, g),
        )
    } else {
        (
            spec_ffidl_go_iface(m.upper_camel_ident, sign, g, ret),
            spec_ffidl_go_unimpl(m.upper_camel_ident, sign, g, ret),
            spec_ffidl_go_export(name, export_sign, m.upper_camel_ident, assign, g),
        )
    }
}

/// The Go `main` package code of a `GoFfi` service.
pub open spec fn ffidl_goffi_go_text(g: Seq<char>, service_name: Seq<char>, methods: Seq<MethodView>) -> Seq<char> {
    spec_ffidl_go_goffi_block(
        spec_ffidl_go_goffi_support(g),
        seq_concat(methods.map_values(|m: MethodView| ffidl_goffi_parts(g, service_name, m).0)),
        seq_concat(methods.map_values(|m: MethodView| ffidl_goffi_parts(g, service_name, m).1)),
        seq_concat(methods.map_values(|m: MethodView| ffidl_goffi_parts(g, service_name, m).2)),
    )
}

/// The Go side of the IDL-driven generator, for the Go package `gomod_name`.
pub struct GoCodegenBackend {
    pub gomod_name: String,
}

impl GoCodegenBackend {
    /// The Go spelling of an IDL type.
    pub fn codegen_item_ty(&self, ty: &TyKind, is_main: bool) -> (r: String)
        ensures
            r@ == ffidl_go_ty_name(*ty, is_main, self.gomod_name@),
        decreases ty,
    {
        match ty {
            TyKind::String => String::from_str("string"),
            TyKind::Void => String::from_str("struct{}"),
            TyKind::U8 => String::from_str("uint8"),
            TyKind::Bool => String::from_str("bool"),
            TyKind::Bytes => String::from_str("[]byte"),
            TyKind::I8 => String::from_str("int8"),
            TyKind::I16 => String::from_str("int16"),
            TyKind::I32 => String::from_str("int32"),
            TyKind::I64 => String::from_str("int64"),
            TyKind::F64 => String::from_str("float64"),
            TyKind::Vec(e) => {
                let mut s = String::from_str("[]");
                let inner = self.codegen_item_ty(&e.kind, is_main);
                s.append(inner.as_str());
                s
            },
            TyKind::SetOf(e) => {
                let mut s = String::from_str("[]");
                let inner = self.codegen_item_ty(&e.kind, is_main);
                s.append(inner.as_str());
                s
            },
            TyKind::MapOf(k, v) => {
                let mut s = String::from_str("map[");
                let key = self.codegen_item_ty(&k.kind, is_main);
                let value = self.codegen_item_ty(&v.kind, is_main);
                s.append(key.as_str());
                s.append("]");
                s.append(value.as_str());
                s
            },
            TyKind::Path(p) => {
                let mut pkg_pre = String::new();
                if is_main {
                    pkg_pre = self.gomod_name.clone();
                    pkg_pre.append(".");
                }
                pkg_pre.append(p.rust_name.as_str());
                pkg_pre
            },
            TyKind::UInt32 => String::from_str("uint32"),
            TyKind::UInt64 => String::from_str("uint64"),
            TyKind::F32 => String::from_str("float32"),
            TyKind::Arc(e) => {
                let mut s = String::from_str("*");
                let inner = self.codegen_item_ty(&e.kind, is_main);
                s.append(inner.as_str());
                s
            },
        }
    }

    /// The name of the C function of `method`, with the `C.` prefix of cgo
    /// where `with_prefix`.
    pub fn ffi_func_name(&self, service_name: &str, method: &Method, with_prefix: bool) -> (r: String)
        ensures
            r@ == (if with_prefix { "C."@ } else { Seq::empty() }) + ffi_func_name_text(service_name@, method@),
    {
        let mut r = if with_prefix {
            String::from_str("C.")
        } else {
            String::new()
        };
        let lower = to_lowercase(service_name);
        r.append(lower.as_str());
        r.append("_");
        r.append(method.fn_ident.as_str());
        r
    }

    /// The Go rendering of one argument.
    fn render_arg(&self, form: FfidlGoArgForm, a: &Arg) -> (r: String)
        ensures
            r@ == ffidl_go_arg_text(form, self.gomod_name@, *a),
    {
        let name = to_lowercase(a.name.as_str());
        let scalar = a.ty.is_scalar();
        let is_bool = match a.ty.kind {
            TyKind::Bool => true,
            _ => false,
        };
        match form {
            FfidlGoArgForm::RustFfiSign => {
                let ty = self.codegen_item_ty(&a.ty.kind, false);
                let mut r = name;
                if scalar {
                    r.append(" ");
                    r.append(ty.as_str());
                } else {
                    r.append(" TBytes[*");
                    r.append(ty.as_str());
                    r.append("]");
                }
                r
            },
            FfidlGoArgForm::RustFfiAssign => {
                if scalar {
                    if is_bool {
                        let mut r = String::from_str("C._Bool(");
                        r.append(name.as_str());
                        r.append(")");
                        r
                    } else {
                        name
                    }
                } else {
                    let mut r = name;
                    r.append(".asBuffer()");
                    r
                }
            },
            FfidlGoArgForm::GoFfiSign => {
                let ty = self.codegen_item_ty(&a.ty.kind, true);
                let mut r = name;
                r.append(" ");
                if !scalar {
                    r.append(self.gomod_name.as_str());
                    r.append(".TBytes[*");
                }
                r.append(ty.as_str());
                if !scalar {
                    r.append("]");
                }
                r
            },
            FfidlGoArgForm::GoFfiAssign => {
                if scalar {
                    if is_bool {
                        let mut r = String::from_str("bool(");
                        r.append(name.as_str());
                        r.append(")");
                        r
                    } else {
                        name
                    }
                } else {
                    let ty = self.codegen_item_ty(&a.ty.kind, true);
                    let mut r = String::from_str("asBytes[*");
                    r.append(ty.as_str());
                    r.append("](");
                    r.append(name.as_str());
                    r.append(")");
                    r
                }
            },
            FfidlGoArgForm::GoFfiExportSign => {
                let mut r = name;
                if scalar {
                    let ty = self.codegen_item_ty(&a.ty.kind, true);
                    r.append(" ");
                    r.append(ty.as_str());
                } else {
                    r.append(" C.struct_Buffer");
                }
                r
            },
        }
    }

    /// The Go rendering of an argument list, joined with `","`.
    fn render_args(&self, form: FfidlGoArgForm, args: &Vec<Arg>) -> (r: String)
        ensures
            r@ == ffidl_go_args_text(form, self.gomod_name@, args@),
    {
        let ghost g = self.gomod_name@;
        let ghost f = |a: Arg| ffidl_go_arg_text(form, g, a);
        let mut parts: Vec<String> = Vec::new();
        let n = args.len();
        let mut i: usize = 0;
        while i < n
            invariant
                n == args.len(),
                i <= n,
                g == self.gomod_name@,
                f == (|a: Arg| ffidl_go_arg_text(form, g, a)),
                views(parts@) =~= args@.take(i as int).map_values(f),
            decreases n - i,
        {
            let s = self.render_arg(form, &args[i]);
            let ghost old_parts = parts@;
            parts.push(s);
            assert(views(parts@) =~= views(old_parts).push(s@));
            assert(args@.take(i + 1) =~= args@.take(i as int).push(args@[i as int]));
            i = i + 1;
        }
        assert(args@.take(n as int) =~= args@);
        join(&parts, ",")
    }

    /// The Go package code of the `RustFfi` service `s`: the runtime support,
    /// the interface, and its implementation that calls the C functions.
    pub fn codegen_rust_ffi(&self, s: &Service) -> (r: String)
        ensures
            r@ == ffidl_rustffi_go_text(self.gomod_name@, s@.rust_name, s@.methods),
    {
        let ghost g = self.gomod_name@;
        let ghost f0 = |m: MethodView| ffidl_rustffi_parts(g, s@.rust_name, m).0;
        let ghost f1 = |m: MethodView| ffidl_rustffi_parts(g, s@.rust_name, m).1;
        let mut iface_methods = String::new();
        let mut impl_methods = String::new();
        let n = s.methods.len();
        let mut i: usize = 0;
        while i < n
            invariant
                n == s.methods.len(),
                i <= n,
                g == self.gomod_name@,
                f0 == (|m: MethodView| ffidl_rustffi_parts(g, s@.rust_name, m).0),
                f1 == (|m: MethodView| ffidl_rustffi_parts(g, s@.rust_name, m).1),
                iface_methods@ == seq_concat(s@.methods.take(i as int).map_values(f0)),
                impl_methods@ == seq_concat(s@.methods.take(i as int).map_values(f1)),
            decreases n - i,
        {
            let method = &s.methods[i];
            assert(s@.methods.take(i + 1) =~= s@.methods.take(i as int).push(method@));
            assert(s@.methods.take(i + 1).map_values(f0).drop_last() =~= s@.methods.take(i as int).map_values(f0));
            assert(s@.methods.take(i + 1).map_values(f1).drop_last() =~= s@.methods.take(i as int).map_values(f1));
            let sign = self.render_args(FfidlGoArgForm::RustFfiSign, &method.args);
            let ret = self.codegen_item_ty(&method.ret.kind, false);
            let iface = rustffi_go_iface_method(method.upper_camel_ident.as_str(), sign.as_str(), ret.as_str());
            iface_methods.append(iface.as_str());
            iface_methods.append("\n");
            let name = self.ffi_func_name(s.rust_name.as_str(), method, true);
            let assign = self.render_args(FfidlGoArgForm::RustFfiAssign, &method.args);
            let imp = ffidl_go_impl_method(
                method.upper_camel_ident.as_str(),
                sign.as_str(),
                ret.as_str(),
                name.as_str(),
                assign.as_str(),
            );
            impl_methods.append(imp.as_str());
            i = i + 1;
        }
        assert(s@.methods.take(n as int) =~= s@.methods);
        let runtime = ffidl_go_runtime();
        ffidl_go_rustffi_block(runtime.as_str(), iface_methods.as_str(), impl_methods.as_str())
    }

    /// The Go `main` package code of the `GoFfi` service `s`: the support
    /// code, the interface, the unimplemented stub and the exported functions.
    pub fn codegen_go_ffi(&self, s: &Service) -> (r: String)
        ensures
            r@ == ffidl_goffi_go_text(self.gomod_name@, s@.rust_name, s@.methods),
    {
        let ghost g = self.gomod_name@;
        let ghost f0 = |m: MethodView| ffidl_goffi_parts(g, s@.rust_name, m).0;
        let ghost f1 = |m: MethodView| ffidl_goffi_parts(g, s@.rust_name, m).1;
        let ghost f2 = |m: MethodView| ffidl_goffi_parts(g, s@.rust_name, m).2;
        let mod_name = self.gomod_name.as_str();
        let code = ffidl_go_goffi_support(mod_name);
        let mut iface_methods = String::new();
        let mut impl_methods = String::new();
        let mut ffi_functions = String::new();
        let n = s.methods.len();
        let mut i: usize = 0;
        while i < n
            invariant
                n == s.methods.len(),
                i <= n,
                g == self.gomod_name@,
                mod_name@ == g,
                f0 == (|m: MethodView| ffidl_goffi_parts(g, s@.rust_name, m).0),
                f1 == (|m: MethodView| ffidl_goffi_parts(g, s@.rust_name, m).1),
                f2 == (|m: MethodView| ffidl_goffi_parts(g, s@.rust_name, m).2),
                iface_methods@ == seq_concat(s@.methods.take(i as int).map_values(f0)),
                impl_methods@ == seq_concat(s@.methods.take(i as int).map_values(f1)),
                ffi_functions@ == seq_concat(s@.methods.take(i as int).map_values(f2)),
            decreases n - i,
        {
            let method = &s.methods[i];
            assert(s@.methods.take(i + 1) =~= s@.methods.take(i as int).push(method@));
            assert(s@.methods.take(i + 1).map_values(f0).drop_last() =~= s@.methods.take(i as int).map_values(f0));
            assert(s@.methods.take(i + 1).map_values(f1).drop_last() =~= s@.methods.take(i as int).map_values(f1));
            assert(s@.methods.take(i + 1).map_values(f2).drop_last() =~= s@.methods.take(i as int).map_values(f2));
            let upper = method.upper_camel_ident.as_str();
            let sign = self.render_args(FfidlGoArgForm::GoFfiSign, &method.args);
            let name = self.ffi_func_name(s.rust_name.as_str(), method, false);
            let export_sign = self.render_args(FfidlGoArgForm::GoFfiExportSign, &method.args);
            let assign = self.render_args(FfidlGoArgForm::GoFfiAssign, &method.args);
            if is_empty_ty(&method.ret.kind) {
                let a = ffidl_go_iface_empty(upper, sign.as_str());
                let b = ffidl_go_unimpl_empty(upper, sign.as_str());
                let c = ffidl_go_export_empty(name.as_str(), export_sign.as_str(), upper, assign.as_str(), mod_name);
                iface_methods.append(a.as_str());
                impl_methods.append(b.as_str());
                ffi_functions.append(c.as_str());
            } else {
                let ret = self.codegen_item_ty(&method.ret.kind, true);
                let a = ffidl_go_iface(upper, sign.as_str(), mod_name, ret.as_str());
                let b = ffidl_go_unimpl(upper, sign.as_str(), mod_name, ret.as_str());
                let c = ffidl_go_export(name.as_str(), export_sign.as_str(), upper, assign.as_str(), mod_name);
                iface_methods.append(a.as_str());
                impl_methods.append(b.as_str());
                ffi_functions.append(c.as_str());
            }
            i = i + 1;
        }
        assert(s@.methods.take(n as int) =~= s@.methods);
        ffidl_go_goffi_block(code.as_str(), iface_methods.as_str(), impl_methods.as_str(), ffi_functions.as_str())
    }

    /// The Go code of the service `s` of kind `st`: the package code of a
    /// `RustFfi` service, or the `main` package code of a `GoFfi` service.
    pub fn codegen(&self, st: ServiceType, s: &Service) -> (r: (String, String))
        ensures
            st == ServiceType::RustFfi ==> r.0@ == ffidl_rustffi_go_text(self.gomod_name@, s@.rust_name, s@.methods)
                && r.1@ == Seq::<char>::empty(),
            st == ServiceType::GoFfi ==> r.1@ == ffidl_goffi_go_text(self.gomod_name@, s@.rust_name, s@.methods)
                && r.0@ == Seq::<char>::empty(),
    {
        match st {
            ServiceType::RustFfi => (self.codegen_rust_ffi(s), String::new()),
            ServiceType::GoFfi => (String::new(), self.codegen_go_ffi(s)),
        }
    }
}

} // verus!
