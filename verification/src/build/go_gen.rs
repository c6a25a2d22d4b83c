//! The Go side of the generated FFI: the Go spelling of IDL types, the
//! interfaces of the two services and the cgo glue.
use vstd::prelude::*;
use crate::build::ir::{MethodView, Arg, Field, Message, Method, Service, TyKind, spec_is_scalar};
use crate::build::generator::{GenMode, GoGeneratorBackend, is_empty_ty, spec_is_empty_ty};
use crate::build::templates::{
    go_field_tag, go_struct_field, go_struct_type, goffi_go_export, goffi_go_export_empty,
    goffi_go_iface_method, goffi_go_iface_method_empty, goffi_go_service, rustffi_go_call,
    rustffi_go_iface_method, rustffi_go_runtime, spec_go_field_tag, spec_go_struct_field,
    spec_go_struct_type, spec_goffi_go_export, spec_goffi_go_export_empty,
    spec_goffi_go_iface_method, spec_goffi_go_iface_method_empty, spec_goffi_go_service,
    spec_rustffi_go_call, spec_rustffi_go_iface_method, spec_rustffi_go_runtime,
};
use crate::text::{concat, join, lowercase, seq_concat, seq_join, to_lowercase, views};

verus! {

/// The Go spelling of an IDL type; in the `main` package a message is
/// qualified by the Go package name.
pub open spec fn go_ty_name(k: TyKind, is_main: bool, gomod_name: Seq<char>) -> Seq<char>
    decreases k,
{
    match k {
        TyKind::String => "string"@,
        TyKind::Void => "struct{}"@,
        TyKind::U8 => "uint8"@,
        TyKind::Bool => "bool"@,
        TyKind::Bytes => "[]byte"@,
        TyKind::I8 => "int8"@,
        TyKind::I16 => "int16"@,
        TyKind::I32 => "int32"@,
        TyKind::I64 => "int64"@,
        TyKind::F64 => "float64"@,
        TyKind::Vec(e) => "[]"@ + go_ty_name(e.kind, is_main, gomod_name),
        TyKind::SetOf(e) => "[]"@ + go_ty_name(e.kind, is_main, gomod_name),
        TyKind::MapOf(k, v) => "map["@ + go_ty_name(k.kind, is_main, gomod_name) + "]"@
            + go_ty_name(v.kind, is_main, gomod_name),
        TyKind::Path(p) => if is_main {
            gomod_name + "."@ + p.struct_ident@
        } else {
            p.struct_ident@
        },
        TyKind::UInt32 => "uint32"@,
        TyKind::UInt64 => "uint64"@,
        TyKind::F32 => "float32"@,
        TyKind::Arc(e) => "*"@ + go_ty_name(e.kind, is_main, gomod_name),
    }
}

/// The name of the C function that carries `method` of the service `service_name`.
pub open spec fn ffi_func_name_text(service_name: Seq<char>, method: MethodView) -> Seq<char> {
    lowercase(service_name) + "_"@ + method.fn_ident
}

/// How an argument is rendered in Go code.
#[derive(Clone, Copy)]
pub enum GoArgForm {
    /// A parameter of a method of the `RustFfi` interface.
    RustFfiSign,
    /// An argument handed to the C function of a `RustFfi` method.
    RustFfiAssign,
    /// A parameter of a method of the `GoFfi` interface.
    GoFfiSign,
    /// An argument handed from an exported function to the `GoFfi` method.
    GoFfiAssign,
    /// A parameter of the exported function of a `GoFfi` method.
    GoFfiExportSign,
}

/// The Go rendering of one argument.
pub open spec fn go_arg_text(form: GoArgForm, gomod_name: Seq<char>, a: Arg) -> Seq<char> {
    let name = lowercase(a.name@);
    let lib_ty = go_ty_name(a.ty.kind, false, gomod_name);
    let main_ty = go_ty_name(a.ty.kind, true, gomod_name);
    let scalar = spec_is_scalar(a.ty.kind);
    let is_bool = a.ty.kind is Bool;
    match form {
        GoArgForm::RustFfiSign => if scalar {
            name + " "@ + lib_ty
        } else {
            name + " TBytes[*"@ + lib_ty + "]"@
        },
        GoArgForm::RustFfiAssign => if scalar {
            if is_bool {
                "C._Bool("@ + name + ")"@
            } else {
                name
            }
        } else {
            name + ".asBuffer()"@
        },
        GoArgForm::GoFfiSign => if scalar {
            name + " "@ + main_ty
        } else {
            name + " "@ + gomod_name + ".TBytes["@ + main_ty + "]"@
        },
        GoArgForm::GoFfiAssign => if scalar {
            if is_bool {
                "bool("@ + name + ")"@
            } else {
                name
            }
        } else {
            "asBytes["@ + main_ty + "]("@ + name + ")"@
        },
        GoArgForm::GoFfiExportSign => if scalar {
            name + " "@ + main_ty
        } else {
            name + " C.struct_Buffer"@
        },
    }
}

/// The Go rendering of an argument list, joined with `","`.
pub open spec fn go_args_text(form: GoArgForm, gomod_name: Seq<char>, args: Seq<Arg>) -> Seq<char> {
    seq_join(args.map_values(|a: Arg| go_arg_text(form, gomod_name, a)), ","@)
}

/// The method of the Go `RustFfi` interface for `m`, and the body of its
/// implementation.
pub open spec fn rustffi_iface_method_text(gomod_name: Seq<char>, service_name: Seq<char>, m: MethodView) -> (Seq<char>, Seq<char>) {
    let ret_type = go_ty_name(m.ret, false, gomod_name);
    (
        spec_rustffi_go_iface_method(
            m.upper_camel_ident,
            go_args_text(GoArgForm::RustFfiSign, gomod_name, m.args),
            ret_type,
        ),
        spec_rustffi_go_call(
            ret_type,
            ffi_func_name_text(service_name, m),
            go_args_text(GoArgForm::RustFfiAssign, gomod_name, m.args),
        ),
    )
}

/// The method of the Go `GoFfi` interface for `m`.
pub open spec fn goffi_iface_method_text(gomod_name: Seq<char>, m: MethodView) -> Seq<char> {
    let args_sign = go_args_text(GoArgForm::GoFfiSign, gomod_name, m.args);
    if spec_is_empty_ty(m.ret) {
        spec_goffi_go_iface_method_empty(m.upper_camel_ident, args_sign)
    } else {
        spec_goffi_go_iface_method(
            m.upper_camel_ident,
            args_sign,
            gomod_name,
            go_ty_name(m.ret, true, gomod_name),
        )
    }
}

/// The exported Go function of the `GoFfi` method `m`.
pub open spec fn goffi_export_text(gomod_name: Seq<char>, service_name: Seq<char>, m: MethodView) -> Seq<char> {
    let ffi_func_name = ffi_func_name_text(service_name, m);
    let sign = go_args_text(GoArgForm::GoFfiExportSign, gomod_name, m.args);
    let assign = go_args_text(GoArgForm::GoFfiAssign, gomod_name, m.args);
    if spec_is_empty_ty(m.ret) {
        spec_goffi_go_export_empty(ffi_func_name, sign, m.upper_camel_ident, assign, gomod_name)
    } else {
        spec_goffi_go_export(ffi_func_name, sign, m.upper_camel_ident, assign, gomod_name)
    }
}

/// The Go glue of a `GoFfi` service: its support code, then one exported
/// function per method.
pub open spec fn goffi_go_service_text(gomod_name: Seq<char>, service_name: Seq<char>, methods: Seq<MethodView>) -> Seq<char> {
    spec_goffi_go_service(
        gomod_name,
        seq_concat(methods.map_values(|m: MethodView| goffi_export_text(gomod_name, service_name, m))),
    )
}

/// A field of a Go struct type.
pub open spec fn go_field_text(gomod_name: Seq<char>, f: Field) -> Seq<char> {
    spec_go_struct_field(
        f.upper_camel_ident@,
        go_ty_name(f.ty.kind, false, gomod_name),
        spec_go_field_tag(f.snake_ident@),
    )
}

/// The Go struct type of a message.
pub open spec fn go_struct_text(gomod_name: Seq<char>, m: Message) -> Seq<char> {
    spec_go_struct_type(
        m.struct_ident@,
        seq_join(m.fields@.map_values(|f: Field| go_field_text(gomod_name, f)), "    \n"@),
    )
}

impl GoGeneratorBackend {
    /// The Go spelling of an IDL type; in the `main` package (`is_main`) a
    /// message is qualified by the Go package name.
    pub fn go_codegen_item_ty(&self, ty: &TyKind, is_main: bool) -> (r: String)
        ensures
            r@ == go_ty_name(*ty, is_main, self.config.gomod_name@),
        decreases ty,
    {
        match ty {
            TyKind::String => String::from_str("string"),
            TyKind::Void => String::from_str("struct{}"),
            TyKind::U8 => String::from_str("uint8"),
            TyKind::Bool => String::from_str("bool"),
            TyKind::Bytes => String::from_str("[]byte"),
            TyKind::I8 => String::from_str("int8"),
            TyKind::I16 => String::from_str("int16"),
            TyKind::I32 => String::from_str("int32"),
            TyKind::I64 => String::from_str("int64"),
            TyKind::F64 => String::from_str("float64"),
            TyKind::Vec(e) => {
                let mut s = String::from_str("[]");
                let inner = self.go_codegen_item_ty(&e.kind, is_main);
                s.append(inner.as_str());
                s
            },
            TyKind::SetOf(e) => {
                let mut s = String::from_str("[]");
                let inner = self.go_codegen_item_ty(&e.kind, is_main);
                s.append(inner.as_str());
                s
            },
            TyKind::MapOf(k, v) => {
                let mut s = String::from_str("map[");
                let key = self.go_codegen_item_ty(&k.kind, is_main);
                let value = self.go_codegen_item_ty(&v.kind, is_main);
                s.append(key.as_str());
                s.append("]");
                s.append(value.as_str());
                s
            },
            TyKind::Path(p) => {
                let mut pkg_pre = String::new();
                if is_main {
                    pkg_pre = self.config.gomod_name.clone();
                    pkg_pre.append(".");
                }
                pkg_pre.append(p.struct_ident.as_str());
                pkg_pre
            },
            TyKind::UInt32 => String::from_str("uint32"),
            TyKind::UInt64 => String::from_str("uint64"),
            TyKind::F32 => String::from_str("float32"),
            TyKind::Arc(e) => {
                let mut s = String::from_str("*");
                let inner = self.go_codegen_item_ty(&e.kind, is_main);
                s.append(inner.as_str());
                s
            },
        }
    }

    /// The Go name of an argument: its IDL name in lowercase.
    pub fn arg_name(&self, arg: &Arg) -> (r: String)
        ensures
            r@ == lowercase(arg.name@),
    {
        to_lowercase(arg.name.as_str())
    }

    /// The Go type of an argument.
    pub fn arg_type(&self, arg: &Arg, is_main: bool) -> (r: String)
        ensures
            r@ == go_ty_name(arg.ty.kind, is_main, self.config.gomod_name@),
    {
        self.go_codegen_item_ty(&arg.ty.kind, is_main)
    }

    /// The Go type that a method returns.
    pub fn ret_type(&self, method: &Method, is_main: bool) -> (r: String)
        ensures
            r@ == go_ty_name(method.ret.kind, is_main, self.config.gomod_name@),
    {
        self.go_codegen_item_ty(&method.ret.kind, is_main)
    }

    /// The Go name of a struct field: its name in upper camel case.
    pub fn field_name(&self, f: &Field) -> (r: String)
        ensures
            r@ == f.upper_camel_ident@,
    {
        f.upper_camel_ident.clone()
    }

    /// The Go type of a struct field.
    pub fn field_type(&self, f: &Field) -> (r: String)
        ensures
            r@ == go_ty_name(f.ty.kind, false, self.config.gomod_name@),
    {
        self.go_codegen_item_ty(&f.ty.kind, false)
    }

    /// The JSON tag of a struct field, keyed by its name in snake case.
    pub fn field_tag(&self, f: &Field) -> (r: String)
        ensures
            r@ == spec_go_field_tag(f.snake_ident@),
    {
        go_field_tag(f.snake_ident.as_str())
    }

    /// The Go name of a message's struct type.
    pub fn struct_name(&self, message: &Message) -> (r: String)
        ensures
            r@ == message.struct_ident@,
    {
        message.struct_ident.clone()
    }

    /// The name of a method in the Go interfaces: its name in upper camel case.
    pub fn iface_method_name(&self, method: &Method) -> (r: String)
        ensures
            r@ == method.upper_camel_ident@,
    {
        method.upper_camel_ident.clone()
    }

    /// The name of the C function that carries `method` of the service named
    /// `service_name`: the lowercased service name, `_`, the method's
    /// function identifier.
    pub fn ffi_func_name(&self, service_name: &str, method: &Method) -> (r: String)
        ensures
            r@ == ffi_func_name_text(service_name@, method@),
    {
        let mut r = to_lowercase(service_name);
        r.append("_");
        r.append(method.fn_ident.as_str());
        r
    }

    /// The Go rendering of one argument.
    fn render_arg(&self, form: GoArgForm, a: &Arg) -> (r: String)
        ensures
            r@ == go_arg_text(form, self.config.gomod_name@, *a),
    {
        let name = self.arg_name(a);
        let scalar = a.ty.is_scalar();
        let is_bool = match a.ty.kind {
            TyKind::Bool => true,
            _ => false,
        };
        match form {
            GoArgForm::RustFfiSign => {
                let ty = self.arg_type(a, false);
                let mut r = name;
                if scalar {
                    r.append(" ");
                    r.append(ty.as_str());
                } else {
                    r.append(" TBytes[*");
                    r.append(ty.as_str());
                    r.append("]");
                }
                r
            },
            GoArgForm::RustFfiAssign => {
                if scalar {
                    if is_bool {
                        let mut r = String::from_str("C._Bool(");
                        r.append(name.as_str());
                        r.append(")");
                        r
                    } else {
                        name
                    }
                } else {
                    let mut r = name;
                    r.append(".asBuffer()");
                    r
                }
            },
            GoArgForm::GoFfiSign => {
                let ty = self.arg_type(a, true);
                let mut r = name;
                r.append(" ");
                if !scalar {
                    r.append(self.config.gomod_name.as_str());
                    r.append(".TBytes[");
                }
                r.append(ty.as_str());
                if !scalar {
                    r.append("]");
                }
                r
            },
            GoArgForm::GoFfiAssign => {
                if scalar {
                    if is_bool {
                        let mut r = String::from_str("bool(");
                        r.append(name.as_str());
                        r.append(")");
                        r
                    } else {
                        name
                    }
                } else {
                    let ty = self.arg_type(a, true);
                    let mut r = String::from_str("asBytes[");
                    r.append(ty.as_str());
                    r.append("](");
                    r.append(name.as_str());
                    r.append(")");
                    r
                }
            },
            GoArgForm::GoFfiExportSign => {
                let mut r = name;
                if scalar {
                    let ty = self.arg_type(a, true);
                    r.append(" ");
                    r.append(ty.as_str());
                } else {
                    r.append(" C.struct_Buffer");
                }
                r
            },
        }
    }

    /// The Go rendering of an argument list, joined with `","`.
    fn render_args(&self, form: GoArgForm, args: &Vec<Arg>) -> (r: String)
        ensures
            r@ == go_args_text(form, self.config.gomod_name@, args@),
    {
        let ghost g = self.config.gomod_name@;
        let ghost f = |a: Arg| go_arg_text(form, g, a);
        let mut parts: Vec<String> = Vec::new();
        let n = args.len();
        let mut i: usize = 0;
        while i < n
            invariant
                n == args.len(),
                i <= n,
                g == self.config.gomod_name@,
                f == (|a: Arg| go_arg_text(form, g, a)),
                views(parts@) =~= args@.take(i as int).map_values(f),
            decreases n - i,
        {
            let s = self.render_arg(form, &args[i]);
            let ghost old_parts = parts@;
            parts.push(s);
            assert(views(parts@) =~= views(old_parts).push(s@));
            assert(args@.take(i + 1) =~= args@.take(i as int).push(args@[i as int]));
            i = i + 1;
        }
        assert(args@.take(n as int) =~= args@);
        join(&parts, ",")
    }

    /// The Go struct type of a message; only code without a codec declares
    /// message types by hand, so with a codec the text is empty.
    pub fn codegen_struct_type(&self, message: &Message) -> (r: String)
        ensures
            r@ == match self.config.gen_mode {
                GenMode::Codec => Seq::empty(),
                GenMode::NoCodec => go_struct_text(self.config.gomod_name@, *message),
            },
    {
        match self.config.gen_mode {
            GenMode::Codec => String::new(),
            GenMode::NoCodec => {
                let ghost g = self.config.gomod_name@;
                let ghost f = |x: Field| go_field_text(g, x);
                let mut parts: Vec<String> = Vec::new();
                let n = message.fields.len();
                let mut i: usize = 0;
                while i < n
                    invariant
                        n == message.fields.len(),
                        i <= n,
                        g == self.config.gomod_name@,
                        f == (|x: Field| go_field_text(g, x)),
                        views(parts@) =~= message.fields@.take(i as int).map_values(f),
                    decreases n - i,
                {
                    let field = &message.fields[i];
                    let name = self.field_name(field);
                    let ty = self.field_type(field);
                    let tag = self.field_tag(field);
                    let s = go_struct_field(name.as_str(), ty.as_str(), tag.as_str());
                    let ghost old_parts = parts@;
                    parts.push(s);
                    assert(views(parts@) =~= views(old_parts).push(s@));
                    assert(message.fields@.take(i + 1) =~= message.fields@.take(i as int).push(
                        message.fields@[i as int],
                    ));
                    i = i + 1;
                }
                assert(message.fields@.take(n as int) =~= message.fields@);
                let files = join(&parts, "    \n");
                let struct_name = self.struct_name(message);
                go_struct_type(struct_name.as_str(), files.as_str())
            },
        }
    }

    /// The method of the Go `RustFfi` interface for `method`, and the body of
    /// its implementation; none for code without a codec.
    pub fn codegen_rustffi_iface_method(&self, service_name: &str, method: &Method) -> (r: Option<(String, String)>)
        ensures
            self.config.gen_mode == GenMode::NoCodec ==> r is None,
            self.config.gen_mode == GenMode::Codec ==> (r matches Some((a, b)) && (a@, b@)
                == rustffi_iface_method_text(self.config.gomod_name@, service_name@, method@)),
    {
        if self.config.gen_mode == GenMode::NoCodec {
            return None;
        }
        let iface_method_name = self.iface_method_name(method);
        let args_sign = self.render_args(GoArgForm::RustFfiSign, &method.args);
        let ret_type = self.ret_type(method, false);
        let iface_method = rustffi_go_iface_method(
            iface_method_name.as_str(),
            args_sign.as_str(),
            ret_type.as_str(),
        );
        let ffi_func_name = self.ffi_func_name(service_name, method);
        let args_assign = self.render_args(GoArgForm::RustFfiAssign, &method.args);
        let call = rustffi_go_call(ret_type.as_str(), ffi_func_name.as_str(), args_assign.as_str());
        Some((iface_method, call))
    }

    /// The Go runtime support of a `RustFfi` service; empty for code without
    /// a codec.
    pub fn codegen_rustffi_service_impl(&self) -> (r: String)
        ensures
            r@ == match self.config.gen_mode {
                GenMode::Codec => spec_rustffi_go_runtime(),
                GenMode::NoCodec => Seq::empty(),
            },
    {
        match self.config.gen_mode {
            GenMode::Codec => rustffi_go_runtime(),
            GenMode::NoCodec => String::new(),
        }
    }

    /// The method of the Go `GoFfi` interface for `method`; none for code
    /// without a codec.
    pub fn codegen_goffi_iface_method(&self, method: &Method) -> (r: Option<String>)
        ensures
            self.config.gen_mode == GenMode::NoCodec ==> r is None,
            self.config.gen_mode == GenMode::Codec ==> (r matches Some(t) && t@
                == goffi_iface_method_text(self.config.gomod_name@, method@)),
    {
        if self.config.gen_mode == GenMode::NoCodec {
            return None;
        }
        let iface_method_name = self.iface_method_name(method);
        let args_sign = self.render_args(GoArgForm::GoFfiSign, &method.args);
        if is_empty_ty(&method.ret.kind) {
            Some(goffi_go_iface_method_empty(iface_method_name.as_str(), args_sign.as_str()))
        } else {
            let ret_type = self.ret_type(method, true);
            Some(goffi_go_iface_method(
                iface_method_name.as_str(),
                args_sign.as_str(),
                self.config.gomod_name.as_str(),
                ret_type.as_str(),
            ))
        }
    }

    /// The exported Go function of one `GoFfi` method.
    fn goffi_export_of(&self, service_name: &str, method: &Method) -> (r: String)
        ensures
            r@ == goffi_export_text(self.config.gomod_name@, service_name@, method@),
    {
        let iface_method_name = self.iface_method_name(method);
        let ffi_func_name = self.ffi_func_name(service_name, method);
        let assign = self.render_args(GoArgForm::GoFfiAssign, &method.args);
        let sign = self.render_args(GoArgForm::GoFfiExportSign, &method.args);
        let mod_name = self.config.gomod_name.as_str();
        if is_empty_ty(&method.ret.kind) {
            goffi_go_export_empty(
                ffi_func_name.as_str(),
                sign.as_str(),
                iface_method_name.as_str(),
                assign.as_str(),
                mod_name,
            )
        } else {
            goffi_go_export(
                ffi_func_name.as_str(),
                sign.as_str(),
                iface_method_name.as_str(),
                assign.as_str(),
                mod_name,
            )
        }
    }

    /// The Go glue of the `GoFfi` service `s`: its support code, then one
    /// exported function per method; empty for code without a codec.
    pub fn codegen_goffi_service_impl(&self, s: &Service) -> (r: String)
        ensures
            r@ == match self.config.gen_mode {
                GenMode::Codec => goffi_go_service_text(self.config.gomod_name@, s@.rust_name, s@.methods),
                GenMode::NoCodec => Seq::empty(),
            },
    {
        if self.config.gen_mode == GenMode::NoCodec {
            return String::new();
        }
        let ghost g = self.config.gomod_name@;
        let ghost f = |m: MethodView| goffi_export_text(g, s@.rust_name, m);
        let mut parts: Vec<String> = Vec::new();
        let n = s.methods.len();
        let mut i: usize = 0;
        while i < n
            invariant
                n == s.methods.len(),
                i <= n,
                g == self.config.gomod_name@,
                f == (|m: MethodView| goffi_export_text(g, s@.rust_name, m)),
                views(parts@) =~= s@.methods.take(i as int).map_values(f),
            decreases n - i,
        {
            let t = self.goffi_export_of(s.rust_name.as_str(), &s.methods[i]);
            let ghost old_parts = parts@;
            parts.push(t);
            assert(views(parts@) =~= views(old_parts).push(t@));
            assert(s@.methods.take(i + 1) =~= s@.methods.take(i as int).push(s@.methods[i as int]));
            i = i + 1;
        }
        assert(s@.methods.take(n as int) =~= s@.methods);
        let ffi_functions = concat(&parts);
        goffi_go_service(self.config.gomod_name.as_str(), ffi_functions.as_str())
    }
}

} // verus!
