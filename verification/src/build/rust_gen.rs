//! The Rust side of the generated FFI: trait methods, `extern "C"` shims and
//! the Rust spelling of IDL types.
use vstd::prelude::*;
use crate::build::ir::{MethodView, Arg, Method, Service, Ty, TyKind, spec_is_scalar};
use crate::build::generator::{
    RustGeneratorBackend, ServiceType, is_empty_ty, spec_is_empty_ty,
};
use crate::build::templates::{
    goffi_call_trait_method, goffi_extern_decl, goffi_link_block, goffi_set_result_fn,
    goffi_set_result_trait_method, rustffi_extern_fn, rustffi_trait_method,
    spec_goffi_call_trait_method, spec_goffi_extern_decl, spec_goffi_link_block,
    spec_goffi_set_result_fn, spec_goffi_set_result_trait_method, spec_rustffi_extern_fn,
    spec_rustffi_trait_method,
};
use crate::text::{join, lowercase, seq_join, to_lowercase, views};

verus! {

/// The Rust spelling of an IDL type.
pub open spec fn rust_ty_name(k: TyKind) -> Seq<char>
    decreases k,
{
    match k {
        TyKind::String => "::std::string::String"@,
        TyKind::Void => "()"@,
        TyKind::U8 => "u8"@,
        TyKind::Bool => "bool"@,
        TyKind::Bytes => "::std::vec::Vec<u8>"@,
        TyKind::I8 => "i8"@,
        TyKind::I16 => "i16"@,
        TyKind::I32 => "i32"@,
        TyKind::I64 => "i64"@,
        TyKind::F64 => "f64"@,
        TyKind::Vec(e) => "::std::vec::Vec<"@ + rust_ty_name(e.kind) + ">"@,
        TyKind::SetOf(e) => "::std::collections::HashSet<"@ + rust_ty_name(e.kind) + ">"@,
        TyKind::MapOf(k, v) => "::std::collections::HashMap<"@ + rust_ty_name(k.kind) + ", "@
            + rust_ty_name(v.kind) + ">"@,
        TyKind::Path(p) => p.rust_name@,
        TyKind::UInt32 => "u32"@,
        TyKind::UInt64 => "u64"@,
        TyKind::F32 => "f32"@,
        TyKind::Arc(e) => "::std::sync::Arc<"@ + rust_ty_name(e.kind) + ">"@,
    }
}

/// How an argument is rendered in Rust code.
#[derive(Clone, Copy)]
pub enum RustArgForm {
    /// A parameter of an `extern "C"` function.
    FfiParam,
    /// An argument handed from an `extern "C"` function to the trait method.
    FfiIdent,
    /// A parameter of a trait method.
    MethodArg,
}

/// The Rust rendering of one argument.
pub open spec fn rust_arg_text(form: RustArgForm, st: ServiceType, a: Arg) -> Seq<char> {
    let ident = a.snake_ident@;
    let ty = rust_ty_name(a.ty.kind);
    let scalar = spec_is_scalar(a.ty.kind);
    match form {
        RustArgForm::FfiParam => if scalar {
            ident + ": "@ + ty
        } else {
            ident + ": ::fcplug::Buffer"@
        },
        RustArgForm::FfiIdent => if scalar {
            ident
        } else {
            match st {
                ServiceType::RustFfi => "::fcplug::RustFfiArg::from("@ + ident + ")"@,
                ServiceType::GoFfi => "::fcplug::Buffer::from_vec("@ + ident + ".bytes)"@,
            }
        },
        RustArgForm::MethodArg => if scalar {
            ident + ": "@ + ty
        } else {
            match st {
                ServiceType::RustFfi => ident + ": ::fcplug::RustFfiArg<"@ + ty + ">"@,
                ServiceType::GoFfi => ident + ": ::fcplug::TBytes<"@ + ty + ">"@,
            }
        },
    }
}

/// The Rust rendering of an argument list, joined with `", "`.
pub open spec fn rust_args_text(form: RustArgForm, st: ServiceType, args: Seq<Arg>) -> Seq<char> {
    seq_join(args.map_values(|a: Arg| rust_arg_text(form, st, a)), ", "@)
}

/// The return type of a trait method.
pub open spec fn rust_method_ret(st: ServiceType, ret: TyKind) -> Seq<char> {
    let ty = rust_ty_name(ret);
    if spec_is_empty_ty(ret) {
        "::fcplug::ABIResult<()>"@
    } else if spec_is_scalar(ret) {
        ty
    } else {
        match st {
            ServiceType::RustFfi => "::fcplug::ABIResult<::fcplug::TBytes<"@ + ty + ">>"@,
            ServiceType::GoFfi => "::fcplug::ABIResult<T>"@,
        }
    }
}

/// The return type of an `extern "C"` function.
pub open spec fn rust_ffi_ret(st: ServiceType, ret: TyKind) -> Seq<char> {
    if spec_is_scalar(ret) && !spec_is_empty_ty(ret) {
        rust_ty_name(ret)
    } else {
        match st {
            ServiceType::RustFfi => "::fcplug::RustFfiResult"@,
            ServiceType::GoFfi => "::fcplug::GoFfiResult"@,
        }
    }
}


impl RustGeneratorBackend {
    /// The Rust spelling of an IDL type.
    pub fn rust_codegen_item_ty(&self, ty: &TyKind) -> (r: String)
        ensures
            r@ == rust_ty_name(*ty),
        decreases ty,
    {
        match ty {
            TyKind::String => String::from_str("::std::string::String"),
            TyKind::Void => String::from_str("()"),
            TyKind::U8 => String::from_str("u8"),
            TyKind::Bool => String::from_str("bool"),
            TyKind::Bytes => String::from_str("::std::vec::Vec<u8>"),
            TyKind::I8 => String::from_str("i8"),
            TyKind::I16 => String::from_str("i16"),
            TyKind::I32 => String::from_str("i32"),
            TyKind::I64 => String::from_str("i64"),
            TyKind::F64 => String::from_str("f64"),
            TyKind::Vec(e) => {
                let mut s = String::from_str("::std::vec::Vec<");
                let inner = self.rust_codegen_item_ty(&e.kind);
                s.append(inner.as_str());
                s.append(">");
                s
            },
            TyKind::SetOf(e) => {
                let mut s = String::from_str("::std::collections::HashSet<");
                let inner = self.rust_codegen_item_ty(&e.kind);
                s.append(inner.as_str());
                s.append(">");
                s
            },
            TyKind::MapOf(k, v) => {
                let mut s = String::from_str("::std::collections::HashMap<");
                let key = self.rust_codegen_item_ty(&k.kind);
                let value = self.rust_codegen_item_ty(&v.kind);
                s.append(key.as_str());
                s.append(", ");
                s.append(value.as_str());
                s.append(">");
                s
            },
            TyKind::Path(p) => p.rust_name.clone(),
            TyKind::UInt32 => String::from_str("u32"),
            TyKind::UInt64 => String::from_str("u64"),
            TyKind::F32 => String::from_str("f32"),
            TyKind::Arc(e) => {
                let mut s = String::from_str("::std::sync::Arc<");
                let inner = self.rust_codegen_item_ty(&e.kind);
                s.append(inner.as_str());
                s.append(">");
                s
            },
        }
    }

    /// The Rust rendering of one argument.
    fn render_arg(&self, form: RustArgForm, st: ServiceType, a: &Arg) -> (r: String)
        ensures
            r@ == rust_arg_text(form, st, *a),
    {
        let scalar = a.ty.is_scalar();
        let mut s = a.snake_ident.clone();
        match form {
            RustArgForm::FfiParam => {
                if scalar {
                    let ty = self.rust_codegen_item_ty(&a.ty.kind);
                    s.append(": ");
                    s.append(ty.as_str());
                } else {
                    s.append(": ::fcplug::Buffer");
                }
                s
            },
            RustArgForm::FfiIdent => {
                if scalar {
                    s
                } else {
                    match st {
                        ServiceType::RustFfi => {
                            let mut r = String::from_str("::fcplug::RustFfiArg::from(");
                            r.append(s.as_str());
                            r.append(")");
                            r
                        },
                        ServiceType::GoFfi => {
                            let mut r = String::from_str("::fcplug::Buffer::from_vec(");
                            r.append(s.as_str());
                            r.append(".bytes)");
                            r
                        },
                    }
                }
            },
            RustArgForm::MethodArg => {
                let ty = self.rust_codegen_item_ty(&a.ty.kind);
                if scalar {
                    s.append(": ");
                    s.append(ty.as_str());
                } else {
                    match st {
                        ServiceType::RustFfi => {
                            s.append(": ::fcplug::RustFfiArg<");
                            s.append(ty.as_str());
                            s.append(">");
                        },
                        ServiceType::GoFfi => {
                            s.append(": ::fcplug::TBytes<");
                            s.append(ty.as_str());
                            s.append(">");
                        },
                    }
                }
                s
            },
        }
    }

    /// The Rust rendering of an argument list, joined with `", "`.
    fn render_args(&self, form: RustArgForm, st: ServiceType, args: &Vec<Arg>) -> (r: String)
        ensures
            r@ == rust_args_text(form, st, args@),
    {
        let ghost f = |a: Arg| rust_arg_text(form, st, a);
        let mut parts: Vec<String> = Vec::new();
        let n = args.len();
        let mut i: usize = 0;
        while i < n
            invariant
                n == args.len(),
                i <= n,
                f == (|a: Arg| rust_arg_text(form, st, a)),
                views(parts@) =~= args@.take(i as int).map_values(f),
            decreases n - i,
        {
            let s = self.render_arg(form, st, &args[i]);
            let ghost old_parts = parts@;
            parts.push(s);
            assert(views(parts@) =~= views(old_parts).push(s@));
            assert(args@.take(i + 1) =~= args@.take(i as int).push(args@[i as int]));
            assert(args@.take(i + 1).map_values(f) =~= args@.take(i as int).map_values(f).push(
                f(args@[i as int]),
            ));
            i = i + 1;
        }
        assert(args@.take(n as int) =~= args@);
        join(&parts, ", ")
    }

    /// The parameters of an `extern "C"` function for `method`.
    pub fn codegen_ffi_args_param(&self, st: ServiceType, method: &Method) -> (r: String)
        ensures
            r@ == rust_args_text(RustArgForm::FfiParam, st, method.args@),
    {
        self.render_args(RustArgForm::FfiParam, st, &method.args)
    }

    /// The arguments an `extern "C"` function hands to the trait method.
    pub fn codegen_ffi_args_ident(&self, st: ServiceType, method: &Method) -> (r: String)
        ensures
            r@ == rust_args_text(RustArgForm::FfiIdent, st, method.args@),
    {
        self.render_args(RustArgForm::FfiIdent, st, &method.args)
    }

    /// The parameters of the trait method for `method`.
    pub fn codegen_method_args(&self, st: ServiceType, method: &Method) -> (r: String)
        ensures
            r@ == rust_args_text(RustArgForm::MethodArg, st, method.args@),
    {
        self.render_args(RustArgForm::MethodArg, st, &method.args)
    }

    /// The return type of the trait method for `method`.
    pub fn codegen_method_ret(&self, st: ServiceType, method: &Method) -> (r: String)
        ensures
            r@ == rust_method_ret(st, method.ret.kind),
    {
        let ty_name = self.rust_codegen_item_ty(&method.ret.kind);
        if is_empty_ty(&method.ret.kind) {
            String::from_str("::fcplug::ABIResult<()>")
        } else if method.ret.is_scalar() {
            ty_name
        } else {
            match st {
                ServiceType::RustFfi => {
                    let mut s = String::from_str("::fcplug::ABIResult<::fcplug::TBytes<");
                    s.append(ty_name.as_str());
                    s.append(">>");
                    s
                },
                ServiceType::GoFfi => String::from_str("::fcplug::ABIResult<T>"),
            }
        }
    }

    /// The return type of the `extern "C"` function for `method`.
    pub fn codegen_ffi_ret(&self, st: ServiceType, method: &Method) -> (r: String)
        ensures
            r@ == rust_ffi_ret(st, method.ret.kind),
    {
        let ty_name = self.rust_codegen_item_ty(&method.ret.kind);
        if is_empty_ty(&method.ret.kind) {
            match st {
                ServiceType::RustFfi => String::from_str("::fcplug::RustFfiResult"),
                ServiceType::GoFfi => String::from_str("::fcplug::GoFfiResult"),
            }
        } else if method.ret.is_scalar() {
            ty_name
        } else {
            match st {
                ServiceType::RustFfi => String::from_str("::fcplug::RustFfiResult"),
                ServiceType::GoFfi => String::from_str("::fcplug::GoFfiResult"),
            }
        }
    }
}

/// The `RustFfi` trait method of `m`.
pub open spec fn rustffi_trait_method_text(st: ServiceType, m: MethodView) -> Seq<char> {
    spec_rustffi_trait_method(
        m.fn_ident,
        rust_args_text(RustArgForm::MethodArg, st, m.args),
        rust_method_ret(st, m.ret),
    )
}

/// The `extern "C"` function through which Go calls the `RustFfi` method `m`.
pub open spec fn rustffi_extern_fn_text(st: ServiceType, name: Seq<char>, ust: Seq<char>, m: MethodView) -> Seq<char> {
    spec_rustffi_extern_fn(
        lowercase(name),
        m.fn_ident,
        rust_args_text(RustArgForm::FfiParam, st, m.args),
        rust_ffi_ret(st, m.ret),
        ust,
        name,
        rust_args_text(RustArgForm::FfiIdent, st, m.args),
    )
}

/// The `extern "C"` functions of a `RustFfi` service, one per method.
pub open spec fn rustffi_service_text(st: ServiceType, name: Seq<char>, ust: Seq<char>, methods: Seq<MethodView>) -> Seq<char> {
    seq_join(methods.map_values(|m: MethodView| rustffi_extern_fn_text(st, name, ust, m)), "\n"@)
}

/// The `_set_result` trait method of the `GoFfi` method `m`; none where `m`
/// returns nothing.
pub open spec fn goffi_trait_method_text(st: ServiceType, m: MethodView) -> Option<Seq<char>> {
    if spec_is_empty_ty(m.ret) && !spec_is_scalar(m.ret) {
        None
    } else {
        Some(spec_goffi_set_result_trait_method(
            m.fn_ident,
            rust_ty_name(m.ret),
            rust_ffi_ret(st, m.ret),
        ))
    }
}

/// The `GoFfiCall` method that calls the Go function of `m`.
pub open spec fn goffi_call_trait_method_text(st: ServiceType, name: Seq<char>, m: MethodView) -> Seq<char> {
    spec_goffi_call_trait_method(
        m.fn_ident,
        if spec_is_empty_ty(m.ret) { Seq::empty() } else { "<T: Default>"@ },
        rust_args_text(RustArgForm::MethodArg, st, m.args),
        rust_method_ret(st, m.ret),
        lowercase(name),
        rust_args_text(RustArgForm::FfiIdent, st, m.args),
    )
}

/// The declaration of the Go-exported function of `m`.
pub open spec fn goffi_extern_decl_text(st: ServiceType, name: Seq<char>, m: MethodView) -> Seq<char> {
    spec_goffi_extern_decl(
        lowercase(name),
        m.fn_ident,
        rust_args_text(RustArgForm::FfiParam, st, m.args),
        rust_ffi_ret(st, m.ret),
    )
}

/// The `extern "C"` function through which Go hands the result of `m` back.
pub open spec fn goffi_set_result_fn_text(st: ServiceType, name: Seq<char>, ust: Seq<char>, m: MethodView) -> Seq<char> {
    spec_goffi_set_result_fn(
        lowercase(name),
        m.fn_ident + "_set_result"@,
        rust_ffi_ret(st, m.ret),
        ust,
        name,
    )
}

/// Whether `m` returns a value that crosses the boundary as a buffer.
pub open spec fn has_buffer_ret(m: MethodView) -> bool {
    !spec_is_scalar(m.ret)
}

/// The Rust side of a `GoFfi` service: the `#[link]` block that declares the
/// Go functions, then one `_set_result` function per method that returns a
/// buffer.
pub open spec fn goffi_service_text(
    st: ServiceType,
    name: Seq<char>,
    ust: Seq<char>,
    link_name: Seq<char>,
    link_kind: Seq<char>,
    methods: Seq<MethodView>,
) -> Seq<char> {
    spec_goffi_link_block(
        link_name,
        link_kind,
        seq_join(methods.map_values(|m: MethodView| goffi_extern_decl_text(st, name, m)), "\n"@),
    ) + seq_join(
        methods.filter(|m: MethodView| has_buffer_ret(m)).map_values(
            |m: MethodView| goffi_set_result_fn_text(st, name, ust, m),
        ),
        "\n"@,
    )
}

impl RustGeneratorBackend {
    /// The `RustFfi` trait method of `method`.
    pub fn codegen_rustffi_trait_method(&self, st: ServiceType, method: &Method) -> (r: Option<String>)
        ensures
            r matches Some(t) && t@ == rustffi_trait_method_text(st, method@),
    {
        let args = self.codegen_method_args(st, method);
        let ret = self.codegen_method_ret(st, method);
        Some(rustffi_trait_method(method.fn_ident.as_str(), args.as_str(), ret.as_str()))
    }

    /// The `extern "C"` function of one `RustFfi` method.
    fn rustffi_extern_fn_of(&self, st: ServiceType, name: &str, method: &Method) -> (r: String)
        ensures
            r@ == rustffi_extern_fn_text(st, name@, self.config.rust_mod_impl_name@, method@),
    {
        let name_lower = to_lowercase(name);
        let args = self.codegen_ffi_args_param(st, method);
        let args_ident = self.codegen_ffi_args_ident(st, method);
        let ret = self.codegen_ffi_ret(st, method);
        rustffi_extern_fn(
            name_lower.as_str(),
            method.fn_ident.as_str(),
            args.as_str(),
            ret.as_str(),
            self.config.rust_mod_impl_name.as_str(),
            name,
            args_ident.as_str(),
        )
    }

    /// Appends to `stream` the `extern "C"` functions through which Go calls
    /// the methods of the `RustFfi` service `s`, joined with newlines.
    pub fn codegen_rustffi_service_impl(&self, st: ServiceType, stream: &mut String, s: &Service)
        ensures
            final(stream)@ == old(stream)@ + rustffi_service_text(
                st,
                s@.rust_name,
                self.config.rust_mod_impl_name@,
                s@.methods,
            ),
    {
        let ghost ust = self.config.rust_mod_impl_name@;
        let ghost f = |m: MethodView| rustffi_extern_fn_text(st, s@.rust_name, ust, m);
        let mut parts: Vec<String> = Vec::new();
        let n = s.methods.len();
        let mut i: usize = 0;
        while i < n
            invariant
                n == s.methods.len(),
                i <= n,
                ust == self.config.rust_mod_impl_name@,
                f == (|m: MethodView| rustffi_extern_fn_text(st, s@.rust_name, ust, m)),
                views(parts@) =~= s@.methods.take(i as int).map_values(f),
            decreases n - i,
        {
            let t = self.rustffi_extern_fn_of(st, s.rust_name.as_str(), &s.methods[i]);
            let ghost old_parts = parts@;
            parts.push(t);
            assert(views(parts@) =~= views(old_parts).push(t@));
            assert(s@.methods.take(i + 1) =~= s@.methods.take(i as int).push(s@.methods[i as int]));
            i = i + 1;
        }
        assert(s@.methods.take(n as int) =~= s@.methods);
        let text = join(&parts, "\n");
        stream.append(text.as_str());
    }

    /// The `_set_result` trait method of the `GoFfi` method `method`; none
    /// where it returns nothing.
    pub fn codegen_goffi_trait_method(&self, st: ServiceType, method: &Method) -> (r: Option<String>)
        ensures
            r.is_some() == goffi_trait_method_text(st, method@).is_some(),
            r matches Some(t) ==> goffi_trait_method_text(st, method@) == Some(t@),
    {
        if is_empty_ty(&method.ret.kind) && !method.ret.is_scalar() {
            return None;
        }
        let ffi_ret = self.codegen_ffi_ret(st, method);
        let ret_ty_name = self.rust_codegen_item_ty(&method.ret.kind);
        Some(goffi_set_result_trait_method(
            method.fn_ident.as_str(),
            ret_ty_name.as_str(),
            ffi_ret.as_str(),
        ))
    }

    /// The `GoFfiCall` method that calls the Go function of `method`.
    pub fn codegen_goffi_call_trait_method(&self, st: ServiceType, name: &str, method: &Method) -> (r: Option<String>)
        ensures
            r matches Some(t) && t@ == goffi_call_trait_method_text(st, name@, method@),
    {
        let name_lower = to_lowercase(name);
        let args = self.codegen_method_args(st, method);
        let ret = self.codegen_method_ret(st, method);
        let generic_signature = if is_empty_ty(&method.ret.kind) {
            String::new()
        } else {
            String::from_str("<T: Default>")
        };
        let args_ident = self.codegen_ffi_args_ident(st, method);
        Some(goffi_call_trait_method(
            method.fn_ident.as_str(),
            generic_signature.as_str(),
            args.as_str(),
            ret.as_str(),
            name_lower.as_str(),
            args_ident.as_str(),
        ))
    }

    /// The declarations of the Go-exported functions of the service `s`.
    pub(crate) fn goffi_extern_decls(&self, st: ServiceType, s: &Service) -> (r: String)
        ensures
            r@ == seq_join(
                s@.methods.map_values(|m: MethodView| goffi_extern_decl_text(st, s@.rust_name, m)),
                "\n"@,
            ),
    {
        let ghost f = |m: MethodView| goffi_extern_decl_text(st, s@.rust_name, m);
        let name_lower = to_lowercase(s.rust_name.as_str());
        let mut parts: Vec<String> = Vec::new();
        let n = s.methods.len();
        let mut i: usize = 0;
        while i < n
            invariant
                n == s.methods.len(),
                i <= n,
                name_lower@ == lowercase(s@.rust_name),
                f == (|m: MethodView| goffi_extern_decl_text(st, s@.rust_name, m)),
                views(parts@) =~= s@.methods.take(i as int).map_values(f),
            decreases n - i,
        {
            let method = &s.methods[i];
            let args = self.codegen_ffi_args_param(st, method);
            let ret = self.codegen_ffi_ret(st, method);
            let t = goffi_extern_decl(
                name_lower.as_str(),
                method.fn_ident.as_str(),
                args.as_str(),
                ret.as_str(),
            );
            let ghost old_parts = parts@;
            parts.push(t);
            assert(views(parts@) =~= views(old_parts).push(t@));
            assert(s@.methods.take(i + 1) =~= s@.methods.take(i as int).push(s@.methods[i as int]));
            i = i + 1;
        }
        assert(s@.methods.take(n as int) =~= s@.methods);
        join(&parts, "\n")
    }

    /// The `_set_result` functions of the methods of `s` that return a buffer.
    pub(crate) fn goffi_set_result_fns(&self, st: ServiceType, s: &Service) -> (r: String)
        ensures
            r@ == seq_join(
                s@.methods.filter(|m: MethodView| has_buffer_ret(m)).map_values(
                    |m: MethodView| goffi_set_result_fn_text(st, s@.rust_name, self.config.rust_mod_impl_name@, m),
                ),
                "\n"@,
            ),
    {
        let ghost ust = self.config.rust_mod_impl_name@;
        let ghost p = |m: MethodView| has_buffer_ret(m);
        let ghost f = |m: MethodView| goffi_set_result_fn_text(st, s@.rust_name, ust, m);
        let name_lower = to_lowercase(s.rust_name.as_str());
        let mut parts: Vec<String> = Vec::new();
        let n = s.methods.len();
        let mut i: usize = 0;
        while i < n
            invariant
                n == s.methods.len(),
                i <= n,
                ust == self.config.rust_mod_impl_name@,
                name_lower@ == lowercase(s@.rust_name),
                p == (|m: MethodView| has_buffer_ret(m)),
                f == (|m: MethodView| goffi_set_result_fn_text(st, s@.rust_name, ust, m)),
                views(parts@) =~= s@.methods.take(i as int).filter(p).map_values(f),
            decreases n - i,
        {
            let method = &s.methods[i];
            assert(s@.methods.take(i + 1).drop_last() =~= s@.methods.take(i as int));
            assert(s@.methods.take(i + 1).last() == s@.methods[i as int]);
            reveal(Seq::filter);
            if !method.ret.is_scalar() {
                let mut fn_name = method.fn_ident.clone();
                fn_name.append("_set_result");
                let ret = self.codegen_ffi_ret(st, method);
                let t = goffi_set_result_fn(
                    name_lower.as_str(),
                    fn_name.as_str(),
                    ret.as_str(),
                    self.config.rust_mod_impl_name.as_str(),
                    s.rust_name.as_str(),
                );
                let ghost old_parts = parts@;
                parts.push(t);
                assert(views(parts@) =~= views(old_parts).push(t@));
            }
            i = i + 1;
        }
        assert(s@.methods.take(n as int) =~= s@.methods);
        join(&parts, "\n")
    }

    /// Appends to `stream` the Rust side of the `GoFfi` service `s`: the
    /// `#[link]` block that declares the Go-exported functions, then the
    /// `_set_result` functions of the methods that return a buffer.
    pub fn codegen_goffi_service_impl(&self, st: ServiceType, stream: &mut String, s: &Service)
        ensures
            final(stream)@ == old(stream)@ + goffi_service_text(
                st,
                s@.rust_name,
                self.config.rust_mod_impl_name@,
                self.config.go_clib_name_base@,
                self.config.rustc_link_kind_goffi@,
                s@.methods,
            ),
    {
        let ffi_fns = self.goffi_extern_decls(st, s);
        let block = goffi_link_block(
            self.config.go_clib_name_base.as_str(),
            self.config.rustc_link_kind_goffi.as_str(),
            ffi_fns.as_str(),
        );
        stream.append(block.as_str());
        let store_fns = self.goffi_set_result_fns(st, s);
        stream.append(store_fns.as_str());
    }
}

} // verus!
