//! The backend that writes the Rust and Go code of each service.
use vstd::prelude::*;
use crate::build::ir::{
    Arg, Message, Method, MethodView, Service, ServiceView, Ty, TyKind, copy_arg, copy_ty,
};
use crate::build::generator::{
    CodegenConfig, GenMode, GoGeneratorBackend, RustGeneratorBackend, ServiceType, is_empty_ty,
    service_type, spec_is_empty_ty, spec_service_type,
};
use crate::build::rust_gen::{
    goffi_call_trait_method_text, goffi_service_text, goffi_trait_method_text,
    rustffi_service_text, rustffi_trait_method_text,
};
use crate::build::go_gen::{
    go_struct_text, goffi_go_service_text, goffi_iface_method_text, rustffi_iface_method_text,
};
use crate::build::templates::{
    goffi_call_trait, goffi_go_block, goffi_go_unimplemented_method, rustffi_go_block,
    rustffi_go_impl_method, service_trait, service_trait_impl, spec_goffi_call_trait,
    spec_goffi_go_block, spec_goffi_go_unimplemented_method, spec_rustffi_go_block,
    spec_rustffi_go_impl_method, spec_rustffi_go_runtime, spec_service_trait,
    spec_service_trait_impl,
};
use crate::text::{concat, join, seq_concat, seq_join, views};

verus! {

/// The arguments of a method that carry data: those of an empty type are dropped.
pub open spec fn fixed_args(args: Seq<Arg>) -> Seq<Arg> {
    args.filter(|a: Arg| !spec_is_empty_ty(a.ty.kind))
}

/// The return type of a method with an empty type replaced by the void type.
pub open spec fn fixed_ret(k: TyKind) -> TyKind {
    if spec_is_empty_ty(k) {
        TyKind::Void
    } else {
        k
    }
}

/// A method whose empty arguments are dropped and whose empty return type is void.
pub open spec fn fixed_method(m: MethodView) -> MethodView {
    MethodView {
        name: m.name,
        fn_ident: m.fn_ident,
        upper_camel_ident: m.upper_camel_ident,
        args: fixed_args(m.args),
        ret: fixed_ret(m.ret),
    }
}

/// The present values of a list of options, in order.
pub open spec fn somes(list: Seq<Option<Seq<char>>>) -> Seq<Seq<char>>
    decreases list.len(),
{
    if list.len() == 0 {
        Seq::empty()
    } else {
        match list.last() {
            Some(t) => somes(list.drop_last()).push(t),
            None => somes(list.drop_last()),
        }
    }
}

/// The non-empty strings of a list, in order.
pub open spec fn non_empty(list: Seq<Seq<char>>) -> Seq<Seq<char>> {
    list.filter(|t: Seq<char>| t.len() > 0)
}

/// The trait methods of a service, by kind.
pub open spec fn trait_method_texts(st: ServiceType, methods: Seq<MethodView>) -> Seq<Seq<char>> {
    match st {
        ServiceType::RustFfi => methods.map_values(|m: MethodView| rustffi_trait_method_text(st, m)),
        ServiceType::GoFfi => somes(methods.map_values(|m: MethodView| goffi_trait_method_text(st, m))),
    }
}

/// The text of the Rust trait of a service and of its default implementation:
/// each method followed by `;` or by a `todo!()` body.
pub open spec fn rust_trait_texts(st: ServiceType, name: Seq<char>, ust: Seq<char>, methods: Seq<MethodView>) -> (Seq<char>, Seq<char>) {
    let list = non_empty(trait_method_texts(st, methods)).push(Seq::empty());
    (
        spec_service_trait(name, seq_join(list, ";\n"@)),
        spec_service_trait_impl(name, ust, seq_join(list, " { todo!() }\n"@)),
    )
}

/// What the backend adds for a service: the Rust module code, the Rust
/// implementation stub, the Go package code and the Go `main` package code.
pub struct ServiceOutput {
    pub rust_code: String,
    pub rust_mod_impl_code: String,
    pub go_lib_code: String,
    pub go_main_code: String,
}

/// The Rust module code of a service, after the code of its codec.
pub open spec fn service_rust_code(
    st: ServiceType,
    cfg: CodegenConfig,
    name: Seq<char>,
    methods: Seq<MethodView>,
) -> Seq<char> {
    let ust = cfg.rust_mod_impl_name@;
    rust_trait_texts(st, name, ust, methods).0 + match st {
        ServiceType::RustFfi => rustffi_service_text(st, name, ust, methods),
        ServiceType::GoFfi => spec_goffi_call_trait(
            name,
            seq_concat(methods.map_values(|m: MethodView| goffi_call_trait_method_text(st, name, m) + "\n"@)),
        ) + goffi_service_text(
            st,
            name,
            ust,
            cfg.go_clib_name_base@,
            cfg.rustc_link_kind_goffi@,
            methods,
        ),
    }
}

/// The methods of the Go `RustFfi` interface, each with the body of its
/// implementation; none without a codec.
pub open spec fn rustffi_go_entries(cfg: CodegenConfig, name: Seq<char>, methods: Seq<MethodView>) -> Seq<(Seq<char>, Seq<char>)> {
    match cfg.gen_mode {
        GenMode::Codec => methods.map_values(
            |m: MethodView| rustffi_iface_method_text(cfg.gomod_name@, name, m),
        ),
        GenMode::NoCodec => Seq::empty(),
    }
}

/// The methods of the Go `GoFfi` interface; none without a codec.
pub open spec fn goffi_go_entries(cfg: CodegenConfig, methods: Seq<MethodView>) -> Seq<Seq<char>> {
    match cfg.gen_mode {
        GenMode::Codec => methods.map_values(|m: MethodView| goffi_iface_method_text(cfg.gomod_name@, m)),
        GenMode::NoCodec => Seq::empty(),
    }
}

/// The Go code of a `RustFfi` service: its interface, the implementation of
/// the interface, and the runtime support; the last two are empty without a codec.
pub open spec fn rustffi_go_text(cfg: CodegenConfig, name: Seq<char>, methods: Seq<MethodView>) -> Seq<char> {
    let entries = rustffi_go_entries(cfg, name, methods);
    spec_rustffi_go_block(
        seq_concat(entries.map_values(|e: (Seq<char>, Seq<char>)| e.0 + "\n"@)),
        seq_concat(
            entries.map_values(|e: (Seq<char>, Seq<char>)| spec_rustffi_go_impl_method(e.0, e.1)),
        ),
    ) + match cfg.gen_mode {
        GenMode::Codec => spec_rustffi_go_runtime(),
        GenMode::NoCodec => Seq::empty(),
    }
}

/// The Go `main` package code of a `GoFfi` service: its interface, the
/// unimplemented stub, and the exported functions; empty parts without a codec.
pub open spec fn goffi_go_text(cfg: CodegenConfig, name: Seq<char>, methods: Seq<MethodView>) -> Seq<char> {
    let entries = goffi_go_entries(cfg, methods);
    spec_goffi_go_block(
        seq_concat(entries.map_values(|e: Seq<char>| e + "\n"@)),
        seq_concat(entries.map_values(|e: Seq<char>| spec_goffi_go_unimplemented_method(e))),
    ) + match cfg.gen_mode {
        GenMode::Codec => goffi_go_service_text(cfg.gomod_name@, name, methods),
        GenMode::NoCodec => Seq::empty(),
    }
}

/// The backend that writes, for each service, its Rust and Go code.
pub struct GeneratorBackend {
    pub config: CodegenConfig,
    pub rust: RustGeneratorBackend,
    pub go: GoGeneratorBackend,
}

impl GeneratorBackend {
    /// Both language backends work with the backend's configuration.
    pub open spec fn wf(&self) -> bool {
        self.rust.config == self.config && self.go.config == self.config
    }

    /// A backend for `config`.
    pub fn new(config: CodegenConfig) -> (r: GeneratorBackend)
        ensures
            r.wf(),
            r.config == config,
    {
        let rust = RustGeneratorBackend { config: config.copy() };
        let go = GoGeneratorBackend { config: config.copy() };
        GeneratorBackend { config, rust, go }
    }

    /// `method` with its arguments of an empty type dropped and an empty
    /// return type replaced by the void type.
    pub fn fix_empty_params(&self, method: &Method) -> (r: Method)
        ensures
            r@ == fixed_method(method@),
    {
        let ghost p = |a: Arg| !spec_is_empty_ty(a.ty.kind);
        let mut args: Vec<Arg> = Vec::new();
        let n = method.args.len();
        let mut i: usize = 0;
        while i < n
            invariant
                n == method.args.len(),
                i <= n,
                p == (|a: Arg| !spec_is_empty_ty(a.ty.kind)),
                args@ =~= method.args@.take(i as int).filter(p),
            decreases n - i,
        {
            assert(method.args@.take(i + 1).drop_last() =~= method.args@.take(i as int));
            reveal(Seq::filter);
            let arg = &method.args[i];
            if !is_empty_ty(&arg.ty.kind) {
                args.push(copy_arg(arg));
            }
            i = i + 1;
        }
        assert(method.args@.take(n as int) =~= method.args@);
        let ret = if is_empty_ty(&method.ret.kind) {
            Ty { kind: TyKind::Void }
        } else {
            copy_ty(&method.ret)
        };
        Method {
            name: method.name.clone(),
            fn_ident: method.fn_ident.clone(),
            upper_camel_ident: method.upper_camel_ident.clone(),
            args,
            ret,
        }
    }

    /// `s` with each method fixed by `fix_empty_params`.
    pub fn fix_service(&self, s: &Service) -> (r: Service)
        ensures
            r@.rust_name == s@.rust_name,
            r@.methods == s@.methods.map_values(|m: MethodView| fixed_method(m)),
    {
        let mut methods: Vec<Method> = Vec::new();
        let n = s.methods.len();
        let mut i: usize = 0;
        while i < n
            invariant
                n == s.methods.len(),
                i <= n,
                methods@.map_values(|m: Method| m@) =~= s@.methods.take(i as int).map_values(
                    |m: MethodView| fixed_method(m),
                ),
            decreases n - i,
        {
            let m = self.fix_empty_params(&s.methods[i]);
            let ghost old_methods = methods@;
            methods.push(m);
            assert(methods@.map_values(|m: Method| m@) =~= old_methods.map_values(|m: Method| m@).push(
                m@,
            ));
            assert(s@.methods.take(i + 1) =~= s@.methods.take(i as int).push(s@.methods[i as int]));
            assert(s@.methods[i as int] == s.methods@[i as int]@);
            i = i + 1;
        }
        let r = Service { rust_name: s.rust_name.clone(), methods };
        assert(s@.methods.take(n as int) =~= s@.methods);
        r
    }

    /// The trait methods of the (fixed) service `s` of kind `st`.
    fn trait_methods(&self, st: ServiceType, s: &Service) -> (r: Vec<String>)
        requires
            self.wf(),
        ensures
            views(r@) == trait_method_texts(st, s@.methods),
    {
        let mut out: Vec<String> = Vec::new();
        let n = s.methods.len();
        let mut i: usize = 0;
        while i < n
            invariant
                self.wf(),
                n == s.methods.len(),
                i <= n,
                views(out@) =~= trait_method_texts(st, s@.methods.take(i as int)),
            decreases n - i,
        {
            let method = &s.methods[i];
            let ghost prev = s@.methods.take(i as int);
            let ghost next = s@.methods.take(i + 1);
            assert(next =~= prev.push(method@));
            let ghost old_out = out@;
            match st {
                ServiceType::RustFfi => {
                    if let Some(code) = self.rust.codegen_rustffi_trait_method(st, method) {
                        out.push(code);
                    }
                    assert(next.map_values(|m: MethodView| rustffi_trait_method_text(st, m))
                        =~= prev.map_values(|m: MethodView| rustffi_trait_method_text(st, m)).push(
                        rustffi_trait_method_text(st, method@),
                    ));
                },
                ServiceType::GoFfi => {
                    let code = self.rust.codegen_goffi_trait_method(st, method);
                    if let Some(code) = code {
                        out.push(code);
                    }
                    assert(next.map_values(|m: MethodView| goffi_trait_method_text(st, m)).drop_last()
                        =~= prev.map_values(|m: MethodView| goffi_trait_method_text(st, m)));
                },
            }
            assert(views(out@) =~= trait_method_texts(st, next)) by {
                if out@.len() > old_out.len() {
                    assert(views(out@) =~= views(old_out).push(out@.last()@));
                }
            }
            i = i + 1;
        }
        assert(s@.methods.take(n as int) =~= s@.methods);
        out
    }

    /// The non-empty strings of `list`, in order.
    fn keep_non_empty(list: &Vec<String>) -> (r: Vec<String>)
        ensures
            views(r@) == non_empty(views(list@)),
    {
        let ghost p = |t: Seq<char>| t.len() > 0;
        let ghost vs = views(list@);
        let mut out: Vec<String> = Vec::new();
        let n = list.len();
        let mut i: usize = 0;
        while i < n
            invariant
                n == list.len(),
                i <= n,
                vs == views(list@),
                p == (|t: Seq<char>| t.len() > 0),
                views(out@) =~= vs.take(i as int).filter(p),
            decreases n - i,
        {
            assert(vs.take(i + 1).drop_last() =~= vs.take(i as int));
            reveal(Seq::filter);
            let t = &list[i];
            if !t.as_str().is_empty() {
                let ghost old_out = out@;
                out.push(t.clone());
                assert(views(out@) =~= views(old_out).push(t@));
            }
            i = i + 1;
        }
        assert(vs.take(n as int) =~= vs);
        out
    }

    /// The methods of the `GoFfiCall` trait of the (fixed) service `s`, each
    /// followed by a newline.
    fn call_methods(&self, st: ServiceType, s: &Service) -> (r: String)
        requires
            self.wf(),
        ensures
            r@ == seq_concat(
                s@.methods.map_values(|m: MethodView| goffi_call_trait_method_text(st, s@.rust_name, m) + "\n"@),
            ),
    {
        let ghost f = |m: MethodView| goffi_call_trait_method_text(st, s@.rust_name, m) + "\n"@;
        let mut parts: Vec<String> = Vec::new();
        let n = s.methods.len();
        let mut i: usize = 0;
        while i < n
            invariant
                self.wf(),
                n == s.methods.len(),
                i <= n,
                f == (|m: MethodView| goffi_call_trait_method_text(st, s@.rust_name, m) + "\n"@),
                views(parts@) =~= s@.methods.take(i as int).map_values(f),
            decreases n - i,
        {
            let method = &s.methods[i];
            if let Some(code) = self.rust.codegen_goffi_call_trait_method(st, s.rust_name.as_str(), method) {
                let mut code = code;
                code.append("\n");
                let ghost old_parts = parts@;
                parts.push(code);
                assert(views(parts@) =~= views(old_parts).push(code@));
            }
            assert(s@.methods.take(i + 1) =~= s@.methods.take(i as int).push(s@.methods[i as int]));
            i = i + 1;
        }
        assert(s@.methods.take(n as int) =~= s@.methods);
        concat(&parts)
    }

    /// The Go package code of the (fixed) `RustFfi` service `s`.
    fn rustffi_go_code(&self, s: &Service) -> (r: String)
        requires
            self.wf(),
        ensures
            r@ == rustffi_go_text(self.config, s@.rust_name, s@.methods),
    {
        let ghost cfg = self.config;
        let ghost name = s@.rust_name;
        let ghost fi = |e: (Seq<char>, Seq<char>)| e.0 + "\n"@;
        let ghost fm = |e: (Seq<char>, Seq<char>)| spec_rustffi_go_impl_method(e.0, e.1);
        let mut ifaces: Vec<String> = Vec::new();
        let mut impls: Vec<String> = Vec::new();
        let n = s.methods.len();
        let mut i: usize = 0;
        while i < n
            invariant
                self.wf(),
                cfg == self.config,
                name == s@.rust_name,
                n == s.methods.len(),
                i <= n,
                fi == (|e: (Seq<char>, Seq<char>)| e.0 + "\n"@),
                fm == (|e: (Seq<char>, Seq<char>)| spec_rustffi_go_impl_method(e.0, e.1)),
                views(ifaces@) =~= rustffi_go_entries(cfg, name, s@.methods.take(i as int)).map_values(fi),
                views(impls@) =~= rustffi_go_entries(cfg, name, s@.methods.take(i as int)).map_values(fm),
            decreases n - i,
        {
            let method = &s.methods[i];
            let ghost prev = s@.methods.take(i as int);
            let ghost next = s@.methods.take(i + 1);
            assert(next =~= prev.push(method@));
            let entry = self.go.codegen_rustffi_iface_method(s.rust_name.as_str(), method);
            if let Some((iface_method, impl_method)) = entry {
                let impl_text = rustffi_go_impl_method(iface_method.as_str(), impl_method.as_str());
                let mut line = iface_method;
                line.append("\n");
                let ghost old_ifaces = ifaces@;
                let ghost old_impls = impls@;
                ifaces.push(line);
                impls.push(impl_text);
                assert(views(ifaces@) =~= views(old_ifaces).push(line@));
                assert(views(impls@) =~= views(old_impls).push(impl_text@));
            }
            proof {
                if cfg.gen_mode == GenMode::Codec {
                    assert(rustffi_go_entries(cfg, name, next) =~= rustffi_go_entries(cfg, name, prev).push(
                        rustffi_iface_method_text(cfg.gomod_name@, name, method@),
                    ));
                }
            }
            i = i + 1;
        }
        assert(s@.methods.take(n as int) =~= s@.methods);
        let iface_methods = concat(&ifaces);
        let impl_methods = concat(&impls);
        let mut r = rustffi_go_block(iface_methods.as_str(), impl_methods.as_str());
        let runtime = self.go.codegen_rustffi_service_impl();
        r.append(runtime.as_str());
        r
    }

    /// The Go `main` package code of the (fixed) `GoFfi` service `s`.
    fn goffi_go_code(&self, s: &Service) -> (r: String)
        requires
            self.wf(),
        ensures
            r@ == goffi_go_text(self.config, s@.rust_name, s@.methods),
    {
        let ghost cfg = self.config;
        let ghost fi = |e: Seq<char>| e + "\n"@;
        let ghost fm = |e: Seq<char>| spec_goffi_go_unimplemented_method(e);
        let mut ifaces: Vec<String> = Vec::new();
        let mut impls: Vec<String> = Vec::new();
        let n = s.methods.len();
        let mut i: usize = 0;
        while i < n
            invariant
                self.wf(),
                cfg == self.config,
                n == s.methods.len(),
                i <= n,
                fi == (|e: Seq<char>| e + "\n"@),
                fm == (|e: Seq<char>| spec_goffi_go_unimplemented_method(e)),
                views(ifaces@) =~= goffi_go_entries(cfg, s@.methods.take(i as int)).map_values(fi),
                views(impls@) =~= goffi_go_entries(cfg, s@.methods.take(i as int)).map_values(fm),
            decreases n - i,
        {
            let method = &s.methods[i];
            let ghost prev = s@.methods.take(i as int);
            let ghost next = s@.methods.take(i + 1);
            assert(next =~= prev.push(method@));
            if let Some(m) = self.go.codegen_goffi_iface_method(method) {
                let impl_text = goffi_go_unimplemented_method(m.as_str());
                let mut line = m;
                line.append("\n");
                let ghost old_ifaces = ifaces@;
                let ghost old_impls = impls@;
                ifaces.push(line);
                impls.push(impl_text);
                assert(views(ifaces@) =~= views(old_ifaces).push(line@));
                assert(views(impls@) =~= views(old_impls).push(impl_text@));
            }
            proof {
                if cfg.gen_mode == GenMode::Codec {
                    assert(goffi_go_entries(cfg, next) =~= goffi_go_entries(cfg, prev).push(
                        goffi_iface_method_text(cfg.gomod_name@, method@),
                    ));
                }
            }
            i = i + 1;
        }
        assert(s@.methods.take(n as int) =~= s@.methods);
        let iface_body = concat(&ifaces);
        let impl_methods = concat(&impls);
        let mut r = goffi_go_block(iface_body.as_str(), impl_methods.as_str());
        let glue = self.go.codegen_goffi_service_impl(s);
        r.append(glue.as_str());
        r
    }

    /// The code that the service `s` adds to the generated files, after the
    /// code of its message codec. Each method is first fixed by
    /// `fix_empty_params`. Then:
    /// - the Rust module gets the service trait (each method followed by
    ///   `;`), and, for `RustFfi`, the `extern "C"` functions through which Go
    ///   calls Rust; for `GoFfi`, the `GoFfiCall` trait, the `#[link]` block
    ///   and the `_set_result` functions;
    /// - the Rust implementation stub gets an implementation of the trait whose
    ///   methods are `todo!()`;
    /// - the Go package gets, for `RustFfi`, the interface, its implementation
    ///   and the runtime support;
    /// - the Go `main` package gets, for `GoFfi`, the interface, the
    ///   unimplemented stub and the exported functions.
    ///
    /// A service whose name is neither `RustFFI` nor `GoFFI` (in any case)
    /// gives `None`.
    pub fn codegen_service_impl(&self, s: &Service) -> (r: Option<ServiceOutput>)
        requires
            self.wf(),
        ensures
            spec_service_type(s@.rust_name) is None ==> r is None,
            spec_service_type(s@.rust_name) matches Some(st) ==> r matches Some(o) && {
                let methods = s@.methods.map_values(|m: MethodView| fixed_method(m));
                let name = s@.rust_name;
                &&& o.rust_code@ == service_rust_code(st, self.config, name, methods)
                &&& o.rust_mod_impl_code@ == rust_trait_texts(
                    st,
                    name,
                    self.config.rust_mod_impl_name@,
                    methods,
                ).1
                &&& o.go_lib_code@ == match st {
                    ServiceType::RustFfi => rustffi_go_text(self.config, name, methods),
                    ServiceType::GoFfi => Seq::empty(),
                }
                &&& o.go_main_code@ == match st {
                    ServiceType::RustFfi => Seq::empty(),
                    ServiceType::GoFfi => goffi_go_text(self.config, name, methods),
                }
            },
    {
        let st = match service_type(s.rust_name.as_str()) {
            Some(st) => st,
            None => return None,
        };
        let fs = self.fix_service(s);
        let name = fs.rust_name.as_str();
        let ust = self.config.rust_mod_impl_name.as_str();
        let methods = self.trait_methods(st, &fs);
        let mut methods = Self::keep_non_empty(&methods);
        let ghost kept = views(methods@);
        methods.push(String::new());
        assert(views(methods@) =~= kept.push(Seq::empty()));
        let trait_methods = join(&methods, ";\n");
        let impl_trait_methods = join(&methods, " { todo!() }\n");
        let mut rust_code = service_trait(name, trait_methods.as_str());
        let rust_mod_impl_code = service_trait_impl(name, ust, impl_trait_methods.as_str());
        let mut go_lib_code = String::new();
        let mut go_main_code = String::new();
        match st {
            ServiceType::RustFfi => {
                self.rust.codegen_rustffi_service_impl(st, &mut rust_code, &fs);
                let code = self.rustffi_go_code(&fs);
                go_lib_code.append(code.as_str());
            },
            ServiceType::GoFfi => {
                let call_methods = self.call_methods(st, &fs);
                let call_trait = goffi_call_trait(name, call_methods.as_str());
                rust_code.append(call_trait.as_str());
                self.rust.codegen_goffi_service_impl(st, &mut rust_code, &fs);
                let code = self.goffi_go_code(&fs);
                go_main_code.append(code.as_str());
            },
        }
        Some(ServiceOutput { rust_code, rust_mod_impl_code, go_lib_code, go_main_code })
    }

    /// The Go struct type that a message adds to the Go package, after the
    /// code of its codec.
    pub fn codegen_struct_impl(&self, message: &Message) -> (r: String)
        requires
            self.wf(),
        ensures
            r@ == match self.config.gen_mode {
                GenMode::Codec => Seq::empty(),
                GenMode::NoCodec => go_struct_text(self.config.gomod_name@, *message),
            },
    {
        self.go.codegen_struct_type(message)
    }
}

} // verus!
