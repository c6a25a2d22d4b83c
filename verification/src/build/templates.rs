//! The text templates of the generated Rust and Go files.
//!
//! Each template is a spec function that states the text, and an executable
//! function that builds it from its parts.
use vstd::prelude::*;

verus! {

/// A method of the `RustFfi` trait.
pub open spec fn spec_rustffi_trait_method(method_name: Seq<char>, args: Seq<char>, ret: Seq<char>) -> Seq<char> {
    "fn "@ + method_name + "("@ + args + ") -> "@ + ret
}

/// A method of the `RustFfi` trait.
pub fn rustffi_trait_method(method_name: &str, args: &str, ret: &str) -> (r: String)
    ensures
        r@ == spec_rustffi_trait_method(method_name@, args@, ret@),
{
    let mut r = String::from_str("fn ");
    r.append(method_name);
    r.append("(");
    r.append(args);
    r.append(") -> ");
    r.append(ret);
    r
}

/// The `extern "C"` function through which Go calls a `RustFfi` method.
pub open spec fn spec_rustffi_extern_fn(name_lower: Seq<char>, fn_name: Seq<char>, args: Seq<char>, ret: Seq<char>, ust: Seq<char>, name: Seq<char>, args_ident: Seq<char>) -> Seq<char> {
    "#[no_mangle]\n                #[inline]\n                pub extern \"C\" fn "@ + name_lower + "_"@ + fn_name + "("@ + args + ") -> "@ + ret + " {\n                    "@ + ret + "::from(<"@ + ust + " as "@ + name + ">::"@ + fn_name + "("@ + args_ident + "))\n                }\n                "@
}

/// The `extern "C"` function through which Go calls a `RustFfi` method.
pub fn rustffi_extern_fn(name_lower: &str, fn_name: &str, args: &str, ret: &str, ust: &str, name: &str, args_ident: &str) -> (r: String)
    ensures
        r@ == spec_rustffi_extern_fn(name_lower@, fn_name@, args@, ret@, ust@, name@, args_ident@),
{
    let mut r = String::from_str("#[no_mangle]\n                #[inline]\n                pub extern \"C\" fn ");
    r.append(name_lower);
    r.append("_");
    r.append(fn_name);
    r.append("(");
    r.append(args);
    r.append(") -> ");
    r.append(ret);
    r.append(" {\n                    ");
    r.append(ret);
    r.append("::from(<");
    r.append(ust);
    r.append(" as ");
    r.append(name);
    r.append(">::");
    r.append(fn_name);
    r.append("(");
    r.append(args_ident);
    r.append("))\n                }\n                ");
    r
}

/// The trait method that takes the result of a `GoFfi` call back.
pub open spec fn spec_goffi_set_result_trait_method(method_name: Seq<char>, ret_ty_name: Seq<char>, ffi_ret: Seq<char>) -> Seq<char> {
    "unsafe fn "@ + method_name + "_set_result(go_ret: ::fcplug::RustFfiArg<"@ + ret_ty_name + ">) -> "@ + ffi_ret
}

/// The trait method that takes the result of a `GoFfi` call back.
pub fn goffi_set_result_trait_method(method_name: &str, ret_ty_name: &str, ffi_ret: &str) -> (r: String)
    ensures
        r@ == spec_goffi_set_result_trait_method(method_name@, ret_ty_name@, ffi_ret@),
{
    let mut r = String::from_str("unsafe fn ");
    r.append(method_name);
    r.append("_set_result(go_ret: ::fcplug::RustFfiArg<");
    r.append(ret_ty_name);
    r.append(">) -> ");
    r.append(ffi_ret);
    r
}

/// A method of the `GoFfiCall` trait, which calls into Go.
pub open spec fn spec_goffi_call_trait_method(method_name: Seq<char>, generic_signature: Seq<char>, args: Seq<char>, ret: Seq<char>, name_lower: Seq<char>, args_ident: Seq<char>) -> Seq<char> {
    "unsafe fn "@ + method_name + generic_signature + "("@ + args + ") -> "@ + ret + " {\n                ::fcplug::ABIResult::from("@ + name_lower + "_"@ + method_name + "("@ + args_ident + "))\n            }\n            "@
}

/// A method of the `GoFfiCall` trait, which calls into Go.
pub fn goffi_call_trait_method(method_name: &str, generic_signature: &str, args: &str, ret: &str, name_lower: &str, args_ident: &str) -> (r: String)
    ensures
        r@ == spec_goffi_call_trait_method(method_name@, generic_signature@, args@, ret@, name_lower@, args_ident@),
{
    let mut r = String::from_str("unsafe fn ");
    r.append(method_name);
    r.append(generic_signature);
    r.append("(");
    r.append(args);
    r.append(") -> ");
    r.append(ret);
    r.append(" {\n                ::fcplug::ABIResult::from(");
    r.append(name_lower);
    r.append("_");
    r.append(method_name);
    r.append("(");
    r.append(args_ident);
    r.append("))\n            }\n            ");
    r
}

/// The declaration of a Go-exported function.
pub open spec fn spec_goffi_extern_decl(name_lower: Seq<char>, fn_name: Seq<char>, args: Seq<char>, ret: Seq<char>) -> Seq<char> {
    "fn "@ + name_lower + "_"@ + fn_name + "("@ + args + ") -> "@ + ret + ";"@
}

/// The declaration of a Go-exported function.
pub fn goffi_extern_decl(name_lower: &str, fn_name: &str, args: &str, ret: &str) -> (r: String)
    ensures
        r@ == spec_goffi_extern_decl(name_lower@, fn_name@, args@, ret@),
{
    let mut r = String::from_str("fn ");
    r.append(name_lower);
    r.append("_");
    r.append(fn_name);
    r.append("(");
    r.append(args);
    r.append(") -> ");
    r.append(ret);
    r.append(";");
    r
}

/// The `#[link]` block that declares the Go-exported functions.
pub open spec fn spec_goffi_link_block(link_name: Seq<char>, link_kind: Seq<char>, ffi_fns: Seq<char>) -> Seq<char> {
    "\n            #[link(name = \""@ + link_name + "\", kind = \""@ + link_kind + "\")]\n            extern \"C\" {\n            "@ + ffi_fns + "\n        }\n        "@
}

/// The `#[link]` block that declares the Go-exported functions.
pub fn goffi_link_block(link_name: &str, link_kind: &str, ffi_fns: &str) -> (r: String)
    ensures
        r@ == spec_goffi_link_block(link_name@, link_kind@, ffi_fns@),
{
    let mut r = String::from_str("\n            #[link(name = \"");
    r.append(link_name);
    r.append("\", kind = \"");
    r.append(link_kind);
    r.append("\")]\n            extern \"C\" {\n            ");
    r.append(ffi_fns);
    r.append("\n        }\n        ");
    r
}

/// The `extern "C"` function through which Go hands a call result to Rust.
pub open spec fn spec_goffi_set_result_fn(name_lower: Seq<char>, fn_name: Seq<char>, ret: Seq<char>, ust: Seq<char>, name: Seq<char>) -> Seq<char> {
    "#[no_mangle]\n                #[inline]\n                pub extern \"C\" fn "@ + name_lower + "_"@ + fn_name + "(buf: ::fcplug::Buffer) -> "@ + ret + " {\n                    unsafe{<"@ + ust + " as "@ + name + ">::"@ + fn_name + "(::fcplug::RustFfiArg::from(buf))}\n                }\n                "@
}

/// The `extern "C"` function through which Go hands a call result to Rust.
pub fn goffi_set_result_fn(name_lower: &str, fn_name: &str, ret: &str, ust: &str, name: &str) -> (r: String)
    ensures
        r@ == spec_goffi_set_result_fn(name_lower@, fn_name@, ret@, ust@, name@),
{
    let mut r = String::from_str("#[no_mangle]\n                #[inline]\n                pub extern \"C\" fn ");
    r.append(name_lower);
    r.append("_");
    r.append(fn_name);
    r.append("(buf: ::fcplug::Buffer) -> ");
    r.append(ret);
    r.append(" {\n                    unsafe{<");
    r.append(ust);
    r.append(" as ");
    r.append(name);
    r.append(">::");
    r.append(fn_name);
    r.append("(::fcplug::RustFfiArg::from(buf))}\n                }\n                ");
    r
}

/// The Rust trait of a service.
pub open spec fn spec_service_trait(name: Seq<char>, trait_methods: Seq<char>) -> Seq<char> {
    "\n            pub(super) trait "@ + name + " {\n                "@ + trait_methods + "\n            }\n            "@
}

/// The Rust trait of a service.
pub fn service_trait(name: &str, trait_methods: &str) -> (r: String)
    ensures
        r@ == spec_service_trait(name@, trait_methods@),
{
    let mut r = String::from_str("\n            pub(super) trait ");
    r.append(name);
    r.append(" {\n                ");
    r.append(trait_methods);
    r.append("\n            }\n            ");
    r
}

/// The default implementation of a service trait.
pub open spec fn spec_service_trait_impl(name: Seq<char>, ust: Seq<char>, impl_trait_methods: Seq<char>) -> Seq<char> {
    "\n            impl "@ + name + " for "@ + ust + " {\n                "@ + impl_trait_methods + "\n            }\n            "@
}

/// The default implementation of a service trait.
pub fn service_trait_impl(name: &str, ust: &str, impl_trait_methods: &str) -> (r: String)
    ensures
        r@ == spec_service_trait_impl(name@, ust@, impl_trait_methods@),
{
    let mut r = String::from_str("\n            impl ");
    r.append(name);
    r.append(" for ");
    r.append(ust);
    r.append(" {\n                ");
    r.append(impl_trait_methods);
    r.append("\n            }\n            ");
    r
}

/// The `GoFfiCall` trait of a `GoFfi` service.
pub open spec fn spec_goffi_call_trait(name: Seq<char>, call_methods: Seq<char>) -> Seq<char> {
    "\n                pub trait "@ + name + "Call {\n                    "@ + call_methods + "\n                }\n                "@
}

/// The `GoFfiCall` trait of a `GoFfi` service.
pub fn goffi_call_trait(name: &str, call_methods: &str) -> (r: String)
    ensures
        r@ == spec_goffi_call_trait(name@, call_methods@),
{
    let mut r = String::from_str("\n                pub trait ");
    r.append(name);
    r.append("Call {\n                    ");
    r.append(call_methods);
    r.append("\n                }\n                ");
    r
}

/// A method of the Go `RustFfiImpl` type.
pub open spec fn spec_rustffi_go_impl_method(iface_method: Seq<char>, impl_method: Seq<char>) -> Seq<char> {
    "\n                    //go:inline\n                    func (RustFfiImpl) "@ + iface_method + " {\n                        "@ + impl_method + "\n                    }\n                    "@
}

/// A method of the Go `RustFfiImpl` type.
pub fn rustffi_go_impl_method(iface_method: &str, impl_method: &str) -> (r: String)
    ensures
        r@ == spec_rustffi_go_impl_method(iface_method@, impl_method@),
{
    let mut r = String::from_str("\n                    //go:inline\n                    func (RustFfiImpl) ");
    r.append(iface_method);
    r.append(" {\n                        ");
    r.append(impl_method);
    r.append("\n                    }\n                    ");
    r
}

/// The Go interface and implementation of a `RustFfi` service.
pub open spec fn spec_rustffi_go_block(iface_methods: Seq<char>, impl_methods: Seq<char>) -> Seq<char> {
    "\n                        var GlobalRustFfi RustFfi = RustFfiImpl{}\n\n                        type RustFfi interface {\n                            "@ + iface_methods + "\n                        }\n                        type RustFfiImpl struct{}\n                        "@ + impl_methods + "\n                        "@
}

/// The Go interface and implementation of a `RustFfi` service.
pub fn rustffi_go_block(iface_methods: &str, impl_methods: &str) -> (r: String)
    ensures
        r@ == spec_rustffi_go_block(iface_methods@, impl_methods@),
{
    let mut r = String::from_str("\n                        var GlobalRustFfi RustFfi = RustFfiImpl{}\n\n                        type RustFfi interface {\n                            ");
    r.append(iface_methods);
    r.append("\n                        }\n                        type RustFfiImpl struct{}\n                        ");
    r.append(impl_methods);
    r.append("\n                        ");
    r
}

/// A method of the Go `_UnimplementedGoFfi` type.
pub open spec fn spec_goffi_go_unimplemented_method(m: Seq<char>) -> Seq<char> {
    "func (_UnimplementedGoFfi) "@ + m + " {\n                        panic(\"unimplemented\")\n                    }\n                    "@
}

/// A method of the Go `_UnimplementedGoFfi` type.
pub fn goffi_go_unimplemented_method(m: &str) -> (r: String)
    ensures
        r@ == spec_goffi_go_unimplemented_method(m@),
{
    let mut r = String::from_str("func (_UnimplementedGoFfi) ");
    r.append(m);
    r.append(" {\n                        panic(\"unimplemented\")\n                    }\n                    ");
    r
}

/// The Go interface of a `GoFfi` service.
pub open spec fn spec_goffi_go_block(iface_body: Seq<char>, impl_methods: Seq<char>) -> Seq<char> {
    "\n\n                        var GlobalGoFfi GoFfi = _UnimplementedGoFfi{}\n\n                        type GoFfi interface {\n                            "@ + iface_body + "\n                        }\n                        type _UnimplementedGoFfi struct{}\n                        "@ + impl_methods + "\n\n                        "@
}

/// The Go interface of a `GoFfi` service.
pub fn goffi_go_block(iface_body: &str, impl_methods: &str) -> (r: String)
    ensures
        r@ == spec_goffi_go_block(iface_body@, impl_methods@),
{
    let mut r = String::from_str("\n\n                        var GlobalGoFfi GoFfi = _UnimplementedGoFfi{}\n\n                        type GoFfi interface {\n                            ");
    r.append(iface_body);
    r.append("\n                        }\n                        type _UnimplementedGoFfi struct{}\n                        ");
    r.append(impl_methods);
    r.append("\n\n                        ");
    r
}

/// A method of the Go `RustFfi` interface.
pub open spec fn spec_rustffi_go_iface_method(iface_method_name: Seq<char>, args_sign: Seq<char>, ret_type: Seq<char>) -> Seq<char> {
    iface_method_name + "("@ + args_sign + ") RustFfiResult["@ + ret_type + "]"@
}

/// A method of the Go `RustFfi` interface.
pub fn rustffi_go_iface_method(iface_method_name: &str, args_sign: &str, ret_type: &str) -> (r: String)
    ensures
        r@ == spec_rustffi_go_iface_method(iface_method_name@, args_sign@, ret_type@),
{
    let mut r = String::from_str(iface_method_name);
    r.append("(");
    r.append(args_sign);
    r.append(") RustFfiResult[");
    r.append(ret_type);
    r.append("]");
    r
}

/// The body of a Go `RustFfiImpl` method: the call into Rust.
pub open spec fn spec_rustffi_go_call(ret_type: Seq<char>, ffi_func_name: Seq<char>, args_assign: Seq<char>) -> Seq<char> {
    "return newRustFfiResult["@ + ret_type + "](C."@ + ffi_func_name + "("@ + args_assign + "))"@
}

/// The body of a Go `RustFfiImpl` method: the call into Rust.
pub fn rustffi_go_call(ret_type: &str, ffi_func_name: &str, args_assign: &str) -> (r: String)
    ensures
        r@ == spec_rustffi_go_call(ret_type@, ffi_func_name@, args_assign@),
{
    let mut r = String::from_str("return newRustFfiResult[");
    r.append(ret_type);
    r.append("](C.");
    r.append(ffi_func_name);
    r.append("(");
    r.append(args_assign);
    r.append("))");
    r
}

/// A method of the Go `GoFfi` interface that returns nothing.
pub open spec fn spec_goffi_go_iface_method_empty(iface_method_name: Seq<char>, args_sign: Seq<char>) -> Seq<char> {
    iface_method_name + "("@ + args_sign + ") ResultMsg"@
}

/// A method of the Go `GoFfi` interface that returns nothing.
pub fn goffi_go_iface_method_empty(iface_method_name: &str, args_sign: &str) -> (r: String)
    ensures
        r@ == spec_goffi_go_iface_method_empty(iface_method_name@, args_sign@),
{
    let mut r = String::from_str(iface_method_name);
    r.append("(");
    r.append(args_sign);
    r.append(") ResultMsg");
    r
}

/// A method of the Go `GoFfi` interface that returns a message.
pub open spec fn spec_goffi_go_iface_method(iface_method_name: Seq<char>, args_sign: Seq<char>, mod_name: Seq<char>, ret_type: Seq<char>) -> Seq<char> {
    iface_method_name + "("@ + args_sign + ") gust.EnumResult["@ + mod_name + ".TBytes[*"@ + ret_type + "], ResultMsg]"@
}

/// A method of the Go `GoFfi` interface that returns a message.
pub fn goffi_go_iface_method(iface_method_name: &str, args_sign: &str, mod_name: &str, ret_type: &str) -> (r: String)
    ensures
        r@ == spec_goffi_go_iface_method(iface_method_name@, args_sign@, mod_name@, ret_type@),
{
    let mut r = String::from_str(iface_method_name);
    r.append("(");
    r.append(args_sign);
    r.append(") gust.EnumResult[");
    r.append(mod_name);
    r.append(".TBytes[*");
    r.append(ret_type);
    r.append("], ResultMsg]");
    r
}

/// The Go-exported function of a `GoFfi` method that returns nothing.
pub open spec fn spec_goffi_go_export_empty(ffi_func_name: Seq<char>, ffi_args_sign: Seq<char>, iface_method_name: Seq<char>, ffi_args_assign: Seq<char>, mod_name: Seq<char>) -> Seq<char> {
    "\n                //go:inline\n                //export "@ + ffi_func_name + "\n                func "@ + ffi_func_name + "("@ + ffi_args_sign + ") C.struct_GoFfiResult {\n                    if _"@ + iface_method_name + "_Ret_Msg := GlobalGoFfi."@ + iface_method_name + "("@ + ffi_args_assign + "); _"@ + iface_method_name + "_Ret_Msg.Code == "@ + mod_name + ".RcNoError {\n                        return C.struct_GoFfiResult{}\n                    } else {\n                        return C.struct_GoFfiResult{\n                            code:     C.int8_t(_"@ + iface_method_name + "_Ret_Msg.Code),\n                            data_ptr: C.leak_buffer(asBuffer("@ + mod_name + ".TBytesFromString[string](_"@ + iface_method_name + "_Ret_Msg.Msg))),\n                        }\n                    }\n                }\n                "@
}

/// The Go-exported function of a `GoFfi` method that returns nothing.
pub fn goffi_go_export_empty(ffi_func_name: &str, ffi_args_sign: &str, iface_method_name: &str, ffi_args_assign: &str, mod_name: &str) -> (r: String)
    ensures
        r@ == spec_goffi_go_export_empty(ffi_func_name@, ffi_args_sign@, iface_method_name@, ffi_args_assign@, mod_name@),
{
    let mut r = String::from_str("\n                //go:inline\n                //export ");
    r.append(ffi_func_name);
    r.append("\n                func ");
    r.append(ffi_func_name);
    r.append("(");
    r.append(ffi_args_sign);
    r.append(") C.struct_GoFfiResult {\n                    if _");
    r.append(iface_method_name);
    r.append("_Ret_Msg := GlobalGoFfi.");
    r.append(iface_method_name);
    r.append("(");
    r.append(ffi_args_assign);
    r.append("); _");
    r.append(iface_method_name);
    r.append("_Ret_Msg.Code == ");
    r.append(mod_name);
    r.append(".RcNoError {\n                        return C.struct_GoFfiResult{}\n                    } else {\n                        return C.struct_GoFfiResult{\n                            code:     C.int8_t(_");
    r.append(iface_method_name);
    r.append("_Ret_Msg.Code),\n                            data_ptr: C.leak_buffer(asBuffer(");
    r.append(mod_name);
    r.append(".TBytesFromString[string](_");
    r.append(iface_method_name);
    r.append("_Ret_Msg.Msg))),\n                        }\n                    }\n                }\n                ");
    r
}

/// The Go-exported function of a `GoFfi` method that returns a message.
pub open spec fn spec_goffi_go_export(ffi_func_name: Seq<char>, ffi_args_sign: Seq<char>, iface_method_name: Seq<char>, ffi_args_assign: Seq<char>, mod_name: Seq<char>) -> Seq<char> {
    "\n                //go:inline\n                //export "@ + ffi_func_name + "\n                func "@ + ffi_func_name + "("@ + ffi_args_sign + ") C.struct_GoFfiResult {\n                    if _"@ + iface_method_name + "_Ret := GlobalGoFfi."@ + iface_method_name + "("@ + ffi_args_assign + "); _"@ + iface_method_name + "_Ret.IsOk() {\n                        return C."@ + ffi_func_name + "_set_result(asBuffer(_"@ + iface_method_name + "_Ret.Unwrap()))\n                    } else {\n                        _"@ + iface_method_name + "_Ret_Msg := _"@ + iface_method_name + "_Ret.UnwrapErr()\n                        if _"@ + iface_method_name + "_Ret_Msg.Code == "@ + mod_name + ".RcNoError {\n                            _"@ + iface_method_name + "_Ret_Msg.Code = "@ + mod_name + ".RcUnknown\n                        }\n                        return C.struct_GoFfiResult{\n                            code:     C.int8_t(_"@ + iface_method_name + "_Ret_Msg.Code),\n                            data_ptr: C.leak_buffer(asBuffer("@ + mod_name + ".TBytesFromString[string](_"@ + iface_method_name + "_Ret_Msg.Msg))),\n                        }\n                    }\n                }\n                "@
}

/// The Go-exported function of a `GoFfi` method that returns a message.
pub fn goffi_go_export(ffi_func_name: &str, ffi_args_sign: &str, iface_method_name: &str, ffi_args_assign: &str, mod_name: &str) -> (r: String)
    ensures
        r@ == spec_goffi_go_export(ffi_func_name@, ffi_args_sign@, iface_method_name@, ffi_args_assign@, mod_name@),
{
    let mut r = String::from_str("\n                //go:inline\n                //export ");
    r.append(ffi_func_name);
    r.append("\n                func ");
    r.append(ffi_func_name);
    r.append("(");
    r.append(ffi_args_sign);
    r.append(") C.struct_GoFfiResult {\n                    if _");
    r.append(iface_method_name);
    r.append("_Ret := GlobalGoFfi.");
    r.append(iface_method_name);
    r.append("(");
    r.append(ffi_args_assign);
    r.append("); _");
    r.append(iface_method_name);
    r.append("_Ret.IsOk() {\n                        return C.");
    r.append(ffi_func_name);
    r.append("_set_result(asBuffer(_");
    r.append(iface_method_name);
    r.append("_Ret.Unwrap()))\n                    } else {\n                        _");
    r.append(iface_method_name);
    r.append("_Ret_Msg := _");
    r.append(iface_method_name);
    r.append("_Ret.UnwrapErr()\n                        if _");
    r.append(iface_method_name);
    r.append("_Ret_Msg.Code == ");
    r.append(mod_name);
    r.append(".RcNoError {\n                            _");
    r.append(iface_method_name);
    r.append("_Ret_Msg.Code = ");
    r.append(mod_name);
    r.append(".RcUnknown\n                        }\n                        return C.struct_GoFfiResult{\n                            code:     C.int8_t(_");
    r.append(iface_method_name);
    r.append("_Ret_Msg.Code),\n                            data_ptr: C.leak_buffer(asBuffer(");
    r.append(mod_name);
    r.append(".TBytesFromString[string](_");
    r.append(iface_method_name);
    r.append("_Ret_Msg.Msg))),\n                        }\n                    }\n                }\n                ");
    r
}

/// The Go glue of a `GoFfi` service.
pub open spec fn spec_goffi_go_service(mod_name: Seq<char>, ffi_functions: Seq<char>) -> Seq<char> {
    "\n        type ResultMsg struct {\n            Code "@ + mod_name + ".ResultCode\n            Msg  string\n        }\n\n        //go:inline\n        func asBuffer[T any](b "@ + mod_name + ".TBytes[T]) C.struct_Buffer {\n            p, size := b.ForCBuffer()\n            if size == 0 {\n                return C.struct_Buffer{}\n            }\n            return C.struct_Buffer{\n                ptr: (*C.uint8_t)(p),\n                len: C.uintptr_t(size),\n                cap: C.uintptr_t(size),\n            }\n        }\n\n        //go:inline\n        func asBytes[T any](buf C.struct_Buffer) "@ + mod_name + ".TBytes[T] {\n            if buf.len == 0 {\n                return "@ + mod_name + ".TBytes[T]{}\n            }\n            return "@ + mod_name + ".TBytesFromBytes[T](*(*[]byte)(unsafe.Pointer(&reflect.SliceHeader{\n                Data: uintptr(unsafe.Pointer(buf.ptr)),\n                Len:  int(buf.len),\n                Cap:  int(buf.cap),\n            })))\n        }\n\n        "@ + ffi_functions + "\n        "@
}

/// The Go glue of a `GoFfi` service.
pub fn goffi_go_service(mod_name: &str, ffi_functions: &str) -> (r: String)
    ensures
        r@ == spec_goffi_go_service(mod_name@, ffi_functions@),
{
    let mut r = String::from_str("\n        type ResultMsg struct {\n            Code ");
    r.append(mod_name);
    r.append(".ResultCode\n            Msg  string\n        }\n\n        //go:inline\n        func asBuffer[T any](b ");
    r.append(mod_name);
    r.append(".TBytes[T]) C.struct_Buffer {\n            p, size := b.ForCBuffer()\n            if size == 0 {\n                return C.struct_Buffer{}\n            }\n            return C.struct_Buffer{\n                ptr: (*C.uint8_t)(p),\n                len: C.uintptr_t(size),\n                cap: C.uintptr_t(size),\n            }\n        }\n\n        //go:inline\n        func asBytes[T any](buf C.struct_Buffer) ");
    r.append(mod_name);
    r.append(".TBytes[T] {\n            if buf.len == 0 {\n                return ");
    r.append(mod_name);
    r.append(".TBytes[T]{}\n            }\n            return ");
    r.append(mod_name);
    r.append(".TBytesFromBytes[T](*(*[]byte)(unsafe.Pointer(&reflect.SliceHeader{\n                Data: uintptr(unsafe.Pointer(buf.ptr)),\n                Len:  int(buf.len),\n                Cap:  int(buf.cap),\n            })))\n        }\n\n        ");
    r.append(ffi_functions);
    r.append("\n        ");
    r
}

/// A Go struct type.
pub open spec fn spec_go_struct_type(struct_name: Seq<char>, files: Seq<char>) -> Seq<char> {
    "\ntype "@ + struct_name + " struct {\n    "@ + files + "\n}\n        "@
}

/// A Go struct type.
pub fn go_struct_type(struct_name: &str, files: &str) -> (r: String)
    ensures
        r@ == spec_go_struct_type(struct_name@, files@),
{
    let mut r = String::from_str("\ntype ");
    r.append(struct_name);
    r.append(" struct {\n    ");
    r.append(files);
    r.append("\n}\n        ");
    r
}

/// A field of a Go struct type.
pub open spec fn spec_go_struct_field(field_name: Seq<char>, field_type: Seq<char>, field_tag: Seq<char>) -> Seq<char> {
    field_name + "    "@ + field_type + "    "@ + field_tag
}

/// A field of a Go struct type.
pub fn go_struct_field(field_name: &str, field_type: &str, field_tag: &str) -> (r: String)
    ensures
        r@ == spec_go_struct_field(field_name@, field_type@, field_tag@),
{
    let mut r = String::from_str(field_name);
    r.append("    ");
    r.append(field_type);
    r.append("    ");
    r.append(field_tag);
    r
}

/// The JSON tag of a Go struct field.
pub open spec fn spec_go_field_tag(snake: Seq<char>) -> Seq<char> {
    "`json:\""@ + snake + "\"`"@
}

/// The JSON tag of a Go struct field.
pub fn go_field_tag(snake: &str) -> (r: String)
    ensures
        r@ == spec_go_field_tag(snake@),
{
    let mut r = String::from_str("`json:\"");
    r.append(snake);
    r.append("\"`");
    r
}

/// The Go package file.
pub open spec fn spec_go_lib_file(go_mod_name: Seq<char>, clib_dir_relative_root: Seq<char>, rust_clib_name_base: Seq<char>, lib_imports: Seq<char>, lib_imports_use: Seq<char>, go_pkg_code: Seq<char>) -> Seq<char> {
    "// Code generated by fcplug. DO NOT EDIT.\n\n            package "@ + go_mod_name + "\n            /*\n            #cgo CFLAGS: -I"@ + clib_dir_relative_root + "\n            #cgo LDFLAGS: -L"@ + clib_dir_relative_root + " -l"@ + rust_clib_name_base + " -ldl -lm\n\n            #include \""@ + rust_clib_name_base + ".h\"\n            */\n            import \"C\"\n\n            import (\n                \"errors\"\n                \"fmt\"\n                \"reflect\"\n                \"unsafe\"\n\n                "@ + lib_imports + "\n            )\n\n            var (\n                _ = errors.New\n                _ = fmt.Sprintf\n                _ reflect.SliceHeader\n                _ unsafe.Pointer\n            )\n            "@ + lib_imports_use + "\n\n            "@ + go_pkg_code + "\n            "@
}

/// The Go package file.
pub fn go_lib_file(go_mod_name: &str, clib_dir_relative_root: &str, rust_clib_name_base: &str, lib_imports: &str, lib_imports_use: &str, go_pkg_code: &str) -> (r: String)
    ensures
        r@ == spec_go_lib_file(go_mod_name@, clib_dir_relative_root@, rust_clib_name_base@, lib_imports@, lib_imports_use@, go_pkg_code@),
{
    let mut r = String::from_str("// Code generated by fcplug. DO NOT EDIT.\n\n            package ");
    r.append(go_mod_name);
    r.append("\n            /*\n            #cgo CFLAGS: -I");
    r.append(clib_dir_relative_root);
    r.append("\n            #cgo LDFLAGS: -L");
    r.append(clib_dir_relative_root);
    r.append(" -l");
    r.append(rust_clib_name_base);
    r.append(" -ldl -lm\n\n            #include \"");
    r.append(rust_clib_name_base);
    r.append(".h\"\n            */\n            import \"C\"\n\n            import (\n                \"errors\"\n                \"fmt\"\n                \"reflect\"\n                \"unsafe\"\n\n                ");
    r.append(lib_imports);
    r.append("\n            )\n\n            var (\n                _ = errors.New\n                _ = fmt.Sprintf\n                _ reflect.SliceHeader\n                _ unsafe.Pointer\n            )\n            ");
    r.append(lib_imports_use);
    r.append("\n\n            ");
    r.append(go_pkg_code);
    r.append("\n            ");
    r
}

/// The Go `main` package file.
pub open spec fn spec_go_main_file(clib_dir_relative_cgobin: Seq<char>, rust_clib_name_base: Seq<char>, main_imports: Seq<char>, main_imports_use: Seq<char>, go_main_code: Seq<char>) -> Seq<char> {
    "// Code generated by fcplug. DO NOT EDIT.\n\n        package main\n\n        /*\n        #cgo CFLAGS: -I"@ + clib_dir_relative_cgobin + "\n        #cgo LDFLAGS: -L"@ + clib_dir_relative_cgobin + " -l"@ + rust_clib_name_base + " -ldl -lm\n\n        #include \""@ + rust_clib_name_base + ".h\"\n        */\n        import \"C\"\n        import (\n            \"reflect\"\n            \"unsafe\"\n\n            "@ + main_imports + "\n        )\n\n        // main function is never called by C to.\n        func main() {}\n\n        var (\n            _ reflect.SliceHeader\n            _ unsafe.Pointer\n        )\n        "@ + main_imports_use + "\n\n        "@ + go_main_code + "\n        "@
}

/// The Go `main` package file.
pub fn go_main_file(clib_dir_relative_cgobin: &str, rust_clib_name_base: &str, main_imports: &str, main_imports_use: &str, go_main_code: &str) -> (r: String)
    ensures
        r@ == spec_go_main_file(clib_dir_relative_cgobin@, rust_clib_name_base@, main_imports@, main_imports_use@, go_main_code@),
{
    let mut r = String::from_str("// Code generated by fcplug. DO NOT EDIT.\n\n        package main\n\n        /*\n        #cgo CFLAGS: -I");
    r.append(clib_dir_relative_cgobin);
    r.append("\n        #cgo LDFLAGS: -L");
    r.append(clib_dir_relative_cgobin);
    r.append(" -l");
    r.append(rust_clib_name_base);
    r.append(" -ldl -lm\n\n        #include \"");
    r.append(rust_clib_name_base);
    r.append(".h\"\n        */\n        import \"C\"\n        import (\n            \"reflect\"\n            \"unsafe\"\n\n            ");
    r.append(main_imports);
    r.append("\n        )\n\n        // main function is never called by C to.\n        func main() {}\n\n        var (\n            _ reflect.SliceHeader\n            _ unsafe.Pointer\n        )\n        ");
    r.append(main_imports_use);
    r.append("\n\n        ");
    r.append(go_main_code);
    r.append("\n        ");
    r
}

/// A fresh `go.mod` file.
pub open spec fn spec_go_mod_file(gomod_path: Seq<char>, mod_requires: Seq<char>) -> Seq<char> {
    "module "@ + gomod_path + "\n\n            go 1.18\n\n            require (\n                "@ + mod_requires + "\n            )\n\n            "@
}

/// A fresh `go.mod` file.
pub fn go_mod_file(gomod_path: &str, mod_requires: &str) -> (r: String)
    ensures
        r@ == spec_go_mod_file(gomod_path@, mod_requires@),
{
    let mut r = String::from_str("module ");
    r.append(gomod_path);
    r.append("\n\n            go 1.18\n\n            require (\n                ");
    r.append(mod_requires);
    r.append("\n            )\n\n            ");
    r
}

/// The `Ffi` trait and the unit-like struct that implements it.
pub open spec fn spec_ffi_trait_block(rust_impl_name: Seq<char>) -> Seq<char> {
    "trait Ffi: RustFfi + GoFfi + GoFfiCall {}\n\n        pub struct "@ + rust_impl_name + ";\n\n        impl GoFfiCall for "@ + rust_impl_name + " {}\n        impl Ffi for "@ + rust_impl_name + " {}\n        "@
}

/// The `Ffi` trait and the unit-like struct that implements it.
pub fn ffi_trait_block(rust_impl_name: &str) -> (r: String)
    ensures
        r@ == spec_ffi_trait_block(rust_impl_name@),
{
    let mut r = String::from_str("trait Ffi: RustFfi + GoFfi + GoFfiCall {}\n\n        pub struct ");
    r.append(rust_impl_name);
    r.append(";\n\n        impl GoFfiCall for ");
    r.append(rust_impl_name);
    r.append(" {}\n        impl Ffi for ");
    r.append(rust_impl_name);
    r.append(" {}\n        ");
    r
}

/// A fresh `mod.rs` of the Rust FFI module.
pub open spec fn spec_rust_mod_impl_file(mod_gen_name: Seq<char>, rust_mod_impl_code: Seq<char>) -> Seq<char> {
    "#![allow(unused_variables)]\n\n                pub use "@ + mod_gen_name + "::*;\n\n                mod "@ + mod_gen_name + ";\n\n                "@ + rust_mod_impl_code + "\n                "@
}

/// A fresh `mod.rs` of the Rust FFI module.
pub fn rust_mod_impl_file(mod_gen_name: &str, rust_mod_impl_code: &str) -> (r: String)
    ensures
        r@ == spec_rust_mod_impl_file(mod_gen_name@, rust_mod_impl_code@),
{
    let mut r = String::from_str("#![allow(unused_variables)]\n\n                pub use ");
    r.append(mod_gen_name);
    r.append("::*;\n\n                mod ");
    r.append(mod_gen_name);
    r.append(";\n\n                ");
    r.append(rust_mod_impl_code);
    r.append("\n                ");
    r
}

/// One import line of a Go file.
pub open spec fn spec_go_import_line(acc: Seq<char>, import_path: Seq<char>) -> Seq<char> {
    acc + "\""@ + import_path + "\"\n   "@
}

/// One import line of a Go file.
pub fn go_import_line(acc: &str, import_path: &str) -> (r: String)
    ensures
        r@ == spec_go_import_line(acc@, import_path@),
{
    let mut r = String::from_str(acc);
    r.append("\"");
    r.append(import_path);
    r.append("\"\n   ");
    r
}

/// One use line of a Go file.
pub open spec fn spec_go_import_use_line(acc: Seq<char>, use_code: Seq<char>) -> Seq<char> {
    acc + use_code + "\n"@
}

/// One use line of a Go file.
pub fn go_import_use_line(acc: &str, use_code: &str) -> (r: String)
    ensures
        r@ == spec_go_import_use_line(acc@, use_code@),
{
    let mut r = String::from_str(acc);
    r.append(use_code);
    r.append("\n");
    r
}

/// A fresh Go file for the user implementation of the `GoFfi` interface.
pub open spec fn spec_go_main_impl_file() -> Seq<char> {
    "package main\n\n            func init() {\n                // TODO: Replace with your own implementation, then re-execute `cargo build`\n                GlobalGoFfi = _UnimplementedGoFfi{}\n            }\n\n            "@
}

/// A fresh Go file for the user implementation of the `GoFfi` interface.
pub fn go_main_impl_file() -> (r: String)
    ensures
        r@ == spec_go_main_impl_file(),
{
    let r = String::from_str("package main\n\n            func init() {\n                // TODO: Replace with your own implementation, then re-execute `cargo build`\n                GlobalGoFfi = _UnimplementedGoFfi{}\n            }\n\n            ");
    r
}

/// The Go runtime support of a `RustFfi` service.
pub open spec fn spec_rustffi_go_runtime() -> Seq<char> {
    "\ntype ResultCode = int8\n\nconst (\n\tRcNoError ResultCode = 0\n\tRcDecode  ResultCode = -1\n\tRcEncode  ResultCode = -2\n\tRcUnknown ResultCode = -128\n)\n\n// TBytes bytes with type marker\ntype TBytes[T any] struct {\n\tbytes []byte\n\t_nil  *T\n}\n\n// TBytesFromBytes new TBytes from bytes\n//go:inline\nfunc TBytesFromBytes[T any](bytes []byte) TBytes[T] {\n\treturn TBytes[T]{bytes: bytes}\n}\n\n// TBytesFromString new TBytes from string\n//go:inline\nfunc TBytesFromString[T any](s string) TBytes[T] {\n\treturn TBytes[T]{bytes: valconv.StringToReadonlyBytes[string](s)}\n}\n\n//go:inline\nfunc TBytesFromPbUnchecked[T proto.Message](obj T) TBytes[T] {\n\ttb, _ := TBytesFromPb[T](obj)\n\treturn tb\n}\n\n//go:inline\nfunc TBytesFromPb[T proto.Message](obj T) (TBytes[T], error) {\n\tvar tb TBytes[T]\n\tvar err error\n\ttb.bytes, err = proto.Marshal(obj)\n\tif err != nil {\n\t\treturn TBytes[T]{}, err\n\t}\n\treturn tb, nil\n}\n\n//go:inline\nfunc TBytesFromJsonUnchecked[T proto.Message](obj T) TBytes[T] {\n\ttb, _ := TBytesFromJson[T](obj)\n\treturn tb\n}\n\n//go:inline\nfunc TBytesFromJson[T any](obj T) (TBytes[T], error) {\n\tvar tb TBytes[T]\n\tvar err error\n\ttb.bytes, err = sonic.Marshal(obj)\n\tif err != nil {\n\t\treturn TBytes[T]{}, err\n\t}\n\treturn tb, nil\n}\n\n//go:inline\nfunc (b TBytes[T]) Len() int {\n\treturn len(b.bytes)\n}\n\n// PbUnmarshal as protobuf to unmarshal\n// NOTE: maybe reference Rust memory buffer\n//\n//go:inline\nfunc (b TBytes[T]) PbUnmarshal() (*T, error) {\n\tvar t T\n\tif b.Len() > 0 {\n\t\terr := proto.Unmarshal(b.bytes, any(&t).(proto.Message))\n\t\tif err != nil {\n\t\t\treturn nil, err\n\t\t}\n\t}\n\treturn &t, nil\n}\n\n// PbUnmarshalUnchecked as protobuf to unmarshal\n// NOTE: maybe reference Rust memory buffer\n//\n//go:inline\nfunc (b TBytes[T]) PbUnmarshalUnchecked() (*T) {\n\tvar t T\n\tif b.Len() > 0 {\n\t\t_= proto.Unmarshal(b.bytes, any(&t).(proto.Message))\n\t}\n\treturn &t\n}\n\n// JsonUnmarshal as json to unmarshal\n// NOTE: maybe reference Rust memory buffer\n//\n//go:inline\nfunc (b TBytes[T]) JsonUnmarshal() (*T, error) {\n\tvar t T\n\tif b.Len() > 0 {\n\t\terr := sonic.Unmarshal(b.bytes, &t)\n\t\tif err != nil {\n\t\t\treturn nil, err\n\t\t}\n\t}\n\treturn &t, nil\n}\n\n// JsonUnmarshalUnchecked as json to unmarshal\n// NOTE: maybe reference Rust memory buffer\n//\n//go:inline\nfunc (b TBytes[T]) JsonUnmarshalUnchecked() *T {\n\tvar t T\n\tif b.Len() > 0 {\n\t\t_ = sonic.Unmarshal(b.bytes, &t)\n\t}\n\treturn &t\n}\n\n// Unmarshal unmarshal to object\n// NOTE: maybe reference Rust memory buffer\n//\n//go:inline\nfunc (b TBytes[T]) Unmarshal(unmarshal func([]byte, any) error) (*T, error) {\n\tvar t T\n\tif b.Len() > 0 {\n\t\terr := unmarshal(b.bytes, &t)\n\t\tif err != nil {\n\t\t\treturn nil, err\n\t\t}\n\t}\n\treturn &t, nil\n}\n\n// UnmarshalUnchecked unmarshal to object\n// NOTE: maybe reference Rust memory buffer\n//\n//go:inline\nfunc (b TBytes[T]) UnmarshalUnchecked(unmarshal func([]byte, any) error) *T {\n\tvar t T\n\tif b.Len() > 0 {\n\t\t_ = unmarshal(b.bytes, &t)\n\t}\n\treturn &t\n}\n\n//go:inline\nfunc (b TBytes[T]) ForCBuffer() (unsafe.Pointer, int) {\n\tsize := len(b.bytes)\n\tif size == 0 {\n\t\treturn nil, 0\n\t}\n\tif cap(b.bytes) > size {\n\t\tb.bytes = b.bytes[0:size:size]\n\t}\n\treturn unsafe.Pointer(&b.bytes[0]), size\n}\n\n//go:inline\nfunc (b TBytes[T]) asBuffer() C.struct_Buffer {\n\tp, size := b.ForCBuffer()\n\tif size == 0 {\n\t\treturn C.struct_Buffer{}\n\t}\n\treturn C.struct_Buffer{\n\t\tptr: (*C.uint8_t)(p),\n\t\tlen: C.uintptr_t(size),\n\t\tcap: C.uintptr_t(size),\n\t}\n}\n\n// CBuffer Rust buffer for Go\ntype CBuffer struct {\n\tbuf C.struct_Buffer\n}\n\n// Free free rust memory buffer, must be called!\n//\n//go:inline\nfunc (b CBuffer) Free() {\n\tif b.buf.len > 0 {\n\t\tC.free_buffer(b.buf)\n\t}\n}\n\n//go:inline\nfunc (b CBuffer) Len() int {\n\treturn int(b.buf.len)\n}\n\n//go:inline\nfunc (b CBuffer) AsBytes() []byte {\n\tif b.buf.len == 0 {\n\t\treturn nil\n\t}\n\treturn *(*[]byte)(unsafe.Pointer(&reflect.SliceHeader{\n\t\tData: uintptr(unsafe.Pointer(b.buf.ptr)),\n\t\tLen:  int(b.buf.len),\n\t\tCap:  int(b.buf.cap),\n\t}))\n}\n\n//go:inline\nfunc (b CBuffer) AsString() string {\n    if b.buf.len == 0 {\n\t\treturn \"\"\n\t}\n\treturn valconv.BytesToString[string](b.AsBytes())\n}\n\n// RustFfiResult Rust FFI Result for Go\n// NOTE: must call Free method to free rust memory buffer!\ntype RustFfiResult[T any] struct {\n\tCBuffer\n\tCode ResultCode\n\t_nil *T\n}\n\n//go:inline\nfunc newRustFfiResult[T any](ret C.struct_RustFfiResult) RustFfiResult[T] {\n\treturn RustFfiResult[T]{\n\t\tCBuffer: CBuffer{buf: ret.data},\n\t\tCode:    ResultCode(ret.code),\n\t\t_nil:    nil,\n\t}\n}\n\n//go:inline\nfunc (r RustFfiResult[T]) String() string {\n\treturn fmt.Sprintf(\"Code: %d, CBuffer: %s\", r.Code, r.CBuffer.AsString())\n}\n\n//go:inline\nfunc (r RustFfiResult[T]) IsOk() bool {\n\treturn r.Code == RcNoError\n}\n\n// AsError as an error\n// NOTE: reference Rust memory buffer\n//\n//go:inline\nfunc (r RustFfiResult[T]) AsError() error {\n\tif r.Code != RcNoError {\n\t\treturn errors.New(r.AsString())\n\t}\n\treturn nil\n}\n\n// PbUnmarshal as protobuf to unmarshal\n// NOTE: maybe reference Rust memory buffer\n//\n//go:inline\nfunc (r RustFfiResult[T]) PbUnmarshal() (*T, error) {\n\tif err := r.AsError(); err != nil {\n\t\treturn nil, err\n\t}\n\tvar t T\n\tif r.Len() > 0 {\n\t\terr := proto.Unmarshal(r.AsBytes(), any(&t).(proto.Message))\n\t\tif err != nil {\n\t\t\treturn nil, err\n\t\t}\n\t}\n\treturn &t, nil\n}\n\n// PbUnmarshalUnchecked as protobuf to unmarshal\n// NOTE: maybe reference Rust memory buffer\n//\n//go:inline\nfunc (r RustFfiResult[T]) PbUnmarshalUnchecked() *T {\n\tif err := r.AsError(); err != nil {\n\t\treturn nil\n\t}\n\tvar t T\n\tif r.Len() > 0 {\n\t\t_ = proto.Unmarshal(r.AsBytes(), any(&t).(proto.Message))\n\t}\n\treturn &t\n}\n\n// JsonUnmarshal as json to unmarshal\n// NOTE: maybe reference Rust memory buffer\n//\n//go:inline\nfunc (r RustFfiResult[T]) JsonUnmarshal() (*T, error) {\n\tif err := r.AsError(); err != nil {\n\t\treturn nil, err\n\t}\n\tvar t T\n\tif r.Len() > 0 {\n\t\terr := sonic.Unmarshal(r.AsBytes(), &t)\n\t\tif err != nil {\n\t\t\treturn nil, err\n\t\t}\n\t}\n\treturn &t, nil\n}\n\n// JsonUnmarshalUnchecked as json to unmarshal\n// NOTE: maybe reference Rust memory buffer\n//\n//go:inline\nfunc (r RustFfiResult[T]) JsonUnmarshalUnchecked() *T {\n\tif err := r.AsError(); err != nil {\n\t\treturn nil\n\t}\n\tvar t T\n\tif r.Len() > 0 {\n\t\t_ = sonic.Unmarshal(r.AsBytes(), &t)\n\t}\n\treturn &t\n}\n\n// Unmarshal unmarshal to object\n// NOTE: maybe reference Rust memory buffer\n//\n//go:inline\nfunc (r RustFfiResult[T]) Unmarshal(unmarshal func([]byte, any) error) (*T, error) {\n\tif err := r.AsError(); err != nil {\n\t\treturn nil, err\n\t}\n\tvar t T\n\tif r.Len() > 0 {\n\t\terr := unmarshal(r.AsBytes(), &t)\n\t\tif err != nil {\n\t\t\treturn nil, err\n\t\t}\n\t}\n\treturn &t, nil\n}\n\n// UnmarshalUnchecked unmarshal to object\n// NOTE: maybe reference Rust memory buffer\n//\n//go:inline\nfunc (r RustFfiResult[T]) UnmarshalUnchecked(unmarshal func([]byte, any) error) *T {\n\tif err := r.AsError(); err != nil {\n\t\treturn nil\n\t}\n\tvar t T\n\tif r.Len() > 0 {\n\t\t_ = unmarshal(r.AsBytes(), &t)\n\t}\n\treturn &t\n}\n\n"@
}

/// The Go runtime support of a `RustFfi` service.
pub fn rustffi_go_runtime() -> (r: String)
    ensures
        r@ == spec_rustffi_go_runtime(),
{
    let r = String::from_str("\ntype ResultCode = int8\n\nconst (\n\tRcNoError ResultCode = 0\n\tRcDecode  ResultCode = -1\n\tRcEncode  ResultCode = -2\n\tRcUnknown ResultCode = -128\n)\n\n// TBytes bytes with type marker\ntype TBytes[T any] struct {\n\tbytes []byte\n\t_nil  *T\n}\n\n// TBytesFromBytes new TBytes from bytes\n//go:inline\nfunc TBytesFromBytes[T any](bytes []byte) TBytes[T] {\n\treturn TBytes[T]{bytes: bytes}\n}\n\n// TBytesFromString new TBytes from string\n//go:inline\nfunc TBytesFromString[T any](s string) TBytes[T] {\n\treturn TBytes[T]{bytes: valconv.StringToReadonlyBytes[string](s)}\n}\n\n//go:inline\nfunc TBytesFromPbUnchecked[T proto.Message](obj T) TBytes[T] {\n\ttb, _ := TBytesFromPb[T](obj)\n\treturn tb\n}\n\n//go:inline\nfunc TBytesFromPb[T proto.Message](obj T) (TBytes[T], error) {\n\tvar tb TBytes[T]\n\tvar err error\n\ttb.bytes, err = proto.Marshal(obj)\n\tif err != nil {\n\t\treturn TBytes[T]{}, err\n\t}\n\treturn tb, nil\n}\n\n//go:inline\nfunc TBytesFromJsonUnchecked[T proto.Message](obj T) TBytes[T] {\n\ttb, _ := TBytesFromJson[T](obj)\n\treturn tb\n}\n\n//go:inline\nfunc TBytesFromJson[T any](obj T) (TBytes[T], error) {\n\tvar tb TBytes[T]\n\tvar err error\n\ttb.bytes, err = sonic.Marshal(obj)\n\tif err != nil {\n\t\treturn TBytes[T]{}, err\n\t}\n\treturn tb, nil\n}\n\n//go:inline\nfunc (b TBytes[T]) Len() int {\n\treturn len(b.bytes)\n}\n\n// PbUnmarshal as protobuf to unmarshal\n// NOTE: maybe reference Rust memory buffer\n//\n//go:inline\nfunc (b TBytes[T]) PbUnmarshal() (*T, error) {\n\tvar t T\n\tif b.Len() > 0 {\n\t\terr := proto.Unmarshal(b.bytes, any(&t).(proto.Message))\n\t\tif err != nil {\n\t\t\treturn nil, err\n\t\t}\n\t}\n\treturn &t, nil\n}\n\n// PbUnmarshalUnchecked as protobuf to unmarshal\n// NOTE: maybe reference Rust memory buffer\n//\n//go:inline\nfunc (b TBytes[T]) PbUnmarshalUnchecked() (*T) {\n\tvar t T\n\tif b.Len() > 0 {\n\t\t_= proto.Unmarshal(b.bytes, any(&t).(proto.Message))\n\t}\n\treturn &t\n}\n\n// JsonUnmarshal as json to unmarshal\n// NOTE: maybe reference Rust memory buffer\n//\n//go:inline\nfunc (b TBytes[T]) JsonUnmarshal() (*T, error) {\n\tvar t T\n\tif b.Len() > 0 {\n\t\terr := sonic.Unmarshal(b.bytes, &t)\n\t\tif err != nil {\n\t\t\treturn nil, err\n\t\t}\n\t}\n\treturn &t, nil\n}\n\n// JsonUnmarshalUnchecked as json to unmarshal\n// NOTE: maybe reference Rust memory buffer\n//\n//go:inline\nfunc (b TBytes[T]) JsonUnmarshalUnchecked() *T {\n\tvar t T\n\tif b.Len() > 0 {\n\t\t_ = sonic.Unmarshal(b.bytes, &t)\n\t}\n\treturn &t\n}\n\n// Unmarshal unmarshal to object\n// NOTE: maybe reference Rust memory buffer\n//\n//go:inline\nfunc (b TBytes[T]) Unmarshal(unmarshal func([]byte, any) error) (*T, error) {\n\tvar t T\n\tif b.Len() > 0 {\n\t\terr := unmarshal(b.bytes, &t)\n\t\tif err != nil {\n\t\t\treturn nil, err\n\t\t}\n\t}\n\treturn &t, nil\n}\n\n// UnmarshalUnchecked unmarshal to object\n// NOTE: maybe reference Rust memory buffer\n//\n//go:inline\nfunc (b TBytes[T]) UnmarshalUnchecked(unmarshal func([]byte, any) error) *T {\n\tvar t T\n\tif b.Len() > 0 {\n\t\t_ = unmarshal(b.bytes, &t)\n\t}\n\treturn &t\n}\n\n//go:inline\nfunc (b TBytes[T]) ForCBuffer() (unsafe.Pointer, int) {\n\tsize := len(b.bytes)\n\tif size == 0 {\n\t\treturn nil, 0\n\t}\n\tif cap(b.bytes) > size {\n\t\tb.bytes = b.bytes[0:size:size]\n\t}\n\treturn unsafe.Pointer(&b.bytes[0]), size\n}\n\n//go:inline\nfunc (b TBytes[T]) asBuffer() C.struct_Buffer {\n\tp, size := b.ForCBuffer()\n\tif size == 0 {\n\t\treturn C.struct_Buffer{}\n\t}\n\treturn C.struct_Buffer{\n\t\tptr: (*C.uint8_t)(p),\n\t\tlen: C.uintptr_t(size),\n\t\tcap: C.uintptr_t(size),\n\t}\n}\n\n// CBuffer Rust buffer for Go\ntype CBuffer struct {\n\tbuf C.struct_Buffer\n}\n\n// Free free rust memory buffer, must be called!\n//\n//go:inline\nfunc (b CBuffer) Free() {\n\tif b.buf.len > 0 {\n\t\tC.free_buffer(b.buf)\n\t}\n}\n\n//go:inline\nfunc (b CBuffer) Len() int {\n\treturn int(b.buf.len)\n}\n\n//go:inline\nfunc (b CBuffer) AsBytes() []byte {\n\tif b.buf.len == 0 {\n\t\treturn nil\n\t}\n\treturn *(*[]byte)(unsafe.Pointer(&reflect.SliceHeader{\n\t\tData: uintptr(unsafe.Pointer(b.buf.ptr)),\n\t\tLen:  int(b.buf.len),\n\t\tCap:  int(b.buf.cap),\n\t}))\n}\n\n//go:inline\nfunc (b CBuffer) AsString() string {\n    if b.buf.len == 0 {\n\t\treturn \"\"\n\t}\n\treturn valconv.BytesToString[string](b.AsBytes())\n}\n\n// RustFfiResult Rust FFI Result for Go\n// NOTE: must call Free method to free rust memory buffer!\ntype RustFfiResult[T any] struct {\n\tCBuffer\n\tCode ResultCode\n\t_nil *T\n}\n\n//go:inline\nfunc newRustFfiResult[T any](ret C.struct_RustFfiResult) RustFfiResult[T] {\n\treturn RustFfiResult[T]{\n\t\tCBuffer: CBuffer{buf: ret.data},\n\t\tCode:    ResultCode(ret.code),\n\t\t_nil:    nil,\n\t}\n}\n\n//go:inline\nfunc (r RustFfiResult[T]) String() string {\n\treturn fmt.Sprintf(\"Code: %d, CBuffer: %s\", r.Code, r.CBuffer.AsString())\n}\n\n//go:inline\nfunc (r RustFfiResult[T]) IsOk() bool {\n\treturn r.Code == RcNoError\n}\n\n// AsError as an error\n// NOTE: reference Rust memory buffer\n//\n//go:inline\nfunc (r RustFfiResult[T]) AsError() error {\n\tif r.Code != RcNoError {\n\t\treturn errors.New(r.AsString())\n\t}\n\treturn nil\n}\n\n// PbUnmarshal as protobuf to unmarshal\n// NOTE: maybe reference Rust memory buffer\n//\n//go:inline\nfunc (r RustFfiResult[T]) PbUnmarshal() (*T, error) {\n\tif err := r.AsError(); err != nil {\n\t\treturn nil, err\n\t}\n\tvar t T\n\tif r.Len() > 0 {\n\t\terr := proto.Unmarshal(r.AsBytes(), any(&t).(proto.Message))\n\t\tif err != nil {\n\t\t\treturn nil, err\n\t\t}\n\t}\n\treturn &t, nil\n}\n\n// PbUnmarshalUnchecked as protobuf to unmarshal\n// NOTE: maybe reference Rust memory buffer\n//\n//go:inline\nfunc (r RustFfiResult[T]) PbUnmarshalUnchecked() *T {\n\tif err := r.AsError(); err != nil {\n\t\treturn nil\n\t}\n\tvar t T\n\tif r.Len() > 0 {\n\t\t_ = proto.Unmarshal(r.AsBytes(), any(&t).(proto.Message))\n\t}\n\treturn &t\n}\n\n// JsonUnmarshal as json to unmarshal\n// NOTE: maybe reference Rust memory buffer\n//\n//go:inline\nfunc (r RustFfiResult[T]) JsonUnmarshal() (*T, error) {\n\tif err := r.AsError(); err != nil {\n\t\treturn nil, err\n\t}\n\tvar t T\n\tif r.Len() > 0 {\n\t\terr := sonic.Unmarshal(r.AsBytes(), &t)\n\t\tif err != nil {\n\t\t\treturn nil, err\n\t\t}\n\t}\n\treturn &t, nil\n}\n\n// JsonUnmarshalUnchecked as json to unmarshal\n// NOTE: maybe reference Rust memory buffer\n//\n//go:inline\nfunc (r RustFfiResult[T]) JsonUnmarshalUnchecked() *T {\n\tif err := r.AsError(); err != nil {\n\t\treturn nil\n\t}\n\tvar t T\n\tif r.Len() > 0 {\n\t\t_ = sonic.Unmarshal(r.AsBytes(), &t)\n\t}\n\treturn &t\n}\n\n// Unmarshal unmarshal to object\n// NOTE: maybe reference Rust memory buffer\n//\n//go:inline\nfunc (r RustFfiResult[T]) Unmarshal(unmarshal func([]byte, any) error) (*T, error) {\n\tif err := r.AsError(); err != nil {\n\t\treturn nil, err\n\t}\n\tvar t T\n\tif r.Len() > 0 {\n\t\terr := unmarshal(r.AsBytes(), &t)\n\t\tif err != nil {\n\t\t\treturn nil, err\n\t\t}\n\t}\n\treturn &t, nil\n}\n\n// UnmarshalUnchecked unmarshal to object\n// NOTE: maybe reference Rust memory buffer\n//\n//go:inline\nfunc (r RustFfiResult[T]) UnmarshalUnchecked(unmarshal func([]byte, any) error) *T {\n\tif err := r.AsError(); err != nil {\n\t\treturn nil\n\t}\n\tvar t T\n\tif r.Len() > 0 {\n\t\t_ = unmarshal(r.AsBytes(), &t)\n\t}\n\treturn &t\n}\n\n");
    r
}

/// The C declarations shared by both C headers.
pub open spec fn spec_rust_clib_includes() -> Seq<char> {
    "\ntypedef int8_t ResultCode;\n\ntypedef struct Buffer {\n  uint8_t *ptr;\n  uintptr_t len;\n  uintptr_t cap;\n} Buffer;\n\ntypedef struct RustFfiResult {\n  ResultCode code;\n  struct Buffer data;\n} RustFfiResult;\n\ntypedef struct GoFfiResult {\n  ResultCode code;\n  uintptr_t data_ptr;\n} GoFfiResult;\n\nvoid free_buffer(struct Buffer buf);\nuintptr_t leak_buffer(struct Buffer buf);\n\n"@
}

/// The C declarations shared by both C headers.
pub fn rust_clib_includes() -> (r: String)
    ensures
        r@ == spec_rust_clib_includes(),
{
    let r = String::from_str("\ntypedef int8_t ResultCode;\n\ntypedef struct Buffer {\n  uint8_t *ptr;\n  uintptr_t len;\n  uintptr_t cap;\n} Buffer;\n\ntypedef struct RustFfiResult {\n  ResultCode code;\n  struct Buffer data;\n} RustFfiResult;\n\ntypedef struct GoFfiResult {\n  ResultCode code;\n  uintptr_t data_ptr;\n} GoFfiResult;\n\nvoid free_buffer(struct Buffer buf);\nuintptr_t leak_buffer(struct Buffer buf);\n\n");
    r
}

} // verus!
