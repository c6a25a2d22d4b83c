//! The text templates of the IDL-driven generator.
use vstd::prelude::*;

verus! {

/// A trait method declaration, on its own line.
pub open spec fn spec_ffidl_trait_method_line(method_name: Seq<char>, args: Seq<char>, ret: Seq<char>) -> Seq<char> {
    "fn "@ + method_name + "("@ + args + ") -> "@ + ret + ";\n"@
}

/// A trait method declaration, on its own line.
pub fn ffidl_trait_method_line(method_name: &str, args: &str, ret: &str) -> (r: String)
    ensures
        r@ == spec_ffidl_trait_method_line(method_name@, args@, ret@),
{
    let mut r = String::from_str("fn ");
    r.append(method_name);
    r.append("(");
    r.append(args);
    r.append(") -> ");
    r.append(ret);
    r.append(";\n");
    r
}

/// A trait method whose body is `todo!()`, on its own line.
pub open spec fn spec_ffidl_impl_method_line(method_name: Seq<char>, args: Seq<char>, ret: Seq<char>) -> Seq<char> {
    "fn "@ + method_name + "("@ + args + ") -> "@ + ret + " { todo!() }\n"@
}

/// A trait method whose body is `todo!()`, on its own line.
pub fn ffidl_impl_method_line(method_name: &str, args: &str, ret: &str) -> (r: String)
    ensures
        r@ == spec_ffidl_impl_method_line(method_name@, args@, ret@),
{
    let mut r = String::from_str("fn ");
    r.append(method_name);
    r.append("(");
    r.append(args);
    r.append(") -> ");
    r.append(ret);
    r.append(" { todo!() }\n");
    r
}

/// The declaration of a `_set_result` trait method, on its own line.
pub open spec fn spec_ffidl_set_result_trait_line(method_name: Seq<char>, ret_ty_name: Seq<char>, ffi_ret: Seq<char>) -> Seq<char> {
    "unsafe fn "@ + method_name + "_set_result(go_ret: ::fcplug::RustFfiArg<"@ + ret_ty_name + ">) -> "@ + ffi_ret + ";\n"@
}

/// The declaration of a `_set_result` trait method, on its own line.
pub fn ffidl_set_result_trait_line(method_name: &str, ret_ty_name: &str, ffi_ret: &str) -> (r: String)
    ensures
        r@ == spec_ffidl_set_result_trait_line(method_name@, ret_ty_name@, ffi_ret@),
{
    let mut r = String::from_str("unsafe fn ");
    r.append(method_name);
    r.append("_set_result(go_ret: ::fcplug::RustFfiArg<");
    r.append(ret_ty_name);
    r.append(">) -> ");
    r.append(ffi_ret);
    r.append(";\n");
    r
}

/// A `_set_result` trait method whose body is `todo!()`, on its own line.
pub open spec fn spec_ffidl_set_result_impl_line(method_name: Seq<char>, ret_ty_name: Seq<char>, ffi_ret: Seq<char>) -> Seq<char> {
    "unsafe fn "@ + method_name + "_set_result(go_ret: ::fcplug::RustFfiArg<"@ + ret_ty_name + ">) -> "@ + ffi_ret + " { todo!() }\n"@
}

/// A `_set_result` trait method whose body is `todo!()`, on its own line.
pub fn ffidl_set_result_impl_line(method_name: &str, ret_ty_name: &str, ffi_ret: &str) -> (r: String)
    ensures
        r@ == spec_ffidl_set_result_impl_line(method_name@, ret_ty_name@, ffi_ret@),
{
    let mut r = String::from_str("unsafe fn ");
    r.append(method_name);
    r.append("_set_result(go_ret: ::fcplug::RustFfiArg<");
    r.append(ret_ty_name);
    r.append(">) -> ");
    r.append(ffi_ret);
    r.append(" { todo!() }\n");
    r
}

/// The Rust trait of a service.
pub open spec fn spec_ffidl_service_trait(name: Seq<char>, trait_methods: Seq<char>) -> Seq<char> {
    "\n        pub(super) trait "@ + name + " {\n            "@ + trait_methods + "\n        }\n        "@
}

/// The Rust trait of a service.
pub fn ffidl_service_trait(name: &str, trait_methods: &str) -> (r: String)
    ensures
        r@ == spec_ffidl_service_trait(name@, trait_methods@),
{
    let mut r = String::from_str("\n        pub(super) trait ");
    r.append(name);
    r.append(" {\n            ");
    r.append(trait_methods);
    r.append("\n        }\n        ");
    r
}

/// The default implementation of a service trait.
pub open spec fn spec_ffidl_service_impl(name: Seq<char>, ust: Seq<char>, impl_trait_methods: Seq<char>) -> Seq<char> {
    "\n            impl "@ + name + " for "@ + ust + " {\n                "@ + impl_trait_methods + "\n            }\n            "@
}

/// The default implementation of a service trait.
pub fn ffidl_service_impl(name: &str, ust: &str, impl_trait_methods: &str) -> (r: String)
    ensures
        r@ == spec_ffidl_service_impl(name@, ust@, impl_trait_methods@),
{
    let mut r = String::from_str("\n            impl ");
    r.append(name);
    r.append(" for ");
    r.append(ust);
    r.append(" {\n                ");
    r.append(impl_trait_methods);
    r.append("\n            }\n            ");
    r
}

/// A method of the `GoFfiCall` trait, which calls into Go.
pub open spec fn spec_ffidl_call_method(method_name: Seq<char>, generic_signature: Seq<char>, args: Seq<char>, ret: Seq<char>, name_lower: Seq<char>, args_ident: Seq<char>) -> Seq<char> {
    "unsafe fn "@ + method_name + generic_signature + "("@ + args + ") -> "@ + ret + " {\n                    ::fcplug::ABIResult::from("@ + name_lower + "_"@ + method_name + "("@ + args_ident + "))\n                }\n                "@
}

/// A method of the `GoFfiCall` trait, which calls into Go.
pub fn ffidl_call_method(method_name: &str, generic_signature: &str, args: &str, ret: &str, name_lower: &str, args_ident: &str) -> (r: String)
    ensures
        r@ == spec_ffidl_call_method(method_name@, generic_signature@, args@, ret@, name_lower@, args_ident@),
{
    let mut r = String::from_str("unsafe fn ");
    r.append(method_name);
    r.append(generic_signature);
    r.append("(");
    r.append(args);
    r.append(") -> ");
    r.append(ret);
    r.append(" {\n                    ::fcplug::ABIResult::from(");
    r.append(name_lower);
    r.append("_");
    r.append(method_name);
    r.append("(");
    r.append(args_ident);
    r.append("))\n                }\n                ");
    r
}

/// The `GoFfiCall` trait of a `GoFfi` service.
pub open spec fn spec_ffidl_call_trait(name: Seq<char>, methods: Seq<char>) -> Seq<char> {
    "\n        pub trait "@ + name + "Call {\n            "@ + methods + "\n        }\n        "@
}

/// The `GoFfiCall` trait of a `GoFfi` service.
pub fn ffidl_call_trait(name: &str, methods: &str) -> (r: String)
    ensures
        r@ == spec_ffidl_call_trait(name@, methods@),
{
    let mut r = String::from_str("\n        pub trait ");
    r.append(name);
    r.append("Call {\n            ");
    r.append(methods);
    r.append("\n        }\n        ");
    r
}

/// The block that declares the Go-exported functions.
pub open spec fn spec_ffidl_extern_block(ffi_fns: Seq<char>) -> Seq<char> {
    "extern \"C\" {\n            "@ + ffi_fns + "\n        }\n        "@
}

/// The block that declares the Go-exported functions.
pub fn ffidl_extern_block(ffi_fns: &str) -> (r: String)
    ensures
        r@ == spec_ffidl_extern_block(ffi_fns@),
{
    let mut r = String::from_str("extern \"C\" {\n            ");
    r.append(ffi_fns);
    r.append("\n        }\n        ");
    r
}

/// The `Ffi` trait and the unit-like struct that implements it.
pub open spec fn spec_ffidl_rust_more_code(rust_impl_name: Seq<char>) -> Seq<char> {
    "pub trait Ffi: RustFfi + GoFfi {}\n\n        pub(crate) struct "@ + rust_impl_name + ";\n\n        impl Ffi for "@ + rust_impl_name + " {}\n        "@
}

/// The `Ffi` trait and the unit-like struct that implements it.
pub fn ffidl_rust_more_code(rust_impl_name: &str) -> (r: String)
    ensures
        r@ == spec_ffidl_rust_more_code(rust_impl_name@),
{
    let mut r = String::from_str("pub trait Ffi: RustFfi + GoFfi {}\n\n        pub(crate) struct ");
    r.append(rust_impl_name);
    r.append(";\n\n        impl Ffi for ");
    r.append(rust_impl_name);
    r.append(" {}\n        ");
    r
}

/// A fresh implementation file of the Rust FFI module.
pub open spec fn spec_ffidl_rust_impl_file(rust_impl_rustffi_code: Seq<char>, rust_impl_goffi_code: Seq<char>) -> Seq<char> {
    "\n                "@ + rust_impl_rustffi_code + "\n\n                "@ + rust_impl_goffi_code + "\n                "@
}

/// A fresh implementation file of the Rust FFI module.
pub fn ffidl_rust_impl_file(rust_impl_rustffi_code: &str, rust_impl_goffi_code: &str) -> (r: String)
    ensures
        r@ == spec_ffidl_rust_impl_file(rust_impl_rustffi_code@, rust_impl_goffi_code@),
{
    let mut r = String::from_str("\n                ");
    r.append(rust_impl_rustffi_code);
    r.append("\n\n                ");
    r.append(rust_impl_goffi_code);
    r.append("\n                ");
    r
}

/// The Go `main` package file.
pub open spec fn spec_ffidl_go_main_file(rust_c_lib_dir: Seq<char>, rust_c_header_name_base: Seq<char>, import_gen_pkg: Seq<char>, import_gen_pkg_var: Seq<char>) -> Seq<char> {
    "// Code generated by fcplug. DO NOT EDIT.\n\n        package main\n\n        /*\n        #cgo CFLAGS: -I"@ + rust_c_lib_dir + "\n        #cgo LDFLAGS: -L"@ + rust_c_lib_dir + " -l"@ + rust_c_header_name_base + "\n\n        #include \""@ + rust_c_header_name_base + ".h\"\n        */\n        import \"C\"\n        import (\n            \"reflect\"\n            \"unsafe\"\n\n            \""@ + import_gen_pkg + "\"\n            \"github.com/andeya/gust\"\n        )\n\n        // main function is never called by C to.\n        func main() {}\n\n        var (\n            _ reflect.SliceHeader\n            _ unsafe.Pointer\n            _ gust.EnumResult[any, any]\n            "@ + import_gen_pkg_var + "\n        )\n\n        "@
}

/// The Go `main` package file.
pub fn ffidl_go_main_file(rust_c_lib_dir: &str, rust_c_header_name_base: &str, import_gen_pkg: &str, import_gen_pkg_var: &str) -> (r: String)
    ensures
        r@ == spec_ffidl_go_main_file(rust_c_lib_dir@, rust_c_header_name_base@, import_gen_pkg@, import_gen_pkg_var@),
{
    let mut r = String::from_str("// Code generated by fcplug. DO NOT EDIT.\n\n        package main\n\n        /*\n        #cgo CFLAGS: -I");
    r.append(rust_c_lib_dir);
    r.append("\n        #cgo LDFLAGS: -L");
    r.append(rust_c_lib_dir);
    r.append(" -l");
    r.append(rust_c_header_name_base);
    r.append("\n\n        #include \"");
    r.append(rust_c_header_name_base);
    r.append(".h\"\n        */\n        import \"C\"\n        import (\n            \"reflect\"\n            \"unsafe\"\n\n            \"");
    r.append(import_gen_pkg);
    r.append("\"\n            \"github.com/andeya/gust\"\n        )\n\n        // main function is never called by C to.\n        func main() {}\n\n        var (\n            _ reflect.SliceHeader\n            _ unsafe.Pointer\n            _ gust.EnumResult[any, any]\n            ");
    r.append(import_gen_pkg_var);
    r.append("\n        )\n\n        ");
    r
}

/// The Go package file.
pub open spec fn spec_ffidl_go_pkg_file(go_mod_name: Seq<char>, rust_c_lib_dir: Seq<char>, rust_c_header_name_base: Seq<char>) -> Seq<char> {
    "// Code generated by fcplug. DO NOT EDIT.\n\n            package "@ + go_mod_name + "\n            /*\n            #cgo CFLAGS: -I"@ + rust_c_lib_dir + "\n            #cgo LDFLAGS: -L"@ + rust_c_lib_dir + " -l"@ + rust_c_header_name_base + "\n\n            #include \""@ + rust_c_header_name_base + ".h\"\n            */\n            import \"C\"\n\n            import (\n                \"errors\"\n                \"fmt\"\n                \"reflect\"\n                \"unsafe\"\n\n                \"github.com/andeya/gust/valconv\"\n                \"github.com/bytedance/sonic\"\n                \"github.com/golang/protobuf/proto\"\n            )\n\n            var (\n                _ = errors.New\n                _ = fmt.Sprintf\n                _ reflect.SliceHeader\n                _ unsafe.Pointer\n                _ valconv.ReadonlyBytes\n                _ = sonic.Marshal\n                _ = proto.Marshal\n            )\n\n            "@
}

/// The Go package file.
pub fn ffidl_go_pkg_file(go_mod_name: &str, rust_c_lib_dir: &str, rust_c_header_name_base: &str) -> (r: String)
    ensures
        r@ == spec_ffidl_go_pkg_file(go_mod_name@, rust_c_lib_dir@, rust_c_header_name_base@),
{
    let mut r = String::from_str("// Code generated by fcplug. DO NOT EDIT.\n\n            package ");
    r.append(go_mod_name);
    r.append("\n            /*\n            #cgo CFLAGS: -I");
    r.append(rust_c_lib_dir);
    r.append("\n            #cgo LDFLAGS: -L");
    r.append(rust_c_lib_dir);
    r.append(" -l");
    r.append(rust_c_header_name_base);
    r.append("\n\n            #include \"");
    r.append(rust_c_header_name_base);
    r.append(".h\"\n            */\n            import \"C\"\n\n            import (\n                \"errors\"\n                \"fmt\"\n                \"reflect\"\n                \"unsafe\"\n\n                \"github.com/andeya/gust/valconv\"\n                \"github.com/bytedance/sonic\"\n                \"github.com/golang/protobuf/proto\"\n            )\n\n            var (\n                _ = errors.New\n                _ = fmt.Sprintf\n                _ reflect.SliceHeader\n                _ unsafe.Pointer\n                _ valconv.ReadonlyBytes\n                _ = sonic.Marshal\n                _ = proto.Marshal\n            )\n\n            ");
    r
}

/// A fresh `go.mod` file.
pub open spec fn spec_ffidl_go_mod_file(go_mod_path: Seq<char>) -> Seq<char> {
    "module "@ + go_mod_path + "\n\n            go 1.18\n\n            require (\n                github.com/andeya/gust v1.5.2\n                github.com/bytedance/sonic v1.9.2\n                github.com/golang/protobuf v1.5.3\n            )\n\n            "@
}

/// A fresh `go.mod` file.
pub fn ffidl_go_mod_file(go_mod_path: &str) -> (r: String)
    ensures
        r@ == spec_ffidl_go_mod_file(go_mod_path@),
{
    let mut r = String::from_str("module ");
    r.append(go_mod_path);
    r.append("\n\n            go 1.18\n\n            require (\n                github.com/andeya/gust v1.5.2\n                github.com/bytedance/sonic v1.9.2\n                github.com/golang/protobuf v1.5.3\n            )\n\n            ");
    r
}

/// A fresh Go file for the user implementation of the `GoFfi` interface.
pub open spec fn spec_ffidl_go_main_impl_file() -> Seq<char> {
    "package main\n\n            func init() {\n                // TODO: Replace with your own implementation, then re-execute `cargo build`\n                GlobalGoFfi = _UnimplementedGoFfi{}\n            }\n\n            "@
}

/// A fresh Go file for the user implementation of the `GoFfi` interface.
pub fn ffidl_go_main_impl_file() -> (r: String)
    ensures
        r@ == spec_ffidl_go_main_impl_file(),
{
    let r = String::from_str("package main\n\n            func init() {\n                // TODO: Replace with your own implementation, then re-execute `cargo build`\n                GlobalGoFfi = _UnimplementedGoFfi{}\n            }\n\n            ");
    r
}

} // verus!
