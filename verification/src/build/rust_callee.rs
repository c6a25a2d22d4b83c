//! The C header of a crate whose Rust functions Go calls through the earlier
//! runtime: where the header and the library go, and the declarations put
//! after its includes.
use vstd::prelude::*;
use crate::text::{replace_char, replace_char_str, str_eq, views};

verus! {

/// Where the C header and the static library of the crate go.
pub struct Report {
    pub rust_c_header_filename: String,
    pub rust_c_lib_filename: String,
}

/// The components of the build profile directory, from those of the build
/// script's output directory: all but the last three (none where there are
/// fewer).
pub fn profile_dir_components(out_dir_components: &Vec<String>) -> (r: Vec<String>)
    ensures
        views(r@) == if out_dir_components@.len() >= 3 {
            views(out_dir_components@).take(out_dir_components@.len() - 3)
        } else {
            Seq::empty()
        },
{
    let mut r: Vec<String> = Vec::new();
    if out_dir_components.len() < 3 {
        return r;
    }
    let k = out_dir_components.len() - 3;
    let ghost vs = views(out_dir_components@);
    let mut i: usize = 0;
    while i < k
        invariant
            k == out_dir_components.len() - 3,
            out_dir_components.len() >= 3,
            i <= k,
            vs == views(out_dir_components@),
            views(r@) =~= vs.take(i as int),
        decreases k - i,
    {
        let ghost before = views(r@);
        r.push(out_dir_components[i].clone());
        assert(views(r@) =~= before.push(vs[i as int]));
        assert(vs.take(i + 1) =~= vs.take(i as int).push(vs[i as int]));
        i = i + 1;
    }
    r
}

/// Where the C header and the library of the Cargo package `cargo_pkg_name`
/// go in the profile directory `base`: `base/<name>.h` and
/// `base/lib<name>.a`, the name with `-` as `_`.
pub fn callee_report(base: &str, cargo_pkg_name: &str) -> (r: Report)
    ensures
        r.rust_c_header_filename@ == base@ + "/"@ + replace_char(cargo_pkg_name@, '-', '_') + ".h"@,
        r.rust_c_lib_filename@ == base@ + "/lib"@ + replace_char(cargo_pkg_name@, '-', '_') + ".a"@,
{
    let name = replace_char_str(cargo_pkg_name, '-', '_');
    let mut header = String::from_str(base);
    header.append("/");
    header.append(name.as_str());
    header.append(".h");
    let mut lib = String::from_str(base);
    lib.append("/lib");
    lib.append(name.as_str());
    lib.append(".a");
    Report { rust_c_header_filename: header, rust_c_lib_filename: lib }
}

/// The C declarations of the earlier runtime's types.
pub open spec fn spec_callee_types_decl() -> Seq<char> {
    "\ntypedef enum OriginType {\n  Vec = 0,\n  FlatBuffer = 1,\n} OriginType;\n\ntypedef enum ResultCode {\n  NoError = 0,\n  Decode = 1,\n  Encode = 2,\n} ResultCode;\n\ntypedef struct Buffer {\n  uint8_t *ptr;\n  uintptr_t len;\n  uintptr_t cap;\n} Buffer;\n\ntypedef struct LeakBuffer {\n  enum OriginType free_type;\n  uintptr_t free_ptr;\n  struct Buffer buffer;\n} LeakBuffer;\n\ntypedef struct FFIResult {\n  enum ResultCode code;\n  struct LeakBuffer data;\n} FFIResult;\n\nvoid free_buffer(enum OriginType free_type, uintptr_t free_ptr);\n"@
}

/// The declarations put after the includes of the header of the Cargo
/// package `cargo_pkg_name`: the runtime's types, except for the runtime's
/// own crate `fcplug-callee`, which declares them itself.
pub fn callee_after_include(cargo_pkg_name: &str) -> (r: String)
    ensures
        r@ == if cargo_pkg_name@ == "fcplug-callee"@ {
            Seq::<char>::empty()
        } else {
            spec_callee_types_decl()
        },
{
    if str_eq(cargo_pkg_name, "fcplug-callee") {
        String::new()
    } else {
        String::from_str("\ntypedef enum OriginType {\n  Vec = 0,\n  FlatBuffer = 1,\n} OriginType;\n\ntypedef enum ResultCode {\n  NoError = 0,\n  Decode = 1,\n  Encode = 2,\n} ResultCode;\n\ntypedef struct Buffer {\n  uint8_t *ptr;\n  uintptr_t len;\n  uintptr_t cap;\n} Buffer;\n\ntypedef struct LeakBuffer {\n  enum OriginType free_type;\n  uintptr_t free_ptr;\n  struct Buffer buffer;\n} LeakBuffer;\n\ntypedef struct FFIResult {\n  enum ResultCode code;\n  struct LeakBuffer data;\n} FFIResult;\n\nvoid free_buffer(enum OriginType free_type, uintptr_t free_ptr);\n")
    }
}

} // verus!
