//! The Go file that calls the Rust C functions, one Go function per
//! exported Rust function, by kind of message.
use vstd::prelude::*;
use crate::build::backend::somes;
use crate::build::caller_templates::{
    go_caller_file_tpl, go_fb_fn_tpl, go_pb_fn_tpl, go_raw_fn_tpl, spec_go_caller_file_tpl,
    spec_go_fb_fn_tpl, spec_go_pb_fn_tpl, spec_go_raw_fn_tpl,
};
use crate::text::{
    join, replace_all, replace_str, seq_join, seq_starts_with, starts_with, str_eq, trim_end_seq,
    trim_end_str, views,
};

verus! {

/// The file name of the Go caller file.
pub fn caller_file_name() -> (r: &'static str)
    ensures
        r@ == "ffi.c.go"@,
{
    "ffi.c.go"
}

/// What the capture group `group` of the regular expression `pattern`
/// captures in `text`, match after match, as the `regex` crate finds them:
/// none for a match in which the group takes no part.
pub uninterp spec fn regex_group_captures(pattern: Seq<char>, group: Seq<char>, text: Seq<char>) -> Seq<Option<Seq<char>>>;

/// Whether the `regex` crate accepts `pattern` as a regular expression.
pub uninterp spec fn regex_accepts(pattern: Seq<char>) -> bool;

/// The texts of a list of optional strings.
pub open spec fn opt_views(list: Seq<Option<String>>) -> Seq<Option<Seq<char>>> {
    list.map_values(|o: Option<String>| match o {
        Some(s) => Some(s@),
        None => None,
    })
}

/// `regex::Regex::new`, `captures_iter` and `Captures::name`: for each match
/// of `pattern` in `text`, the text that the group named `group` captures
/// there (none where the group takes no part in the match, or where
/// `pattern` names no such group); none where `pattern` is not a valid
/// regular expression.
#[verifier::external_body]
fn captures_of_group(pattern: &str, group: &str, text: &str) -> (r: Option<Vec<Option<String>>>)
    ensures
        r is Some <==> regex_accepts(pattern@),
        r matches Some(v) ==> opt_views(v@) == regex_group_captures(pattern@, group@, text@),
{
    match regex::Regex::new(pattern) {
        Ok(re) => Some(re.captures_iter(text).map(|cap| cap.name(group).map(|m| m.as_str().to_string())).collect()),
        Err(_) => None,
    }
}

/// The pattern of a Rust C function declaration in the C header: it returns
/// `FFIResult` and takes `Buffer req`.
pub open spec fn c_fn_pattern() -> Seq<char> {
    "FFIResult (?P<c_fn_name>[A-Z_a-z0-9]+)\\(Buffer req\\);"@
}

/// The Go caller of the C function `c_fn_name`, by its prefix: raw bytes
/// (`ffi_raw_`), protobuf (`ffi_pb_`) or flatbuffer (`ffi_fb_`); empty for
/// another name.
pub open spec fn go_caller_fn_text(c_fn_name: Seq<char>) -> Seq<char> {
    if seq_starts_with(c_fn_name, "ffi_raw_"@) {
        replace_all(spec_go_raw_fn_tpl(), "${c_fn_name}"@, c_fn_name)
    } else if seq_starts_with(c_fn_name, "ffi_pb_"@) {
        replace_all(spec_go_pb_fn_tpl(), "${c_fn_name}"@, c_fn_name)
    } else if seq_starts_with(c_fn_name, "ffi_fb_"@) {
        replace_all(spec_go_fb_fn_tpl(), "${c_fn_name}"@, c_fn_name)
    } else {
        Seq::empty()
    }
}

/// The Go caller of the C function `c_fn_name`.
pub fn go_caller_fn(c_fn_name: &str) -> (r: String)
    ensures
        r@ == go_caller_fn_text(c_fn_name@),
{
    proof {
        reveal_strlit("${c_fn_name}");
    }
    if starts_with(c_fn_name, "ffi_raw_") {
        replace_str(go_raw_fn_tpl().as_str(), "${c_fn_name}", c_fn_name)
    } else if starts_with(c_fn_name, "ffi_pb_") {
        replace_str(go_pb_fn_tpl().as_str(), "${c_fn_name}", c_fn_name)
    } else if starts_with(c_fn_name, "ffi_fb_") {
        replace_str(go_fb_fn_tpl().as_str(), "${c_fn_name}", c_fn_name)
    } else {
        String::new()
    }
}

/// The Go caller file for the functions `fn_names`, in the Go package
/// `package`, linking the C library whose header is `c_header_file_name`:
/// the template with the package, the header name without `.h`, and the
/// callers joined with newlines filled in, in that order.
pub open spec fn go_caller_file_text(package: Seq<char>, c_header_file_name: Seq<char>, fn_names: Seq<Seq<char>>) -> Seq<char> {
    replace_all(
        replace_all(
            replace_all(spec_go_caller_file_tpl(), "${package}"@, package),
            "${c_header_name_base}"@,
            trim_end_seq(c_header_file_name, ".h"@),
        ),
        "${fn_list}"@,
        seq_join(fn_names.map_values(|n: Seq<char>| go_caller_fn_text(n)), "\n"@),
    )
}

/// The Go caller file for the functions `fn_names`.
pub fn gen_go_caller_file(package: &str, c_header_file_name: &str, fn_names: &Vec<String>) -> (r: String)
    ensures
        r@ == go_caller_file_text(package@, c_header_file_name@, views(fn_names@)),
{
    let ghost f = |n: Seq<char>| go_caller_fn_text(n);
    let mut parts: Vec<String> = Vec::new();
    let n = fn_names.len();
    let mut i: usize = 0;
    while i < n
        invariant
            n == fn_names.len(),
            i <= n,
            f == (|n: Seq<char>| go_caller_fn_text(n)),
            views(parts@) =~= views(fn_names@).take(i as int).map_values(f),
        decreases n - i,
    {
        let t = go_caller_fn(fn_names[i].as_str());
        let ghost old_parts = parts@;
        parts.push(t);
        assert(views(parts@) =~= views(old_parts).push(t@));
        assert(views(fn_names@).take(i + 1) =~= views(fn_names@).take(i as int).push(fn_names@[i as int]@));
        i = i + 1;
    }
    assert(views(fn_names@).take(n as int) =~= views(fn_names@));
    let fn_list = join(&parts, "\n");
    let base = trim_end_str(c_header_file_name, ".h");
    proof {
        reveal_strlit("${package}");
        reveal_strlit("${c_header_name_base}");
        reveal_strlit("${fn_list}");
    }
    let a = replace_str(go_caller_file_tpl().as_str(), "${package}", package);
    let b = replace_str(a.as_str(), "${c_header_name_base}", base.as_str());
    replace_str(b.as_str(), "${fn_list}", fn_list.as_str())
}

/// The names of the Rust C functions that the C header `header` declares:
/// those that return `FFIResult` and take `Buffer req`, in order; none where
/// the `regex` crate refuses the pattern. The name group takes part in every
/// match of this pattern; a match without it would be passed over.
pub fn c_fn_names(header: &str) -> (r: Option<Vec<String>>)
    ensures
        r is Some <==> regex_accepts(c_fn_pattern()),
        r matches Some(v) ==> views(v@) == somes(regex_group_captures(c_fn_pattern(), "c_fn_name"@, header@)),
{
    let caps = match captures_of_group("FFIResult (?P<c_fn_name>[A-Z_a-z0-9]+)\\(Buffer req\\);", "c_fn_name", header) {
        Some(caps) => caps,
        None => return None,
    };
    let ghost all = opt_views(caps@);
    let mut names: Vec<String> = Vec::new();
    let n = caps.len();
    let mut i: usize = 0;
    while i < n
        invariant
            n == caps.len(),
            i <= n,
            all == opt_views(caps@),
            views(names@) == somes(all.take(i as int)),
        decreases n - i,
    {
        assert(all.take(i + 1).drop_last() =~= all.take(i as int));
        match &caps[i] {
            Some(name) => {
                let ghost before = names@;
                names.push(name.clone());
                assert(views(names@) =~= views(before).push(name@));
            },
            None => {},
        }
        i = i + 1;
    }
    assert(all.take(n as int) =~= all);
    Some(names)
}

/// The Go caller file for the C header `header`, whose file name is
/// `c_header_file_name`, in the Go package `package`; none where the
/// pattern is refused.
pub fn gen_go_code(package: &str, c_header_file_name: &str, header: &str) -> (r: Option<String>)
    ensures
        r is Some <==> regex_accepts(c_fn_pattern()),
        r matches Some(t) ==> t@ == go_caller_file_text(
            package@,
            c_header_file_name@,
            somes(regex_group_captures(c_fn_pattern(), "c_fn_name"@, header@)),
        ),
{
    match c_fn_names(header) {
        Some(names) => Some(gen_go_caller_file(package, c_header_file_name, &names)),
        None => None,
    }
}

/// The `protoc` command that generates the Go code of the messages of
/// `filename` (in the directory `proto_dir`) into `go_out_dir`.
pub fn protoc_command(proto_dir: &str, go_out_dir: &str, filename: &str) -> (r: String)
    ensures
        r@ == "protoc --proto_path="@ + proto_dir@ + " --go_out "@ + go_out_dir@ + " "@ + filename@,
{
    let mut r = String::from_str("protoc --proto_path=");
    r.append(proto_dir);
    r.append(" --go_out ");
    r.append(go_out_dir);
    r.append(" ");
    r.append(filename);
    r
}

/// The configuration of the protobuf Go code: the IDL file.
pub struct PbGoConfig {
    pub filename: String,
}

/// Whether the Go caller code is generated for the Cargo package `pkg_name`:
/// not for the callee crate itself.
pub fn generates_go_caller(pkg_name: &str) -> (r: bool)
    ensures
        r == (pkg_name@ != "fcplug-callee"@),
{
    !str_eq(pkg_name, "fcplug-callee")
}

} // verus!
