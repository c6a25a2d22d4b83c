//! Properties that hold across the generator and the runtime.
use vstd::prelude::*;
use vstd::utf8::{encode_utf8, encode_utf8_decode_utf8};
use crate::build::backend::{fixed_args, fixed_method, fixed_ret};
use crate::build::config::{declares_module, hex_text, is_fingerprint_file_spec, pkg_name_of};
use crate::build::os_arch::{GoOS, RustOS, go_os_from_name, go_os_name, go_os_of, rust_os_name, GoArch, go_arch_from_name, go_arch_name, go_arch_of, rust_arch_name, RustArch};
use crate::build::generator::spec_is_empty_ty;
use crate::build::ir::{Arg, MethodView, NumClass, Ty, TyKind, number_type};
use crate::build::rust_gen::rust_ty_name;
use crate::build::go_gen::go_ty_name;
use crate::build::ffidl_go::ffidl_go_ty_name;
use crate::build::templates::spec_go_mod_file;
use crate::runtime::abi::{ABIResult, GoFfiResult, RC_NO_ERROR, ResultMsg, error_code, go_err, go_ok, received_as};
use crate::runtime::ctypes::{ConvRepr, FfiArray, MapEntry, entries_map, entry_pairs, lists_map};
use crate::text::{replace_char, seq_contains, seq_join, split_seq, trim_end, trim_start, lemma_split_seq_len};

verus! {

/// Fixing a method twice changes nothing more: its arguments then all carry
/// data, and its return type is void or carries data.
pub proof fn lemma_fix_empty_params_idempotent(m: MethodView)
    ensures
        fixed_method(fixed_method(m)) == fixed_method(m),
        forall|i: int| 0 <= i < fixed_method(m).args.len() ==> !spec_is_empty_ty(
            #[trigger] fixed_method(m).args[i].ty.kind,
        ),
        spec_is_empty_ty(fixed_method(m).ret) ==> fixed_method(m).ret is Void,
{
    let p = |a: Arg| !spec_is_empty_ty(a.ty.kind);
    broadcast use vstd::seq_lib::group_filter_ensures;
    reveal(Seq::filter);
    assert(fixed_args(m.args) == m.args.filter(p));
    lemma_filter_all(m.args.filter(p), p);
    assert(fixed_args(fixed_args(m.args)) =~= fixed_args(m.args));
    assert(fixed_method(fixed_method(m)) =~= fixed_method(m));
}

/// Filtering a sequence whose items all pass the test changes nothing.
proof fn lemma_filter_all<A>(s: Seq<A>, p: spec_fn(A) -> bool)
    requires
        forall|i: int| 0 <= i < s.len() ==> p(#[trigger] s[i]),
    ensures
        s.filter(p) == s,
    decreases s.len(),
{
    reveal(Seq::filter);
    if s.len() > 0 {
        lemma_filter_all(s.drop_last(), p);
        assert(s.drop_last().push(s.last()) =~= s);
    }
}

/// An error is never reported with the success code, and reporting it again
/// keeps its code.
pub proof fn lemma_error_code_is_failure(code: i8)
    ensures
        error_code(code) != RC_NO_ERROR,
        error_code(error_code(code)) == error_code(code),
        code != RC_NO_ERROR ==> error_code(code) == code,
{
}

/// A package name has no `.` or `-`, and neither starts nor ends with `_`.
pub proof fn lemma_pkg_name_clean(dir_name: Seq<char>)
    ensures
        forall|i: int| 0 <= i < pkg_name_of(dir_name).len() ==> #[trigger] pkg_name_of(dir_name)[i]
            != '.' && pkg_name_of(dir_name)[i] != '-',
        pkg_name_of(dir_name).len() > 0 ==> pkg_name_of(dir_name)[0] != '_' && pkg_name_of(
            dir_name,
        ).last() != '_',
{
    let a = replace_char(replace_char(dir_name, '.', '_'), '-', '_');
    lemma_trim_start_suffix(a, '_');
    let b = trim_start(a, '_');
    lemma_trim_end_prefix(b, '_');
    let c = trim_end(b, '_');
    assert(c == pkg_name_of(dir_name));
    if c.len() > 0 {
        assert(c[0] == b[0]);
    }
}

/// Trimming at the start leaves a suffix that does not start with the character.
proof fn lemma_trim_start_suffix(s: Seq<char>, c: char)
    ensures
        exists|k: int| 0 <= k <= s.len() && trim_start(s, c) == s.skip(k),
        trim_start(s, c).len() > 0 ==> trim_start(s, c)[0] != c,
    decreases s.len(),
{
    if s.len() > 0 && s[0] == c {
        lemma_trim_start_suffix(s.drop_first(), c);
        let k = choose|k: int| 0 <= k <= s.drop_first().len() && trim_start(s.drop_first(), c)
            == s.drop_first().skip(k);
        assert(s.drop_first().skip(k) =~= s.skip(k + 1));
    } else {
        assert(s.skip(0) =~= s);
    }
}

/// Trimming at the end leaves a prefix that does not end with the character.
proof fn lemma_trim_end_prefix(s: Seq<char>, c: char)
    ensures
        exists|k: int| 0 <= k <= s.len() && trim_end(s, c) == s.take(k),
        trim_end(s, c).len() > 0 ==> trim_end(s, c).last() != c,
    decreases s.len(),
{
    if s.len() > 0 && s.last() == c {
        lemma_trim_end_prefix(s.drop_last(), c);
        let k = choose|k: int| 0 <= k <= s.drop_last().len() && trim_end(s.drop_last(), c)
            == s.drop_last().take(k);
        assert(s.drop_last().take(k) =~= s.take(k));
    } else {
        assert(s.take(s.len() as int) =~= s);
    }
}

/// The `go.mod` that the generator writes for a module is accepted by the
/// check of the module path.
pub proof fn lemma_fresh_go_mod_declares_module(gomod_path: Seq<char>, mod_requires: Seq<char>)
    ensures
        declares_module(spec_go_mod_file(gomod_path, mod_requires), gomod_path),
{
    reveal_strlit("module ");
    reveal_strlit("\n");
    reveal_strlit("\n\n            go 1.18\n\n            require (\n                ");
    let content = spec_go_mod_file(gomod_path, mod_requires);
    let line = "module "@ + gomod_path + "\n"@;
    assert(content.subrange(0int, 0int + line.len()) =~= line);
}

/// Each byte takes two hexadecimal digits.
pub proof fn lemma_hex_len(bytes: Seq<u8>)
    ensures
        hex_text(bytes).len() == 2 * bytes.len(),
    decreases bytes.len(),
{
    if bytes.len() > 0 {
        lemma_hex_len(bytes.drop_last());
    }
}

/// A C string represents one string only: converting a string to its C
/// representation and back gives the same characters.
pub proof fn lemma_string_repr_round_trip(c: FfiArray<u8>, x: String, y: String)
    requires
        <String as ConvRepr>::represents(c, x),
        <String as ConvRepr>::represents(c, y),
    ensures
        x@ == y@,
{
    encode_utf8_decode_utf8(x@);
    encode_utf8_decode_utf8(y@);
}

/// A C array of integers represents one list only: converting a list to its
/// C representation and back gives the same items.
pub proof fn lemma_vec_repr_round_trip(c: FfiArray<u64>, x: Vec<u64>, y: Vec<u64>)
    requires
        <Vec<u64> as ConvRepr>::represents(c, x),
        <Vec<u64> as ConvRepr>::represents(c, y),
    ensures
        x@ == y@,
{
    assert forall|i: int| 0 <= i < x@.len() implies x@[i] == y@[i] by {
        assert(<u64 as ConvRepr>::represents(c@[i], x@[i]));
        assert(<u64 as ConvRepr>::represents(c@[i], y@[i]));
    }
    assert(x@ =~= y@);
}

/// Whether each C representation of `T` represents one value at most.
pub open spec fn repr_unique<T: ConvRepr>() -> bool {
    forall|c: T::CRepr, a: T, b: T|
        #![trigger T::represents(c, a), T::represents(c, b)]
        T::represents(c, a) && T::represents(c, b) ==> a == b
}

/// Where a C representation of the items represents one item only, a C
/// array represents one list only: converting a list to its C
/// representation and back gives the same items.
pub proof fn lemma_vec_repr_unique<T: ConvRepr>(c: FfiArray<T::CRepr>, x: Vec<T>, y: Vec<T>)
    requires
        repr_unique::<T>(),
        <Vec<T> as ConvRepr>::represents(c, x),
        <Vec<T> as ConvRepr>::represents(c, y),
    ensures
        x@ == y@,
{
    assert forall|i: int| 0 <= i < x@.len() implies x@[i] == y@[i] by {
        assert(T::represents(c@[i], x@[i]));
        assert(T::represents(c@[i], y@[i]));
    }
    assert(x@ =~= y@);
}

/// Where a C representation of `T` represents one value only, so does the
/// C representation of a box of it: converting a box to its C
/// representation and back gives the same value.
pub proof fn lemma_box_repr_unique<T: ConvRepr>(c: Box<T::CRepr>, x: Box<T>, y: Box<T>)
    requires
        repr_unique::<T>(),
        <Box<T> as ConvRepr>::represents(c, x),
        <Box<T> as ConvRepr>::represents(c, y),
    ensures
        x == y,
{
    assert(T::represents(*c, *x) && T::represents(*c, *y));
}

/// Each integer is its own C representation.
pub proof fn lemma_u64_repr_unique()
    ensures
        repr_unique::<u64>(),
{
}

/// A value that Go hands back as a success is received as that value.
pub proof fn lemma_go_ok_received<T>(x: T, r: ABIResult<T>)
    requires
        received_as(go_ok(x), r),
    ensures
        r == Ok::<T, ResultMsg>(x),
{
}

/// An error that Go hands back is received as an error with its code
/// (`RC_UNKNOWN` for a code of `RC_NO_ERROR`) and its message.
pub proof fn lemma_go_err_received<T>(m: ResultMsg, g: GoFfiResult<T>, r: ABIResult<T>)
    requires
        go_err(g, m),
        received_as(g, r),
    ensures
        r matches Err(e) && e.code == error_code(m.code) && e.msg@ == m.msg@,
{
}

/// The keys of the entries, in order.
spec fn entry_keys<K, V>(e: Seq<MapEntry<K, V>>) -> Seq<K> {
    e.map_values(|x: MapEntry<K, V>| x.key)
}

/// Entries with distinct keys make the map of exactly those keys, each to
/// its value.
proof fn lemma_distinct_entries_map<K, V>(e: Seq<MapEntry<K, V>>)
    requires
        entry_keys(e).no_duplicates(),
    ensures
        entries_map(e).dom() == entry_keys(e).to_set(),
        forall|i: int| 0 <= i < e.len() ==> #[trigger] entries_map(e)[e[i].key] == e[i].value,
    decreases e.len(),
{
    broadcast use vstd::seq_lib::group_seq_properties;
    if e.len() > 0 {
        let d = e.drop_last();
        assert(entry_keys(d) =~= entry_keys(e).drop_last());
        lemma_distinct_entries_map(d);
        assert(entry_keys(e) =~= entry_keys(d).push(e.last().key));
        assert(entry_keys(e).to_set() =~= entry_keys(d).to_set().insert(e.last().key));
        assert forall|i: int| 0 <= i < e.len() implies #[trigger] entries_map(e)[e[i].key] == e[i].value by {
            if i < e.len() - 1 {
                assert(entry_keys(e)[i] != entry_keys(e)[e.len() - 1]);
                assert(d[i] == e[i]);
            }
        }
    } else {
        assert(entry_keys(e).to_set() =~= Set::<K>::empty());
    }
}

/// A map survives the trip through its entries: the entries that list a map
/// (each of its entries once, in any order, as a hash map or an ordered map
/// hands them out) make that map again.
pub proof fn lemma_listed_entries_make_map<K, V>(e: Seq<MapEntry<K, V>>, m: Map<K, V>)
    requires
        m.dom().finite(),
        lists_map(entry_pairs(e), m),
    ensures
        entries_map(e) == m,
{
    broadcast use vstd::seq_lib::group_seq_properties;
    let ks = entry_keys(e);
    let ps = entry_pairs(e);
    assert forall|i: int, j: int| 0 <= i < j < ks.len() implies ks[i] != ks[j] by {
        assert(ps[i].0 != ps[j].0);
    }
    assert(ks.no_duplicates());
    lemma_distinct_entries_map(e);
    ks.unique_seq_to_set();
    assert forall|k: K| ks.to_set().contains(k) implies m.dom().contains(k) by {
        let i = choose|i: int| 0 <= i < ks.len() && ks[i] == k;
        assert(m.contains_key(ps[i].0));
    }
    vstd::set_lib::lemma_subset_equality(ks.to_set(), m.dom());
    assert forall|k: K| #[trigger] m.contains_key(k) implies entries_map(e)[k] == m[k] by {
        assert(ks.to_set().contains(k));
        let i = choose|i: int| 0 <= i < ks.len() && ks[i] == k;
        assert(m.contains_key(ps[i].0) && m[ps[i].0] == ps[i].1);
        assert(entries_map(e)[e[i].key] == e[i].value);
    }
    assert(entries_map(e) =~= m);
}

/// Joining the pieces of a split with the separator gives the text back.
pub proof fn lemma_split_join(s: Seq<char>, c: char)
    ensures
        seq_join(split_seq(s, c), seq![c]) == s,
    decreases s.len(),
{
    if s.len() == 0 {
        assert(seq_join(split_seq(s, c), seq![c]) =~= s);
    } else {
        lemma_split_join(s.drop_last(), c);
        lemma_split_seq_len(s.drop_last(), c);
        let rest = split_seq(s.drop_last(), c);
        if s.last() == c {
            assert(rest.push(Seq::<char>::empty()).drop_last() =~= rest);
            assert(s =~= s.drop_last() + seq![c] + Seq::<char>::empty());
        } else {
            let n = rest.len();
            let up = rest.update(n - 1, rest.last().push(s.last()));
            if n == 1 {
                assert(seq_join(up, seq![c]) =~= s);
            } else {
                assert(up.drop_last() =~= rest.drop_last());
                assert(seq_join(up, seq![c]) =~= seq_join(rest, seq![c]).push(s.last()));
                assert(s =~= s.drop_last().push(s.last()));
            }
        }
    }
}

/// Go keeps the names of the operating systems it shares with Rust: a Rust
/// operating system whose name Go also uses builds for the Go operating
/// system of that name, and the Go operating system of any Rust one has the
/// same name, but for `androideabi` (Go's `android`) and `unknown` (Go's
/// `js`, the browser target). Go has no target for the other Rust
/// operating systems.
pub proof fn lemma_go_os_keeps_name(os: RustOS)
    ensures
        go_os_from_name(rust_os_name(os)) matches Some(g) ==> go_os_of(os) == Some(g),
        go_os_of(os) matches Some(g) ==> go_os_name(g) == rust_os_name(os) || (os == RustOS::androideabi
            && g == GoOS::android) || (os == RustOS::unknown && g == GoOS::js),
        go_os_of(os) is None <==> (go_os_from_name(rust_os_name(os)) is None && os != RustOS::androideabi
            && os != RustOS::unknown),
{
    reveal_strlit("3ds");
    reveal_strlit("aix");
    reveal_strlit("android");
    reveal_strlit("androideabi");
    reveal_strlit("cuda");
    reveal_strlit("darwin");
    reveal_strlit("dragonfly");
    reveal_strlit("eabi");
    reveal_strlit("eabihf");
    reveal_strlit("elf");
    reveal_strlit("emscripten");
    reveal_strlit("espidf");
    reveal_strlit("freebsd");
    reveal_strlit("fuchsia");
    reveal_strlit("gnu");
    reveal_strlit("haiku");
    reveal_strlit("hermit");
    reveal_strlit("illumos");
    reveal_strlit("ios");
    reveal_strlit("js");
    reveal_strlit("l4re");
    reveal_strlit("linux");
    reveal_strlit("netbsd");
    reveal_strlit("none");
    reveal_strlit("nto");
    reveal_strlit("openbsd");
    reveal_strlit("plan9");
    reveal_strlit("psp");
    reveal_strlit("psx");
    reveal_strlit("redox");
    reveal_strlit("solaris");
    reveal_strlit("solid_asp3");
    reveal_strlit("switch");
    reveal_strlit("tvos");
    reveal_strlit("uefi");
    reveal_strlit("unknown");
    reveal_strlit("vita");
    reveal_strlit("vxworks");
    reveal_strlit("watchos");
    reveal_strlit("windows");
    reveal_strlit("xous");
    assert("3ds"@.len() == 3 && "3ds"@[0] == '3' && "3ds"@[1] == 'd' && "3ds"@[2] == 's');
    assert("aix"@.len() == 3 && "aix"@[0] == 'a' && "aix"@[1] == 'i' && "aix"@[2] == 'x');
    assert("android"@.len() == 7 && "android"@[0] == 'a' && "android"@[1] == 'n' && "android"@[6] == 'd');
    assert("androideabi"@.len() == 11 && "androideabi"@[0] == 'a' && "androideabi"@[1] == 'n' && "androideabi"@[10] == 'i');
    assert("cuda"@.len() == 4 && "cuda"@[0] == 'c' && "cuda"@[1] == 'u' && "cuda"@[3] == 'a');
    assert("darwin"@.len() == 6 && "darwin"@[0] == 'd' && "darwin"@[1] == 'a' && "darwin"@[5] == 'n');
    assert("dragonfly"@.len() == 9 && "dragonfly"@[0] == 'd' && "dragonfly"@[1] == 'r' && "dragonfly"@[8] == 'y');
    assert("eabi"@.len() == 4 && "eabi"@[0] == 'e' && "eabi"@[1] == 'a' && "eabi"@[3] == 'i');
    assert("eabihf"@.len() == 6 && "eabihf"@[0] == 'e' && "eabihf"@[1] == 'a' && "eabihf"@[5] == 'f');
    assert("elf"@.len() == 3 && "elf"@[0] == 'e' && "elf"@[1] == 'l' && "elf"@[2] == 'f');
    assert("emscripten"@.len() == 10 && "emscripten"@[0] == 'e' && "emscripten"@[1] == 'm' && "emscripten"@[9] == 'n');
    assert("espidf"@.len() == 6 && "espidf"@[0] == 'e' && "espidf"@[1] == 's' && "espidf"@[5] == 'f');
    assert("freebsd"@.len() == 7 && "freebsd"@[0] == 'f' && "freebsd"@[1] == 'r' && "freebsd"@[6] == 'd');
    assert("fuchsia"@.len() == 7 && "fuchsia"@[0] == 'f' && "fuchsia"@[1] == 'u' && "fuchsia"@[6] == 'a');
    assert("gnu"@.len() == 3 && "gnu"@[0] == 'g' && "gnu"@[1] == 'n' && "gnu"@[2] == 'u');
    assert("haiku"@.len() == 5 && "haiku"@[0] == 'h' && "haiku"@[1] == 'a' && "haiku"@[4] == 'u');
    assert("hermit"@.len() == 6 && "hermit"@[0] == 'h' && "hermit"@[1] == 'e' && "hermit"@[5] == 't');
    assert("illumos"@.len() == 7 && "illumos"@[0] == 'i' && "illumos"@[1] == 'l' && "illumos"@[6] == 's');
    assert("ios"@.len() == 3 && "ios"@[0] == 'i' && "ios"@[1] == 'o' && "ios"@[2] == 's');
    assert("js"@.len() == 2 && "js"@[0] == 'j' && "js"@[1] == 's');
    assert("l4re"@.len() == 4 && "l4re"@[0] == 'l' && "l4re"@[1] == '4' && "l4re"@[3] == 'e');
    assert("linux"@.len() == 5 && "linux"@[0] == 'l' && "linux"@[1] == 'i' && "linux"@[4] == 'x');
    assert("netbsd"@.len() == 6 && "netbsd"@[0] == 'n' && "netbsd"@[1] == 'e' && "netbsd"@[5] == 'd');
    assert("none"@.len() == 4 && "none"@[0] == 'n' && "none"@[1] == 'o' && "none"@[3] == 'e');
    assert("nto"@.len() == 3 && "nto"@[0] == 'n' && "nto"@[1] == 't' && "nto"@[2] == 'o');
    assert("openbsd"@.len() == 7 && "openbsd"@[0] == 'o' && "openbsd"@[1] == 'p' && "openbsd"@[6] == 'd');
    assert("plan9"@.len() == 5 && "plan9"@[0] == 'p' && "plan9"@[1] == 'l' && "plan9"@[4] == '9');
    assert("psp"@.len() == 3 && "psp"@[0] == 'p' && "psp"@[1] == 's' && "psp"@[2] == 'p');
    assert("psx"@.len() == 3 && "psx"@[0] == 'p' && "psx"@[1] == 's' && "psx"@[2] == 'x');
    assert("redox"@.len() == 5 && "redox"@[0] == 'r' && "redox"@[1] == 'e' && "redox"@[4] == 'x');
    assert("solaris"@.len() == 7 && "solaris"@[0] == 's' && "solaris"@[1] == 'o' && "solaris"@[6] == 's');
    assert("solid_asp3"@.len() == 10 && "solid_asp3"@[0] == 's' && "solid_asp3"@[1] == 'o' && "solid_asp3"@[9] == '3');
    assert("switch"@.len() == 6 && "switch"@[0] == 's' && "switch"@[1] == 'w' && "switch"@[5] == 'h');
    assert("tvos"@.len() == 4 && "tvos"@[0] == 't' && "tvos"@[1] == 'v' && "tvos"@[3] == 's');
    assert("uefi"@.len() == 4 && "uefi"@[0] == 'u' && "uefi"@[1] == 'e' && "uefi"@[3] == 'i');
    assert("unknown"@.len() == 7 && "unknown"@[0] == 'u' && "unknown"@[1] == 'n' && "unknown"@[6] == 'n');
    assert("vita"@.len() == 4 && "vita"@[0] == 'v' && "vita"@[1] == 'i' && "vita"@[3] == 'a');
    assert("vxworks"@.len() == 7 && "vxworks"@[0] == 'v' && "vxworks"@[1] == 'x' && "vxworks"@[6] == 's');
    assert("watchos"@.len() == 7 && "watchos"@[0] == 'w' && "watchos"@[1] == 'a' && "watchos"@[6] == 's');
    assert("windows"@.len() == 7 && "windows"@[0] == 'w' && "windows"@[1] == 'i' && "windows"@[6] == 's');
    assert("xous"@.len() == 4 && "xous"@[0] == 'x' && "xous"@[1] == 'o' && "xous"@[3] == 's');
    match os {
        RustOS::_3ds => {},
        RustOS::aix => {},
        RustOS::android => {},
        RustOS::androideabi => {},
        RustOS::cuda => {},
        RustOS::darwin => {},
        RustOS::dragonfly => {},
        RustOS::eabi => {},
        RustOS::eabihf => {},
        RustOS::elf => {},
        RustOS::emscripten => {},
        RustOS::espidf => {},
        RustOS::freebsd => {},
        RustOS::fuchsia => {},
        RustOS::gnu => {},
        RustOS::haiku => {},
        RustOS::hermit => {},
        RustOS::illumos => {},
        RustOS::ios => {},
        RustOS::l4re => {},
        RustOS::linux => {},
        RustOS::netbsd => {},
        RustOS::none => {},
        RustOS::nto => {},
        RustOS::openbsd => {},
        RustOS::psp => {},
        RustOS::psx => {},
        RustOS::redox => {},
        RustOS::solaris => {},
        RustOS::solid_asp3 => {},
        RustOS::switch => {},
        RustOS::tvos => {},
        RustOS::uefi => {},
        RustOS::unknown => {},
        RustOS::vita => {},
        RustOS::vxworks => {},
        RustOS::watchos => {},
        RustOS::windows => {},
        RustOS::xous => {},
    }
}

/// A Rust architecture whose name Go also uses builds for the Go
/// architecture of that name.
pub proof fn lemma_go_arch_keeps_name(arch: RustArch)
    ensures
        go_arch_from_name(rust_arch_name(arch)) matches Some(g) ==> go_arch_of(arch) == Some(g),
{
    reveal_strlit("386");
    reveal_strlit("aarch64");
    reveal_strlit("aarch64_be");
    reveal_strlit("amd64");
    reveal_strlit("arm");
    reveal_strlit("arm64");
    reveal_strlit("arm64_32");
    reveal_strlit("armeb");
    reveal_strlit("armebv7r");
    reveal_strlit("armv4t");
    reveal_strlit("armv5te");
    reveal_strlit("armv6");
    reveal_strlit("armv6k");
    reveal_strlit("armv7");
    reveal_strlit("armv7a");
    reveal_strlit("armv7k");
    reveal_strlit("armv7r");
    reveal_strlit("armv7s");
    reveal_strlit("asmjs");
    reveal_strlit("avr");
    reveal_strlit("bpfeb");
    reveal_strlit("bpfel");
    reveal_strlit("hexagon");
    reveal_strlit("i386");
    reveal_strlit("i586");
    reveal_strlit("i686");
    reveal_strlit("loong64");
    reveal_strlit("loongarch64");
    reveal_strlit("m68k");
    reveal_strlit("mips");
    reveal_strlit("mips64");
    reveal_strlit("mips64el");
    reveal_strlit("mips64le");
    reveal_strlit("mipsel");
    reveal_strlit("mipsisa32r6");
    reveal_strlit("mipsisa32r6el");
    reveal_strlit("mipsisa64r6");
    reveal_strlit("mipsisa64r6el");
    reveal_strlit("mipsle");
    reveal_strlit("msp430");
    reveal_strlit("nvptx64");
    reveal_strlit("powerpc");
    reveal_strlit("powerpc64");
    reveal_strlit("powerpc64le");
    reveal_strlit("ppc64");
    reveal_strlit("ppc64le");
    reveal_strlit("riscv32gc");
    reveal_strlit("riscv32i");
    reveal_strlit("riscv32im");
    reveal_strlit("riscv32imac");
    reveal_strlit("riscv32imc");
    reveal_strlit("riscv64");
    reveal_strlit("riscv64gc");
    reveal_strlit("riscv64imac");
    reveal_strlit("s390x");
    reveal_strlit("sparc");
    reveal_strlit("sparc64");
    reveal_strlit("sparcv9");
    reveal_strlit("thumbv4t");
    reveal_strlit("thumbv5te");
    reveal_strlit("thumbv6m");
    reveal_strlit("thumbv7a");
    reveal_strlit("thumbv7em");
    reveal_strlit("thumbv7m");
    reveal_strlit("thumbv7neon");
    reveal_strlit("thumbv8m_base");
    reveal_strlit("thumbv8m_main");
    reveal_strlit("wasm");
    reveal_strlit("wasm32");
    reveal_strlit("wasm64");
    reveal_strlit("x86_64");
    reveal_strlit("x86_64h");
    assert("386"@.len() == 3 && "386"@[0] == '3' && "386"@[1] == '8' && "386"@[2] == '6');
    assert("aarch64"@.len() == 7 && "aarch64"@[0] == 'a' && "aarch64"@[1] == 'a' && "aarch64"@[6] == '4');
    assert("aarch64_be"@.len() == 10 && "aarch64_be"@[0] == 'a' && "aarch64_be"@[1] == 'a' && "aarch64_be"@[9] == 'e');
    assert("amd64"@.len() == 5 && "amd64"@[0] == 'a' && "amd64"@[1] == 'm' && "amd64"@[4] == '4');
    assert("arm"@.len() == 3 && "arm"@[0] == 'a' && "arm"@[1] == 'r' && "arm"@[2] == 'm');
    assert("arm64"@.len() == 5 && "arm64"@[0] == 'a' && "arm64"@[1] == 'r' && "arm64"@[4] == '4');
    assert("arm64_32"@.len() == 8 && "arm64_32"@[0] == 'a' && "arm64_32"@[1] == 'r' && "arm64_32"@[7] == '2');
    assert("armeb"@.len() == 5 && "armeb"@[0] == 'a' && "armeb"@[1] == 'r' && "armeb"@[4] == 'b');
    assert("armebv7r"@.len() == 8 && "armebv7r"@[0] == 'a' && "armebv7r"@[1] == 'r' && "armebv7r"@[7] == 'r');
    assert("armv4t"@.len() == 6 && "armv4t"@[0] == 'a' && "armv4t"@[1] == 'r' && "armv4t"@[5] == 't');
    assert("armv5te"@.len() == 7 && "armv5te"@[0] == 'a' && "armv5te"@[1] == 'r' && "armv5te"@[6] == 'e');
    assert("armv6"@.len() == 5 && "armv6"@[0] == 'a' && "armv6"@[1] == 'r' && "armv6"@[4] == '6');
    assert("armv6k"@.len() == 6 && "armv6k"@[0] == 'a' && "armv6k"@[1] == 'r' && "armv6k"@[5] == 'k');
    assert("armv7"@.len() == 5 && "armv7"@[0] == 'a' && "armv7"@[1] == 'r' && "armv7"@[4] == '7');
    assert("armv7a"@.len() == 6 && "armv7a"@[0] == 'a' && "armv7a"@[1] == 'r' && "armv7a"@[5] == 'a');
    assert("armv7k"@.len() == 6 && "armv7k"@[0] == 'a' && "armv7k"@[1] == 'r' && "armv7k"@[5] == 'k');
    assert("armv7r"@.len() == 6 && "armv7r"@[0] == 'a' && "armv7r"@[1] == 'r' && "armv7r"@[5] == 'r');
    assert("armv7s"@.len() == 6 && "armv7s"@[0] == 'a' && "armv7s"@[1] == 'r' && "armv7s"@[5] == 's');
    assert("asmjs"@.len() == 5 && "asmjs"@[0] == 'a' && "asmjs"@[1] == 's' && "asmjs"@[4] == 's');
    assert("avr"@.len() == 3 && "avr"@[0] == 'a' && "avr"@[1] == 'v' && "avr"@[2] == 'r');
    assert("bpfeb"@.len() == 5 && "bpfeb"@[0] == 'b' && "bpfeb"@[1] == 'p' && "bpfeb"@[4] == 'b');
    assert("bpfel"@.len() == 5 && "bpfel"@[0] == 'b' && "bpfel"@[1] == 'p' && "bpfel"@[4] == 'l');
    assert("hexagon"@.len() == 7 && "hexagon"@[0] == 'h' && "hexagon"@[1] == 'e' && "hexagon"@[6] == 'n');
    assert("i386"@.len() == 4 && "i386"@[0] == 'i' && "i386"@[1] == '3' && "i386"@[3] == '6');
    assert("i586"@.len() == 4 && "i586"@[0] == 'i' && "i586"@[1] == '5' && "i586"@[3] == '6');
    assert("i686"@.len() == 4 && "i686"@[0] == 'i' && "i686"@[1] == '6' && "i686"@[3] == '6');
    assert("loong64"@.len() == 7 && "loong64"@[0] == 'l' && "loong64"@[1] == 'o' && "loong64"@[6] == '4');
    assert("loongarch64"@.len() == 11 && "loongarch64"@[0] == 'l' && "loongarch64"@[1] == 'o' && "loongarch64"@[10] == '4');
    assert("m68k"@.len() == 4 && "m68k"@[0] == 'm' && "m68k"@[1] == '6' && "m68k"@[3] == 'k');
    assert("mips"@.len() == 4 && "mips"@[0] == 'm' && "mips"@[1] == 'i' && "mips"@[3] == 's');
    assert("mips64"@.len() == 6 && "mips64"@[0] == 'm' && "mips64"@[1] == 'i' && "mips64"@[5] == '4');
    assert("mips64el"@.len() == 8 && "mips64el"@[0] == 'm' && "mips64el"@[1] == 'i' && "mips64el"@[7] == 'l');
    assert("mips64le"@.len() == 8 && "mips64le"@[0] == 'm' && "mips64le"@[1] == 'i' && "mips64le"@[7] == 'e');
    assert("mipsel"@.len() == 6 && "mipsel"@[0] == 'm' && "mipsel"@[1] == 'i' && "mipsel"@[5] == 'l');
    assert("mipsisa32r6"@.len() == 11 && "mipsisa32r6"@[0] == 'm' && "mipsisa32r6"@[1] == 'i' && "mipsisa32r6"@[10] == '6');
    assert("mipsisa32r6el"@.len() == 13 && "mipsisa32r6el"@[0] == 'm' && "mipsisa32r6el"@[1] == 'i' && "mipsisa32r6el"@[12] == 'l');
    assert("mipsisa64r6"@.len() == 11 && "mipsisa64r6"@[0] == 'm' && "mipsisa64r6"@[1] == 'i' && "mipsisa64r6"@[10] == '6');
    assert("mipsisa64r6el"@.len() == 13 && "mipsisa64r6el"@[0] == 'm' && "mipsisa64r6el"@[1] == 'i' && "mipsisa64r6el"@[12] == 'l');
    assert("mipsle"@.len() == 6 && "mipsle"@[0] == 'm' && "mipsle"@[1] == 'i' && "mipsle"@[5] == 'e');
    assert("msp430"@.len() == 6 && "msp430"@[0] == 'm' && "msp430"@[1] == 's' && "msp430"@[5] == '0');
    assert("nvptx64"@.len() == 7 && "nvptx64"@[0] == 'n' && "nvptx64"@[1] == 'v' && "nvptx64"@[6] == '4');
    assert("powerpc"@.len() == 7 && "powerpc"@[0] == 'p' && "powerpc"@[1] == 'o' && "powerpc"@[6] == 'c');
    assert("powerpc64"@.len() == 9 && "powerpc64"@[0] == 'p' && "powerpc64"@[1] == 'o' && "powerpc64"@[8] == '4');
    assert("powerpc64le"@.len() == 11 && "powerpc64le"@[0] == 'p' && "powerpc64le"@[1] == 'o' && "powerpc64le"@[10] == 'e');
    assert("ppc64"@.len() == 5 && "ppc64"@[0] == 'p' && "ppc64"@[1] == 'p' && "ppc64"@[4] == '4');
    assert("ppc64le"@.len() == 7 && "ppc64le"@[0] == 'p' && "ppc64le"@[1] == 'p' && "ppc64le"@[6] == 'e');
    assert("riscv32gc"@.len() == 9 && "riscv32gc"@[0] == 'r' && "riscv32gc"@[1] == 'i' && "riscv32gc"@[8] == 'c');
    assert("riscv32i"@.len() == 8 && "riscv32i"@[0] == 'r' && "riscv32i"@[1] == 'i' && "riscv32i"@[7] == 'i');
    assert("riscv32im"@.len() == 9 && "riscv32im"@[0] == 'r' && "riscv32im"@[1] == 'i' && "riscv32im"@[8] == 'm');
    assert("riscv32imac"@.len() == 11 && "riscv32imac"@[0] == 'r' && "riscv32imac"@[1] == 'i' && "riscv32imac"@[10] == 'c');
    assert("riscv32imc"@.len() == 10 && "riscv32imc"@[0] == 'r' && "riscv32imc"@[1] == 'i' && "riscv32imc"@[9] == 'c');
    assert("riscv64"@.len() == 7 && "riscv64"@[0] == 'r' && "riscv64"@[1] == 'i' && "riscv64"@[6] == '4');
    assert("riscv64gc"@.len() == 9 && "riscv64gc"@[0] == 'r' && "riscv64gc"@[1] == 'i' && "riscv64gc"@[8] == 'c');
    assert("riscv64imac"@.len() == 11 && "riscv64imac"@[0] == 'r' && "riscv64imac"@[1] == 'i' && "riscv64imac"@[10] == 'c');
    assert("s390x"@.len() == 5 && "s390x"@[0] == 's' && "s390x"@[1] == '3' && "s390x"@[4] == 'x');
    assert("sparc"@.len() == 5 && "sparc"@[0] == 's' && "sparc"@[1] == 'p' && "sparc"@[4] == 'c');
    assert("sparc64"@.len() == 7 && "sparc64"@[0] == 's' && "sparc64"@[1] == 'p' && "sparc64"@[6] == '4');
    assert("sparcv9"@.len() == 7 && "sparcv9"@[0] == 's' && "sparcv9"@[1] == 'p' && "sparcv9"@[6] == '9');
    assert("thumbv4t"@.len() == 8 && "thumbv4t"@[0] == 't' && "thumbv4t"@[1] == 'h' && "thumbv4t"@[7] == 't');
    assert("thumbv5te"@.len() == 9 && "thumbv5te"@[0] == 't' && "thumbv5te"@[1] == 'h' && "thumbv5te"@[8] == 'e');
    assert("thumbv6m"@.len() == 8 && "thumbv6m"@[0] == 't' && "thumbv6m"@[1] == 'h' && "thumbv6m"@[7] == 'm');
    assert("thumbv7a"@.len() == 8 && "thumbv7a"@[0] == 't' && "thumbv7a"@[1] == 'h' && "thumbv7a"@[7] == 'a');
    assert("thumbv7em"@.len() == 9 && "thumbv7em"@[0] == 't' && "thumbv7em"@[1] == 'h' && "thumbv7em"@[8] == 'm');
    assert("thumbv7m"@.len() == 8 && "thumbv7m"@[0] == 't' && "thumbv7m"@[1] == 'h' && "thumbv7m"@[7] == 'm');
    assert("thumbv7neon"@.len() == 11 && "thumbv7neon"@[0] == 't' && "thumbv7neon"@[1] == 'h' && "thumbv7neon"@[10] == 'n');
    assert("thumbv8m_base"@.len() == 13 && "thumbv8m_base"@[0] == 't' && "thumbv8m_base"@[1] == 'h' && "thumbv8m_base"@[12] == 'e');
    assert("thumbv8m_main"@.len() == 13 && "thumbv8m_main"@[0] == 't' && "thumbv8m_main"@[1] == 'h' && "thumbv8m_main"@[12] == 'n');
    assert("wasm"@.len() == 4 && "wasm"@[0] == 'w' && "wasm"@[1] == 'a' && "wasm"@[3] == 'm');
    assert("wasm32"@.len() == 6 && "wasm32"@[0] == 'w' && "wasm32"@[1] == 'a' && "wasm32"@[5] == '2');
    assert("wasm64"@.len() == 6 && "wasm64"@[0] == 'w' && "wasm64"@[1] == 'a' && "wasm64"@[5] == '4');
    assert("x86_64"@.len() == 6 && "x86_64"@[0] == 'x' && "x86_64"@[1] == '8' && "x86_64"@[5] == '4');
    assert("x86_64h"@.len() == 7 && "x86_64h"@[0] == 'x' && "x86_64h"@[1] == '8' && "x86_64h"@[6] == 'h');
    match arch {
        RustArch::aarch64 => {},
        RustArch::aarch64_be => {},
        RustArch::arm => {},
        RustArch::arm64_32 => {},
        RustArch::armeb => {},
        RustArch::armebv7r => {},
        RustArch::armv4t => {},
        RustArch::armv5te => {},
        RustArch::armv6 => {},
        RustArch::armv6k => {},
        RustArch::armv7 => {},
        RustArch::armv7a => {},
        RustArch::armv7k => {},
        RustArch::armv7r => {},
        RustArch::armv7s => {},
        RustArch::asmjs => {},
        RustArch::avr => {},
        RustArch::bpfeb => {},
        RustArch::bpfel => {},
        RustArch::hexagon => {},
        RustArch::i386 => {},
        RustArch::i586 => {},
        RustArch::i686 => {},
        RustArch::loongarch64 => {},
        RustArch::m68k => {},
        RustArch::mips => {},
        RustArch::mips64 => {},
        RustArch::mips64el => {},
        RustArch::mipsel => {},
        RustArch::mipsisa32r6 => {},
        RustArch::mipsisa32r6el => {},
        RustArch::mipsisa64r6 => {},
        RustArch::mipsisa64r6el => {},
        RustArch::msp430 => {},
        RustArch::nvptx64 => {},
        RustArch::powerpc => {},
        RustArch::powerpc64 => {},
        RustArch::powerpc64le => {},
        RustArch::riscv32gc => {},
        RustArch::riscv32i => {},
        RustArch::riscv32im => {},
        RustArch::riscv32imac => {},
        RustArch::riscv32imc => {},
        RustArch::riscv64gc => {},
        RustArch::riscv64imac => {},
        RustArch::s390x => {},
        RustArch::sparc => {},
        RustArch::sparc64 => {},
        RustArch::sparcv9 => {},
        RustArch::thumbv4t => {},
        RustArch::thumbv5te => {},
        RustArch::thumbv6m => {},
        RustArch::thumbv7a => {},
        RustArch::thumbv7em => {},
        RustArch::thumbv7m => {},
        RustArch::thumbv7neon => {},
        RustArch::thumbv8m_base => {},
        RustArch::thumbv8m_main => {},
        RustArch::wasm32 => {},
        RustArch::wasm64 => {},
        RustArch::x86_64 => {},
        RustArch::x86_64h => {},
    }
}

/// The decimal digit `d` (below ten).
pub open spec fn digit_char(d: nat) -> char {
    if d == 0 { '0' } else if d == 1 { '1' } else if d == 2 { '2' } else if d == 3 { '3' }
    else if d == 4 { '4' } else if d == 5 { '5' } else if d == 6 { '6' } else if d == 7 { '7' }
    else if d == 8 { '8' } else { '9' }
}

/// `n` written in decimal.
pub open spec fn decimal(n: nat) -> Seq<char>
    decreases n,
{
    if n < 10 {
        seq![digit_char(n)]
    } else {
        decimal(n / 10).push(digit_char(n % 10))
    }
}

/// The widths of the IDL number types, in decimal.
proof fn lemma_width_digits()
    ensures
        decimal(8) == seq!['8'],
        decimal(16) == seq!['1', '6'],
        decimal(32) == seq!['3', '2'],
        decimal(64) == seq!['6', '4'],
{
    reveal_with_fuel(decimal, 2);
}

/// The Rust prefix of a number class: `i`, `u` or `f`.
pub open spec fn rust_number_prefix(c: NumClass) -> Seq<char> {
    match c {
        NumClass::Signed => "i"@,
        NumClass::Unsigned => "u"@,
        NumClass::Float => "f"@,
    }
}

/// The Go prefix of a number class: `int`, `uint` or `float`.
pub open spec fn go_number_prefix(c: NumClass) -> Seq<char> {
    match c {
        NumClass::Signed => "int"@,
        NumClass::Unsigned => "uint"@,
        NumClass::Float => "float"@,
    }
}

/// Each IDL number type is spelt in Rust as the primitive of its class and
/// width: `i`, `u` or `f` followed by the number of bits.
pub proof fn lemma_rust_number_spelling(k: TyKind)
    ensures
        number_type(k) matches Some((c, bits)) ==> rust_ty_name(k) == rust_number_prefix(c) + decimal(bits),
{
    lemma_width_digits();
    reveal_strlit("u8");
    reveal_strlit("i8");
    reveal_strlit("i16");
    reveal_strlit("i32");
    reveal_strlit("i64");
    reveal_strlit("u32");
    reveal_strlit("u64");
    reveal_strlit("f32");
    reveal_strlit("f64");
    reveal_strlit("uint8");
    reveal_strlit("int8");
    reveal_strlit("int16");
    reveal_strlit("int32");
    reveal_strlit("int64");
    reveal_strlit("uint32");
    reveal_strlit("uint64");
    reveal_strlit("float32");
    reveal_strlit("float64");
    reveal_strlit("i");
    reveal_strlit("u");
    reveal_strlit("f");
    reveal_strlit("int");
    reveal_strlit("uint");
    reveal_strlit("float");
    match k {
        TyKind::U8 => assert(rust_ty_name(k) =~= "u"@ + decimal(8)),
        TyKind::I8 => assert(rust_ty_name(k) =~= "i"@ + decimal(8)),
        TyKind::I16 => assert(rust_ty_name(k) =~= "i"@ + decimal(16)),
        TyKind::I32 => assert(rust_ty_name(k) =~= "i"@ + decimal(32)),
        TyKind::I64 => assert(rust_ty_name(k) =~= "i"@ + decimal(64)),
        TyKind::UInt32 => assert(rust_ty_name(k) =~= "u"@ + decimal(32)),
        TyKind::UInt64 => assert(rust_ty_name(k) =~= "u"@ + decimal(64)),
        TyKind::F32 => assert(rust_ty_name(k) =~= "f"@ + decimal(32)),
        TyKind::F64 => assert(rust_ty_name(k) =~= "f"@ + decimal(64)),
        _ => {},
    }
}

/// Each IDL number type is spelt in the Go code as the Go type of its class
/// and width: `int`, `uint` or `float` followed by the number of bits,
/// whichever package the code is in.
pub proof fn lemma_go_number_spelling(k: TyKind, is_main: bool, gomod_name: Seq<char>)
    ensures
        number_type(k) matches Some((c, bits)) ==> go_ty_name(k, is_main, gomod_name) == go_number_prefix(c)
            + decimal(bits),
{
    lemma_width_digits();
    reveal_strlit("u8");
    reveal_strlit("i8");
    reveal_strlit("i16");
    reveal_strlit("i32");
    reveal_strlit("i64");
    reveal_strlit("u32");
    reveal_strlit("u64");
    reveal_strlit("f32");
    reveal_strlit("f64");
    reveal_strlit("uint8");
    reveal_strlit("int8");
    reveal_strlit("int16");
    reveal_strlit("int32");
    reveal_strlit("int64");
    reveal_strlit("uint32");
    reveal_strlit("uint64");
    reveal_strlit("float32");
    reveal_strlit("float64");
    reveal_strlit("i");
    reveal_strlit("u");
    reveal_strlit("f");
    reveal_strlit("int");
    reveal_strlit("uint");
    reveal_strlit("float");
    match k {
        TyKind::U8 => assert(go_ty_name(k, is_main, gomod_name) =~= "uint"@ + decimal(8)),
        TyKind::I8 => assert(go_ty_name(k, is_main, gomod_name) =~= "int"@ + decimal(8)),
        TyKind::I16 => assert(go_ty_name(k, is_main, gomod_name) =~= "int"@ + decimal(16)),
        TyKind::I32 => assert(go_ty_name(k, is_main, gomod_name) =~= "int"@ + decimal(32)),
        TyKind::I64 => assert(go_ty_name(k, is_main, gomod_name) =~= "int"@ + decimal(64)),
        TyKind::UInt32 => assert(go_ty_name(k, is_main, gomod_name) =~= "uint"@ + decimal(32)),
        TyKind::UInt64 => assert(go_ty_name(k, is_main, gomod_name) =~= "uint"@ + decimal(64)),
        TyKind::F32 => assert(go_ty_name(k, is_main, gomod_name) =~= "float"@ + decimal(32)),
        TyKind::F64 => assert(go_ty_name(k, is_main, gomod_name) =~= "float"@ + decimal(64)),
        _ => {},
    }
}

/// The IDL-driven generator spells each IDL number type in Go the same way:
/// `int`, `uint` or `float` followed by the number of bits.
pub proof fn lemma_ffidl_go_number_spelling(k: TyKind, is_main: bool, gomod_name: Seq<char>)
    ensures
        number_type(k) matches Some((c, bits)) ==> ffidl_go_ty_name(k, is_main, gomod_name)
            == go_number_prefix(c) + decimal(bits),
{
    lemma_width_digits();
    reveal_strlit("u8");
    reveal_strlit("i8");
    reveal_strlit("i16");
    reveal_strlit("i32");
    reveal_strlit("i64");
    reveal_strlit("u32");
    reveal_strlit("u64");
    reveal_strlit("f32");
    reveal_strlit("f64");
    reveal_strlit("uint8");
    reveal_strlit("int8");
    reveal_strlit("int16");
    reveal_strlit("int32");
    reveal_strlit("int64");
    reveal_strlit("uint32");
    reveal_strlit("uint64");
    reveal_strlit("float32");
    reveal_strlit("float64");
    reveal_strlit("i");
    reveal_strlit("u");
    reveal_strlit("f");
    reveal_strlit("int");
    reveal_strlit("uint");
    reveal_strlit("float");
    match k {
        TyKind::U8 => assert(ffidl_go_ty_name(k, is_main, gomod_name) =~= "uint"@ + decimal(8)),
        TyKind::I8 => assert(ffidl_go_ty_name(k, is_main, gomod_name) =~= "int"@ + decimal(8)),
        TyKind::I16 => assert(ffidl_go_ty_name(k, is_main, gomod_name) =~= "int"@ + decimal(16)),
        TyKind::I32 => assert(ffidl_go_ty_name(k, is_main, gomod_name) =~= "int"@ + decimal(32)),
        TyKind::I64 => assert(ffidl_go_ty_name(k, is_main, gomod_name) =~= "int"@ + decimal(64)),
        TyKind::UInt32 => assert(ffidl_go_ty_name(k, is_main, gomod_name) =~= "uint"@ + decimal(32)),
        TyKind::UInt64 => assert(ffidl_go_ty_name(k, is_main, gomod_name) =~= "uint"@ + decimal(64)),
        TyKind::F32 => assert(ffidl_go_ty_name(k, is_main, gomod_name) =~= "float"@ + decimal(32)),
        TyKind::F64 => assert(ffidl_go_ty_name(k, is_main, gomod_name) =~= "float"@ + decimal(64)),
        _ => {},
    }
}

/// The fingerprint covers exactly the crate's regular files with the
/// extension `go`, `rs`, `toml` or `proto`: the Go and Rust sources, the
/// Cargo manifests and the IDL files.
pub proof fn lemma_fingerprint_files(extension: Option<Seq<char>>, is_file: bool)
    ensures
        is_fingerprint_file_spec(extension, is_file) <==> (is_file && (extension matches Some(e)
            && set!["go"@, "rs"@, "toml"@, "proto"@].contains(e))),
{
}

/// Whether the type names no IDL item.
pub open spec fn names_no_item(k: TyKind) -> bool
    decreases k,
{
    match k {
        TyKind::Path(_) => false,
        TyKind::Vec(e) => names_no_item(e.kind),
        TyKind::SetOf(e) => names_no_item(e.kind),
        TyKind::MapOf(a, b) => names_no_item(a.kind) && names_no_item(b.kind),
        TyKind::Arc(e) => names_no_item(e.kind),
        _ => true,
    }
}

/// Both generators spell a type that names no IDL item the same way in Go,
/// in whichever package the code is.
pub proof fn lemma_go_spellings_agree(k: TyKind, is_main: bool, gomod_name: Seq<char>)
    requires
        names_no_item(k),
    ensures
        go_ty_name(k, is_main, gomod_name) == ffidl_go_ty_name(k, is_main, gomod_name),
    decreases k,
{
    match k {
        TyKind::Vec(e) => lemma_go_spellings_agree(e.kind, is_main, gomod_name),
        TyKind::SetOf(e) => lemma_go_spellings_agree(e.kind, is_main, gomod_name),
        TyKind::MapOf(a, b) => {
            lemma_go_spellings_agree(a.kind, is_main, gomod_name);
            lemma_go_spellings_agree(b.kind, is_main, gomod_name);
        },
        TyKind::Arc(e) => lemma_go_spellings_agree(e.kind, is_main, gomod_name),
        _ => {},
    }
}

/// In Rust, IDL bytes are spelt as a vector of the IDL byte type.
pub proof fn lemma_rust_bytes_spelling(e: Ty)
    requires
        e.kind is U8,
    ensures
        rust_ty_name(TyKind::Bytes) == rust_ty_name(TyKind::Vec(Box::new(e))),
{
    reveal_strlit("::std::vec::Vec<u8>");
    reveal_strlit("::std::vec::Vec<");
    reveal_strlit("u8");
    reveal_strlit(">");
    assert(rust_ty_name(e.kind) == "u8"@);
    assert(rust_ty_name(TyKind::Vec(Box::new(e))) =~= "::std::vec::Vec<"@ + "u8"@ + ">"@);
}

} // verus!
