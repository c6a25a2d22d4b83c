//! The commands that a generation run hands to the Go and protobuf tools,
//! and the small decisions around them.
use vstd::prelude::*;
use crate::build::builder::{Builder, Plugin, SourceType, default_plugins};
use crate::build::config::{IdlType, is_proto};
use crate::text::{join, seq_concat, seq_join, str_eq, views};

verus! {

/// The arguments of `go build` for the Go C library.
pub fn go_build_args(go_buildmode: &str, go_clib_file: &str, go_main_dir: &str) -> (r: Vec<String>)
    ensures
        views(r@) == seq!["build"@, "-buildmode="@ + go_buildmode@, "-o="@ + go_clib_file@, go_main_dir@],
{
    let mut mode = String::from_str("-buildmode=");
    mode.append(go_buildmode);
    let mut out = String::from_str("-o=");
    out.append(go_clib_file);
    let r = vec![String::from_str("build"), mode, out, String::from_str(go_main_dir)];
    assert(views(r@) =~= seq!["build"@, "-buildmode="@ + go_buildmode@, "-o="@ + go_clib_file@, go_main_dir@]);
    r
}

/// The arguments of `git add` for the files that the run keeps in git.
pub fn git_add_args(paths: &Vec<String>) -> (r: Vec<String>)
    ensures
        views(r@) == seq!["add"@, "-f"@] + views(paths@),
{
    let mut r = vec![String::from_str("add"), String::from_str("-f")];
    let n = paths.len();
    let mut i: usize = 0;
    while i < n
        invariant
            n == paths.len(),
            i <= n,
            views(r@) =~= seq!["add"@, "-f"@] + views(paths@).take(i as int),
        decreases n - i,
    {
        let ghost before = views(r@);
        r.push(paths[i].clone());
        assert(views(r@) =~= before.push(paths@[i as int]@));
        assert(views(paths@).take(i + 1) =~= views(paths@).take(i as int).push(paths@[i as int]@));
        i = i + 1;
    }
    assert(views(paths@).take(n as int) =~= views(paths@));
    r
}

/// Whether the recorded fingerprint differs from the crate's, so that it is
/// written again and the build is run again.
pub fn fingerprint_changed(recorded: &str, fingerprint: &str) -> (r: bool)
    ensures
        r == (recorded@ != fingerprint@),
{
    !str_eq(recorded, fingerprint)
}

/// The components of the workspace directory, from those of the build output
/// directory: the components before its last `target` component; none where
/// it has no such component.
pub open spec fn before_last_target(components: Seq<Seq<char>>) -> Seq<Seq<char>>
    decreases components.len(),
{
    if components.len() == 0 {
        Seq::empty()
    } else if components.last() == "target"@ {
        components.drop_last()
    } else {
        before_last_target(components.drop_last())
    }
}

/// The components of the workspace directory, from those of the build
/// output directory.
pub fn workspace_dir_components(components: &Vec<String>) -> (r: Vec<String>)
    ensures
        views(r@) == before_last_target(views(components@)),
{
    let ghost vs = views(components@);
    let mut j: usize = components.len();
    assert(vs.take(j as int) =~= vs);
    while j > 0
        invariant
            j <= components.len(),
            vs == views(components@),
            before_last_target(vs) == before_last_target(vs.take(j as int)),
        decreases j,
    {
        assert(vs.take(j as int).drop_last() =~= vs.take(j - 1));
        assert(vs.take(j as int).last() == components@[j - 1]@);
        if str_eq(components[j - 1].as_str(), "target") {
            let mut r: Vec<String> = Vec::new();
            let mut i: usize = 0;
            while i < j - 1
                invariant
                    j <= components.len(),
                    j > 0,
                    i <= j - 1,
                    vs == views(components@),
                    views(r@) =~= vs.take(i as int),
                decreases j - 1 - i,
            {
                let ghost before = views(r@);
                r.push(components[i].clone());
                assert(views(r@) =~= before.push(vs[i as int]));
                assert(vs.take(i + 1) =~= vs.take(i as int).push(vs[i as int]));
                i = i + 1;
            }
            return r;
        }
        j = j - 1;
    }
    Vec::new()
}

/// The tool that generates the Go code of the messages, and its arguments:
/// `protoc` for protobuf, `thriftgo` for thrift.
pub fn codec_gen_command(t: IdlType, target_out_dir: &str, pkg_dir: &str, idl_file: &str) -> (r: (String, Vec<String>))
    ensures
        is_proto(t) ==> r.0@ == "protoc"@ && views(r.1@) == seq![
            "--proto_path="@ + target_out_dir@,
            "--go_out="@ + pkg_dir@,
            idl_file@,
        ],
        !is_proto(t) ==> r.0@ == "thriftgo"@ && views(r.1@) == seq![
            "-g=go"@,
            "-o="@ + target_out_dir@ + "/gen-thrift"@,
            idl_file@,
        ],
{
    if t == IdlType::Proto || t == IdlType::ProtoNoCodec {
        let mut a = String::from_str("--proto_path=");
        a.append(target_out_dir);
        let mut b = String::from_str("--go_out=");
        b.append(pkg_dir);
        let args = vec![a, b, String::from_str(idl_file)];
        assert(views(args@) =~= seq![args@[0]@, args@[1]@, idl_file@]);
        (String::from_str("protoc"), args)
    } else {
        let mut o = String::from_str("-o=");
        o.append(target_out_dir);
        o.append("/gen-thrift");
        let args = vec![String::from_str("-g=go"), o, String::from_str(idl_file)];
        assert(views(args@) =~= seq![args@[0]@, args@[1]@, idl_file@]);
        (String::from_str("thriftgo"), args)
    }
}

/// Where `thriftgo` writes the Go code of the module `m` (under the output
/// directory), and the name it is moved to in the package directory.
pub fn thrift_go_file_names(m: &str) -> (r: (String, String))
    ensures
        r.0@ == "gen-thrift/"@ + m@ + "/"@ + m@ + ".go"@,
        r.1@ == m@ + ".thrift.go"@,
{
    let mut from = String::from_str("gen-thrift/");
    from.append(m);
    from.append("/");
    from.append(m);
    from.append(".go");
    let mut to = String::from_str(m);
    to.append(".thrift.go");
    (from, to)
}

/// The attribute that makes the generated messages serializable.
pub open spec fn serde_derive_attr() -> Seq<char> {
    "#[derive(::serde::Serialize, ::serde::Deserialize)]"@
}

/// The builder of the code generator for an IDL of kind `t`: the default
/// plugins, then one that makes every item serializable; the IDL file's
/// directory as include directory; unused items left out.
pub fn idl_builder<MkB>(t: IdlType, mk_backend: MkB, idl_include_dir: &str) -> (r: Builder<MkB>)
    ensures
        r.source_type == if is_proto(t) { SourceType::Protobuf } else { SourceType::Thrift },
        r.mk_backend == mk_backend,
        views(r.include_dirs@) == seq![idl_include_dir@],
        r.plugins@.len() == 4,
        default_plugins(r.plugins@.take(3)),
        r.plugins@[3] matches Plugin::AutoDerive(a) && views(a@) == seq![serde_derive_attr()],
        r.ignore_unused,
        r.change_case,
        r.touches@.len() == 0,
{
    let b = if t == IdlType::Proto || t == IdlType::ProtoNoCodec {
        Builder::protobuf_with_backend(mk_backend)
    } else {
        Builder::thrift_with_backend(mk_backend)
    };
    let dirs = vec![String::from_str(idl_include_dir)];
    let attrs = vec![String::from_str("#[derive(::serde::Serialize, ::serde::Deserialize)]")];
    assert(views(attrs@) =~= seq![serde_derive_attr()]);
    let b = b.include_dirs(dirs);
    let ghost before = b.plugins@;
    let b = b.plugin(Plugin::AutoDerive(attrs));
    assert(b.plugins@.take(3) =~= before);
    let r = b.ignore_unused(true);
    assert(views(r.include_dirs@) =~= seq![idl_include_dir@]);
    r
}

/// A flatbuffer code target.
#[derive(Clone, Copy, PartialEq, Eq, Structural)]
pub enum FbConfig {
    Rust,
    Go,
}

/// The flatbuffer inputs and the languages to generate.
pub struct FbConfigs {
    pub inputs: Vec<String>,
    pub configs: Vec<FbConfig>,
}

/// The protobuf inputs and include directories.
pub struct PbConfigs {
    pub inputs: Vec<String>,
    pub includes: Vec<String>,
}

/// The `protoc` command that writes the Go code of the protobuf inputs:
/// each include directory as `--proto_path`, then the output directory and
/// the inputs separated by spaces.
pub fn protoc_go_command(pb: &PbConfigs, go_out_dir: &str) -> (r: String)
    ensures
        r@ == "protoc"@ + seq_concat(views(pb.includes@).map_values(|i: Seq<char>| " --proto_path="@ + i))
            + " --go_out "@ + go_out_dir@ + " "@ + seq_join(views(pb.inputs@), " "@),
{
    let ghost f = |i: Seq<char>| " --proto_path="@ + i;
    let mut r = String::from_str("protoc");
    let n = pb.includes.len();
    let mut i: usize = 0;
    while i < n
        invariant
            n == pb.includes.len(),
            i <= n,
            f == (|i: Seq<char>| " --proto_path="@ + i),
            r@ == "protoc"@ + seq_concat(views(pb.includes@).take(i as int).map_values(f)),
        decreases n - i,
    {
        assert(views(pb.includes@).take(i + 1).map_values(f).drop_last() =~= views(pb.includes@).take(
            i as int,
        ).map_values(f));
        r.append(" --proto_path=");
        r.append(pb.includes[i].as_str());
        i = i + 1;
    }
    assert(views(pb.includes@).take(n as int) =~= views(pb.includes@));
    r.append(" --go_out ");
    r.append(go_out_dir);
    r.append(" ");
    let inputs = join(&pb.inputs, " ");
    r.append(inputs.as_str());
    r
}

} // verus!
