//! The configuration builder of the IDL code generator.
use vstd::prelude::*;
use crate::text::views;

verus! {

/// The kind of IDL that the builder reads.
#[derive(Clone, Copy, PartialEq, Eq, Structural)]
pub enum SourceType {
    Thrift,
    Protobuf,
}

/// A plugin of the code generator.
pub enum Plugin {
    /// Adds attributes (such as derives) to each generated item.
    WithAttrs(Vec<String>),
    /// Implements `Default` for the generated messages.
    ImplDefault,
    /// Gives the generated enums their numbers.
    EnumNum,
    /// Adds attributes to the items that a predicate picks (all of them here).
    AutoDerive(Vec<String>),
}

/// Where the generated code goes.
pub enum Output {
    Workspace(String),
    File(String),
}

/// The backend factory that writes plain protobuf code.
pub struct MkProtobufBackend;

/// The configuration of a code generator run: the IDL kind, the backend
/// factory, the include directories of the parser, the plugins, whether
/// unused items are left out, the items generated anyway, and whether names
/// change case.
pub struct Builder<MkB> {
    pub source_type: SourceType,
    pub mk_backend: MkB,
    pub include_dirs: Vec<String>,
    pub plugins: Vec<Plugin>,
    pub ignore_unused: bool,
    pub touches: Vec<(String, Vec<String>)>,
    pub change_case: bool,
}

/// Whether the plugins are the default ones: `#[derive(Debug)]` on each
/// item, `Default` for messages, numbers for enums.
pub open spec fn default_plugins(p: Seq<Plugin>) -> bool {
    &&& p.len() == 3
    &&& p[0] matches Plugin::WithAttrs(a) && views(a@) == seq!["#[derive(Debug)]"@]
    &&& p[1] is ImplDefault
    &&& p[2] is EnumNum
}

/// The default plugins.
fn new_default_plugins() -> (r: Vec<Plugin>)
    ensures
        default_plugins(r@),
{
    let attrs = vec![String::from_str("#[derive(Debug)]")];
    assert(views(attrs@) =~= seq!["#[derive(Debug)]"@]);
    vec![Plugin::WithAttrs(attrs), Plugin::ImplDefault, Plugin::EnumNum]
}

impl<MkB> Builder<MkB> {
    /// A builder for thrift with `mk_backend` and the default plugins; it
    /// leaves unused items out and changes the case of names.
    pub fn thrift_with_backend(mk_backend: MkB) -> (r: Builder<MkB>)
        ensures
            r.source_type == SourceType::Thrift,
            r.mk_backend == mk_backend,
            r.include_dirs@.len() == 0,
            default_plugins(r.plugins@),
            r.ignore_unused,
            r.touches@.len() == 0,
            r.change_case,
    {
        Builder {
            source_type: SourceType::Thrift,
            mk_backend,
            include_dirs: Vec::new(),
            plugins: new_default_plugins(),
            ignore_unused: true,
            touches: Vec::new(),
            change_case: true,
        }
    }

    /// A builder for protobuf with `mk_backend` and the default plugins; it
    /// leaves unused items out and changes the case of names.
    pub fn protobuf_with_backend(mk_backend: MkB) -> (r: Builder<MkB>)
        ensures
            r.source_type == SourceType::Protobuf,
            r.mk_backend == mk_backend,
            r.include_dirs@.len() == 0,
            default_plugins(r.plugins@),
            r.ignore_unused,
            r.touches@.len() == 0,
            r.change_case,
    {
        Builder {
            source_type: SourceType::Protobuf,
            mk_backend,
            include_dirs: Vec::new(),
            plugins: new_default_plugins(),
            ignore_unused: true,
            touches: Vec::new(),
            change_case: true,
        }
    }

    /// The builder with `include_dirs` added to the parser's include
    /// directories.
    pub fn include_dirs(self, include_dirs: Vec<String>) -> (r: Builder<MkB>)
        ensures
            r.include_dirs@ == self.include_dirs@ + include_dirs@,
            r.source_type == self.source_type,
            r.mk_backend == self.mk_backend,
            r.plugins == self.plugins,
            r.ignore_unused == self.ignore_unused,
            r.touches == self.touches,
            r.change_case == self.change_case,
    {
        let mut b = self;
        let mut more = include_dirs;
        b.include_dirs.append(&mut more);
        b
    }

    /// The builder with another backend factory.
    pub fn with_backend<B>(self, mk_backend: B) -> (r: Builder<B>)
        ensures
            r.mk_backend == mk_backend,
            r.source_type == self.source_type,
            r.include_dirs == self.include_dirs,
            r.plugins == self.plugins,
            r.ignore_unused == self.ignore_unused,
            r.touches == self.touches,
            r.change_case == self.change_case,
    {
        Builder {
            source_type: self.source_type,
            mk_backend,
            include_dirs: self.include_dirs,
            plugins: self.plugins,
            ignore_unused: self.ignore_unused,
            touches: self.touches,
            change_case: self.change_case,
        }
    }

    /// The builder with the plugin `p` added after the others.
    pub fn plugin(self, p: Plugin) -> (r: Builder<MkB>)
        ensures
            r.plugins@ == self.plugins@.push(p),
            r.source_type == self.source_type,
            r.mk_backend == self.mk_backend,
            r.include_dirs == self.include_dirs,
            r.ignore_unused == self.ignore_unused,
            r.touches == self.touches,
            r.change_case == self.change_case,
    {
        let mut b = self;
        b.plugins.push(p);
        b
    }

    /// The builder with `change_case` set.
    pub fn change_case(self, change_case: bool) -> (r: Builder<MkB>)
        ensures
            r.change_case == change_case,
            r.source_type == self.source_type,
            r.mk_backend == self.mk_backend,
            r.include_dirs == self.include_dirs,
            r.plugins == self.plugins,
            r.ignore_unused == self.ignore_unused,
            r.touches == self.touches,
    {
        let mut b = self;
        b.change_case = change_case;
        b
    }

    /// The builder that leaves out (`flag`) or keeps the items that the
    /// services do not use.
    pub fn ignore_unused(self, flag: bool) -> (r: Builder<MkB>)
        ensures
            r.ignore_unused == flag,
            r.source_type == self.source_type,
            r.mk_backend == self.mk_backend,
            r.include_dirs == self.include_dirs,
            r.plugins == self.plugins,
            r.touches == self.touches,
            r.change_case == self.change_case,
    {
        let mut b = self;
        b.ignore_unused = flag;
        b
    }

    /// The builder that also generates the items `item` (a file and the
    /// names in it), even unused; this matters only where unused items are
    /// left out.
    pub fn touch(self, item: Vec<(String, Vec<String>)>) -> (r: Builder<MkB>)
        ensures
            r.touches@ == self.touches@ + item@,
            r.source_type == self.source_type,
            r.mk_backend == self.mk_backend,
            r.include_dirs == self.include_dirs,
            r.plugins == self.plugins,
            r.ignore_unused == self.ignore_unused,
            r.change_case == self.change_case,
    {
        let mut b = self;
        let mut more = item;
        b.touches.append(&mut more);
        b
    }
}

} // verus!
