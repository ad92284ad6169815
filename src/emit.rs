use vstd::prelude::*;
use vstd::string::*;
use crate::config::{LinkMode, library_name, library_name_spec};
use crate::platform::{Platform, runtime_library, runtime_library_spec};
use crate::strategy::{DecisionModel, LinkageDecision};

verus! {

/// Which kinds of dependency the host build system looks for in a search
/// directory: every kind, or native libraries only.
#[derive(PartialEq, Eq, Structural, Clone, Copy, Debug)]
pub enum SearchKind {
    All,
    Native,
}

/// What the host build system is told for one link of the library.
#[derive(Debug)]
pub struct LinkageDirective {
    pub mode: LinkMode,
    pub library: String,
    pub search_kind: SearchKind,
    pub search_dirs: Vec<String>,
    pub extra_libs: Vec<String>,
}

pub struct DirectiveModel {
    pub mode: LinkMode,
    pub library: Seq<char>,
    pub search_kind: SearchKind,
    pub search_dirs: Seq<Seq<char>>,
    pub extra_libs: Seq<Seq<char>>,
}

pub open spec fn strings_view(v: Seq<String>) -> Seq<Seq<char>> {
    v.map_values(|s: String| s@)
}

impl View for LinkageDirective {
    type V = DirectiveModel;

    open spec fn view(&self) -> DirectiveModel {
        DirectiveModel {
            mode: self.mode,
            library: self.library@,
            search_kind: self.search_kind,
            search_dirs: strings_view(self.search_dirs@),
            extra_libs: strings_view(self.extra_libs@),
        }
    }
}

/// Why a source build cannot be linked.
#[derive(PartialEq, Eq, Structural, Clone, Copy, Debug)]
pub enum BuildFailure {
    /// The child build process did not exit successfully.
    ChildFailed,
    /// The build reported success but left no static archive.
    ArchiveMissing,
}

/// The runtime libraries that accompany a link: only a static link needs
/// one, and only where the platform has it.
pub open spec fn runtime_libs_spec(mode: LinkMode, platform: Platform) -> Seq<Seq<char>> {
    match mode {
        LinkMode::Static => match runtime_library_spec(platform) {
            Some(l) => seq![l],
            None => Seq::empty(),
        },
        LinkMode::Dynamic => Seq::empty(),
    }
}

/// A static library found on the search path is searched for under every
/// kind; a dynamic one under the native kind only.
pub open spec fn discovered_search_kind(mode: LinkMode) -> SearchKind {
    match mode {
        LinkMode::Static => SearchKind::All,
        LinkMode::Dynamic => SearchKind::Native,
    }
}

pub open spec fn discovered_directive_spec(
    dir: Seq<char>,
    mode: LinkMode,
    platform: Platform,
) -> DirectiveModel {
    DirectiveModel {
        mode,
        library: library_name_spec(),
        search_kind: discovered_search_kind(mode),
        search_dirs: seq![dir],
        extra_libs: runtime_libs_spec(mode, platform),
    }
}

/// Both places where a build may have put its archive, whichever exists.
pub open spec fn source_dirs_spec(output: Seq<char>) -> Seq<Seq<char>> {
    seq![output + "/lib"@, output + "/lib64"@]
}

pub open spec fn source_directive_spec(output: Seq<char>, platform: Platform) -> DirectiveModel {
    DirectiveModel {
        mode: LinkMode::Static,
        library: library_name_spec(),
        search_kind: SearchKind::Native,
        search_dirs: source_dirs_spec(output),
        extra_libs: runtime_libs_spec(LinkMode::Static, platform),
    }
}

/// The directive for a decision; the registry path needs none, since the
/// registry has already reported its own flags.
pub open spec fn directive_spec(
    decision: DecisionModel,
    platform: Platform,
    build_output: Seq<char>,
) -> Option<DirectiveModel> {
    match decision {
        DecisionModel::UseRegistry => None,
        DecisionModel::UseDiscoveredPath { dir, mode } => Some(
            discovered_directive_spec(dir, mode, platform),
        ),
        DecisionModel::BuildFromSource => Some(source_directive_spec(build_output, platform)),
    }
}

pub fn runtime_libs(mode: LinkMode, platform: Platform) -> (r: Vec<String>)
    ensures
        strings_view(r@) == runtime_libs_spec(mode, platform),
{
    let mut r: Vec<String> = Vec::new();
    if mode == LinkMode::Static {
        match runtime_library(platform) {
            Some(l) => r.push(l),
            None => {},
        }
    }
    proof {
        assert(strings_view(r@) =~= runtime_libs_spec(mode, platform));
    }
    r
}

/// The directive for a prebuilt library found in `dir`.
pub fn discovered_directive(dir: &String, mode: LinkMode, platform: Platform) -> (r:
    LinkageDirective)
    ensures
        r@ == discovered_directive_spec(dir@, mode, platform),
{
    let mut search_dirs: Vec<String> = Vec::new();
    search_dirs.push(dir.clone());
    let search_kind = match mode {
        LinkMode::Static => SearchKind::All,
        LinkMode::Dynamic => SearchKind::Native,
    };
    let r = LinkageDirective {
        mode,
        library: library_name(),
        search_kind,
        search_dirs,
        extra_libs: runtime_libs(mode, platform),
    };
    proof {
        assert(strings_view(r.search_dirs@) =~= seq![dir@]);
    }
    r
}

/// The directories searched after a source build into `output`: its `lib`
/// and its `lib64` subdirectory, both, whichever of them exists.
pub fn source_build_dirs(output: &str) -> (r: Vec<String>)
    ensures
        strings_view(r@) == source_dirs_spec(output@),
{
    let lib = String::from_str(output).concat("/lib");
    let lib64 = String::from_str(output).concat("/lib64");
    let mut r: Vec<String> = Vec::new();
    r.push(lib);
    r.push(lib64);
    proof {
        assert(strings_view(r@) =~= source_dirs_spec(output@));
    }
    r
}

/// The directive for the library built from source into `output`: always
/// a static link.
pub fn source_build_directive(output: &str, platform: Platform) -> (r: LinkageDirective)
    ensures
        r@ == source_directive_spec(output@, platform),
{
    LinkageDirective {
        mode: LinkMode::Static,
        library: library_name(),
        search_kind: SearchKind::Native,
        search_dirs: source_build_dirs(output),
        extra_libs: runtime_libs(LinkMode::Static, platform),
    }
}

/// Judges a finished source build: a failed child build and a missing
/// archive are both fatal; otherwise the build is linked statically.
pub fn source_build_outcome(
    output: &str,
    platform: Platform,
    child_succeeded: bool,
    archive_found: bool,
) -> (r: Result<LinkageDirective, BuildFailure>)
    ensures
        !child_succeeded ==> r == Err::<LinkageDirective, BuildFailure>(BuildFailure::ChildFailed),
        child_succeeded && !archive_found ==> r == Err::<LinkageDirective, BuildFailure>(
            BuildFailure::ArchiveMissing,
        ),
        child_succeeded && archive_found ==> r is Ok && r->Ok_0@ == source_directive_spec(
            output@,
            platform,
        ),
{
    if !child_succeeded {
        Err(BuildFailure::ChildFailed)
    } else if !archive_found {
        Err(BuildFailure::ArchiveMissing)
    } else {
        Ok(source_build_directive(output, platform))
    }
}

/// Translates a decision into its directive; `build_output` is where the
/// source build put its results and matters only for a source build.
pub fn directive_for(decision: &LinkageDecision, platform: Platform, build_output: &str) -> (r:
    Option<LinkageDirective>)
    ensures
        match (r, directive_spec(decision@, platform, build_output@)) {
            (Some(d), Some(m)) => d@ == m,
            (None, None) => true,
            _ => false,
        },
{
    match decision {
        LinkageDecision::UseRegistry => None,
        LinkageDecision::UseDiscoveredPath { dir, mode } => Some(
            discovered_directive(dir, *mode, platform),
        ),
        LinkageDecision::BuildFromSource => Some(source_build_directive(build_output, platform)),
    }
}

} // verus!
