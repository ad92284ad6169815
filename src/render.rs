use vstd::prelude::*;
use vstd::string::*;
use crate::config::LinkMode;
use crate::emit::{DirectiveModel, LinkageDirective, SearchKind, strings_view};

verus! {

pub open spec fn mode_word(mode: LinkMode) -> Seq<char> {
    match mode {
        LinkMode::Static => "static"@,
        LinkMode::Dynamic => "dylib"@,
    }
}

pub open spec fn search_prefix(kind: SearchKind) -> Seq<char> {
    match kind {
        SearchKind::All => "cargo:rustc-link-search="@,
        SearchKind::Native => "cargo:rustc-link-search=native="@,
    }
}

pub open spec fn search_line(kind: SearchKind, dir: Seq<char>) -> Seq<char> {
    search_prefix(kind) + dir
}

pub open spec fn lib_line(lib: Seq<char>) -> Seq<char> {
    "cargo:rustc-link-lib="@ + lib
}

/// The lines that tell the host build system about a directive: each search
/// directory under the directive's search kind, then the library with its
/// link mode, then each runtime library.
pub open spec fn directive_lines_spec(d: DirectiveModel) -> Seq<Seq<char>> {
    d.search_dirs.map_values(|dir: Seq<char>| search_line(d.search_kind, dir)) + seq![
        lib_line(mode_word(d.mode) + "="@ + d.library),
    ] + d.extra_libs.map_values(|l: Seq<char>| lib_line(l))
}

/// The line that reports the source build's output directory.
pub open spec fn root_line_spec(out_dir: Seq<char>) -> Seq<char> {
    "cargo:root="@ + out_dir
}

/// Compiler flags as one string: each flag followed by a space.
pub open spec fn joined_flags(args: Seq<Seq<char>>) -> Seq<char>
    decreases args.len(),
{
    if args.len() == 0 {
        Seq::empty()
    } else {
        joined_flags(args.drop_last()) + args.last() + " "@
    }
}

pub fn directive_lines(d: &LinkageDirective) -> (r: Vec<String>)
    ensures
        strings_view(r@) == directive_lines_spec(d@),
{
    let ghost dm = d@;
    let mut r: Vec<String> = Vec::new();
    let mut i: usize = 0;
    while i < d.search_dirs.len()
        invariant
            dm == d@,
            0 <= i <= d.search_dirs@.len(),
            strings_view(r@) =~= dm.search_dirs.subrange(0, i as int).map_values(
                |dir: Seq<char>| search_line(dm.search_kind, dir),
            ),
        decreases d.search_dirs@.len() - i,
    {
        let prefix = match d.search_kind {
            SearchKind::All => "cargo:rustc-link-search=",
            SearchKind::Native => "cargo:rustc-link-search=native=",
        };
        let line = String::from_str(prefix).concat(d.search_dirs[i].as_str());
        let ghost before = strings_view(r@);
        r.push(line);
        i += 1;
        proof {
            assert(line@ == search_line(dm.search_kind, dm.search_dirs[i - 1]));
            assert(strings_view(r@) =~= before.push(line@));
            assert(dm.search_dirs.subrange(0, i as int) =~= dm.search_dirs.subrange(
                0,
                i - 1,
            ).push(dm.search_dirs[i - 1]));
        }
    }
    let word = match d.mode {
        LinkMode::Static => "static",
        LinkMode::Dynamic => "dylib",
    };
    let lib = String::from_str("cargo:rustc-link-lib=").concat(word).concat("=").concat(
        d.library.as_str(),
    );
    let ghost before = strings_view(r@);
    r.push(lib);
    let ghost head = strings_view(r@);
    proof {
        assert(lib@ =~= lib_line(mode_word(dm.mode) + "="@ + dm.library));
        assert(head =~= before.push(lib@));
        assert(dm.search_dirs.subrange(0, dm.search_dirs.len() as int) =~= dm.search_dirs);
        assert(head =~= dm.search_dirs.map_values(|dir: Seq<char>| search_line(dm.search_kind, dir)) + seq![
            lib_line(mode_word(dm.mode) + "="@ + dm.library),
        ]);
    }
    let mut j: usize = 0;
    while j < d.extra_libs.len()
        invariant
            dm == d@,
            0 <= j <= d.extra_libs@.len(),
            strings_view(r@) =~= head + dm.extra_libs.subrange(0, j as int).map_values(
                |l: Seq<char>| lib_line(l),
            ),
        decreases d.extra_libs@.len() - j,
    {
        let line = String::from_str("cargo:rustc-link-lib=").concat(d.extra_libs[j].as_str());
        let ghost before = strings_view(r@);
        r.push(line);
        j += 1;
        proof {
            assert(line@ == lib_line(dm.extra_libs[j - 1]));
            assert(strings_view(r@) =~= before.push(line@));
            assert(dm.extra_libs.subrange(0, j as int) =~= dm.extra_libs.subrange(
                0,
                j - 1,
            ).push(dm.extra_libs[j - 1]));
        }
    }
    proof {
        assert(dm.extra_libs.subrange(0, dm.extra_libs.len() as int) =~= dm.extra_libs);
    }
    r
}

pub fn root_line(out_dir: &str) -> (r: String)
    ensures
        r@ == root_line_spec(out_dir@),
{
    String::from_str("cargo:root=").concat(out_dir)
}

/// Joins the host compiler's flags for the child build's environment.
pub fn join_compiler_flags(args: &Vec<String>) -> (r: String)
    ensures
        r@ == joined_flags(strings_view(args@)),
{
    let mut r = String::new();
    let mut i: usize = 0;
    while i < args.len()
        invariant
            0 <= i <= args@.len(),
            r@ == joined_flags(strings_view(args@).subrange(0, i as int)),
        decreases args@.len() - i,
    {
        r.append(args[i].as_str());
        r.append(" ");
        i += 1;
        proof {
            let s = strings_view(args@).subrange(0, i as int);
            assert(s.drop_last() =~= strings_view(args@).subrange(0, i - 1));
        }
    }
    proof {
        assert(strings_view(args@).subrange(0, args@.len() as int) =~= strings_view(args@));
    }
    r
}

} // verus!
