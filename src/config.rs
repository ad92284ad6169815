use vstd::prelude::*;
use vstd::string::*;

verus! {

/// How the native library is incorporated into the final binary.
#[derive(PartialEq, Eq, Structural, Clone, Copy, Debug)]
pub enum LinkMode {
    Static,
    Dynamic,
}

/// The two switches read once, at the start of resolution.
#[derive(PartialEq, Eq, Structural, Clone, Copy, Debug)]
pub struct ResolutionConfig {
    pub force_static: bool,
    pub build_from_source: bool,
}

/// A switch is on exactly when its value is the one-character string `1`.
pub open spec fn flag_on(value: Option<Seq<char>>) -> bool {
    value == Some(seq!['1'])
}

/// Reads a switch; `None` stands for an unset variable.
pub fn flag_enabled(value: Option<&str>) -> (r: bool)
    ensures
        r == flag_on(
            match value {
                Some(v) => Some(v@),
                None => None,
            },
        ),
{
    match value {
        Some(v) => {
            let n = v.unicode_len();
            if n != 1 {
                return false;
            }
            let c = v.get_char(0);
            proof {
                if c == '1' {
                    assert(v@ =~= seq!['1']);
                }
            }
            c == '1'
        },
        None => false,
    }
}

impl ResolutionConfig {
    /// Builds the configuration from the raw values of the force-static
    /// and build-from-source switches.
    pub fn from_flags(force_static: Option<&str>, build_from_source: Option<&str>) -> (r: Self)
        ensures
            r.force_static == flag_on(
                match force_static {
                    Some(v) => Some(v@),
                    None => None,
                },
            ),
            r.build_from_source == flag_on(
                match build_from_source {
                    Some(v) => Some(v@),
                    None => None,
                },
            ),
    {
        ResolutionConfig {
            force_static: flag_enabled(force_static),
            build_from_source: flag_enabled(build_from_source),
        }
    }

    /// The link mode asked for when a prebuilt library is searched for.
    pub open spec fn spec_search_mode(self) -> LinkMode {
        if self.force_static {
            LinkMode::Static
        } else {
            LinkMode::Dynamic
        }
    }

    #[verifier::when_used_as_spec(spec_search_mode)]
    pub fn search_mode(self) -> (r: LinkMode)
        ensures
            r == self.spec_search_mode(),
    {
        if self.force_static {
            LinkMode::Static
        } else {
            LinkMode::Dynamic
        }
    }
}

/// The logical name under which the library is linked.
pub open spec fn library_name_spec() -> Seq<char> {
    seq!['s', 'n', 'a', 'p', 'p', 'y']
}

/// The file that holds the library in the given link mode.
pub open spec fn library_file_spec(mode: LinkMode) -> Seq<char> {
    match mode {
        LinkMode::Static => seq!['l', 'i', 'b', 's', 'n', 'a', 'p', 'p', 'y', '.', 'a'],
        LinkMode::Dynamic => seq!['l', 'i', 'b', 's', 'n', 'a', 'p', 'p', 'y', '.', 's', 'o'],
    }
}

pub fn library_name() -> (r: String)
    ensures
        r@ == library_name_spec(),
{
    let r = String::from_str("snappy");
    proof {
        reveal_strlit("snappy");
        assert(r@ =~= library_name_spec());
    }
    r
}

pub fn library_file_name(mode: LinkMode) -> (r: String)
    ensures
        r@ == library_file_spec(mode),
{
    match mode {
        LinkMode::Static => {
            let r = String::from_str("libsnappy.a");
            proof {
                reveal_strlit("libsnappy.a");
                assert(r@ =~= library_file_spec(mode));
            }
            r
        },
        LinkMode::Dynamic => {
            let r = String::from_str("libsnappy.so");
            proof {
                reveal_strlit("libsnappy.so");
                assert(r@ =~= library_file_spec(mode));
            }
            r
        },
    }
}

} // verus!
