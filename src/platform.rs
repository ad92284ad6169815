use vstd::prelude::*;
use vstd::string::*;

verus! {

/// The three classes of target platform that decide the runtime library.
#[derive(PartialEq, Eq, Structural, Clone, Copy, Debug)]
pub enum Platform {
    Darwin,
    Windows,
    Other,
}

/// `needle` stands in `hay` starting at position `i`.
pub open spec fn occurs_at(hay: Seq<char>, needle: Seq<char>, i: int) -> bool {
    0 <= i && i + needle.len() <= hay.len() && hay.subrange(i, i + needle.len()) == needle
}

pub open spec fn has_substring(hay: Seq<char>, needle: Seq<char>) -> bool {
    exists|i: int| occurs_at(hay, needle, i)
}

pub open spec fn darwin_word() -> Seq<char> {
    seq!['d', 'a', 'r', 'w', 'i', 'n']
}

pub open spec fn windows_word() -> Seq<char> {
    seq!['w', 'i', 'n', 'd', 'o', 'w', 's']
}

/// Classification of a target identifier: `darwin` is looked for first,
/// then `windows`; anything else is `Other`.
pub open spec fn platform_of(target: Seq<char>) -> Platform {
    if has_substring(target, darwin_word()) {
        Platform::Darwin
    } else if has_substring(target, windows_word()) {
        Platform::Windows
    } else {
        Platform::Other
    }
}

/// The extra runtime library that a static link of the library needs.
pub open spec fn runtime_library_spec(p: Platform) -> Option<Seq<char>> {
    match p {
        Platform::Darwin => Some(seq!['c', '+', '+']),
        Platform::Windows => None,
        Platform::Other => Some(seq!['s', 't', 'd', 'c', '+', '+']),
    }
}

fn occurs_at_exec(hay: &str, needle: &str, i: usize) -> (r: bool)
    requires
        i + needle@.len() <= hay@.len(),
    ensures
        r == occurs_at(hay@, needle@, i as int),
{
    let h = hay.unicode_len();
    let n = needle.unicode_len();
    let mut j: usize = 0;
    while j < n
        invariant
            0 <= j <= n,
            h == hay@.len(),
            n == needle@.len(),
            i + n <= hay@.len(),
            forall|k: int| 0 <= k < j ==> hay@[i + k] == needle@[k],
        decreases n - j,
    {
        if hay.get_char(i + j) != needle.get_char(j) {
            proof {
                assert(hay@.subrange(i as int, i + n)[j as int] != needle@[j as int]);
            }
            return false;
        }
        j += 1;
    }
    proof {
        assert(hay@.subrange(i as int, i + n) =~= needle@);
    }
    true
}

/// Whether `needle` occurs anywhere in `hay`.
pub fn contains_str(hay: &str, needle: &str) -> (r: bool)
    ensures
        r == has_substring(hay@, needle@),
{
    let h = hay.unicode_len();
    let n = needle.unicode_len();
    if n > h {
        return false;
    }
    let last = h - n;
    let mut i: usize = 0;
    loop
        invariant
            h == hay@.len(),
            n == needle@.len(),
            last == h - n,
            0 <= i <= last,
            forall|k: int| 0 <= k < i ==> !occurs_at(hay@, needle@, k),
        decreases last - i,
    {
        if occurs_at_exec(hay, needle, i) {
            return true;
        }
        if i == last {
            return false;
        }
        i += 1;
    }
}

/// Sorts a target identifier into one of the three platform classes.
pub fn classify(target: &str) -> (r: Platform)
    ensures
        r == platform_of(target@),
{
    let darwin = "darwin";
    let windows = "windows";
    proof {
        reveal_strlit("darwin");
        reveal_strlit("windows");
        assert(darwin@ =~= darwin_word());
        assert(windows@ =~= windows_word());
    }
    if contains_str(target, darwin) {
        Platform::Darwin
    } else if contains_str(target, windows) {
        Platform::Windows
    } else {
        Platform::Other
    }
}

/// The runtime library to add to a static link on the given platform class.
pub fn runtime_library(p: Platform) -> (r: Option<String>)
    ensures
        match (r, runtime_library_spec(p)) {
            (Some(s), Some(t)) => s@ == t,
            (None, None) => true,
            _ => false,
        },
{
    match p {
        Platform::Darwin => {
            let s = String::from_str("c++");
            proof {
                reveal_strlit("c++");
                assert(s@ =~= seq!['c', '+', '+']);
            }
            Some(s)
        },
        Platform::Windows => None,
        Platform::Other => {
            let s = String::from_str("stdc++");
            proof {
                reveal_strlit("stdc++");
                assert(s@ =~= seq!['s', 't', 'd', 'c', '+', '+']);
            }
            Some(s)
        },
    }
}

/// The runtime library to add to a static link for a target identifier.
pub fn runtime_library_for(target: &str) -> (r: Option<String>)
    ensures
        match (r, runtime_library_spec(platform_of(target@))) {
            (Some(s), Some(t)) => s@ == t,
            (None, None) => true,
            _ => false,
        },
{
    runtime_library(classify(target))
}

} // verus!
