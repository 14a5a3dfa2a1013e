//! Which of the two stylesheets the window wears.
//!
//! The platform names a theme and may, besides, state a preference for dark
//! applications. The window goes dark when either says so: when the theme's
//! lowercased name holds the word "dark", or when the preference is set.
use vstd::prelude::*;

verus! {

/// The two stylesheets that the window can wear.
#[derive(Clone, Copy, Debug, PartialEq, Eq, Structural)]
pub enum Stylesheet {
    Light,
    Dark,
}

/// Whether `needle` occurs in `haystack` at position `at`.
pub open spec fn occurs_at(haystack: Seq<char>, needle: Seq<char>, at: int) -> bool {
    &&& 0 <= at
    &&& at + needle.len() <= haystack.len()
    &&& haystack.subrange(at, at + needle.len()) == needle
}

/// Whether `needle` occurs somewhere in `haystack` as a run of consecutive
/// characters. The empty needle occurs in every haystack.
pub open spec fn has_substring(haystack: Seq<char>, needle: Seq<char>) -> bool {
    exists|at: int| occurs_at(haystack, needle, at)
}

/// What `str::to_lowercase` makes of a string. The mapping follows the
/// Unicode tables that the standard library carries, which are too long to
/// write out here; it depends on the characters alone.
pub uninterp spec fn lowercase_of(s: Seq<char>) -> Seq<char>;

/// The word that marks a theme as dark.
pub open spec fn dark_word() -> Seq<char> {
    seq!['d', 'a', 'r', 'k']
}

/// Whether a theme name, already lowercased, says that the theme is dark.
pub open spec fn names_dark(lowered: Seq<char>) -> bool {
    has_substring(lowered, dark_word())
}

/// The stylesheet for a theme whose lower-cased name is `lowered`, under the
/// given preference.
pub open spec fn stylesheet_for(lowered: Seq<char>, prefer_dark: bool) -> Stylesheet {
    if names_dark(lowered) || prefer_dark {
        Stylesheet::Dark
    } else {
        Stylesheet::Light
    }
}

/// The stylesheet for a theme as the platform names it.
pub open spec fn stylesheet_of(theme_name: Seq<char>, prefer_dark: bool) -> Stylesheet {
    stylesheet_for(lowercase_of(theme_name), prefer_dark)
}

/// Calls `str::to_lowercase`. Nothing is proved of the result; the contract
/// only gives it its name, so that callers can speak of it.
#[verifier::external_body]
fn to_lowercase(s: &str) -> (r: String)
    ensures
        r@ == lowercase_of(s@),
{
    s.to_lowercase()
}

/// The characters of a string, in order.
fn chars_of(s: &str) -> (v: Vec<char>)
    ensures
        v@ == s@,
{
    broadcast use vstd::string::group_string_axioms;

    let mut v: Vec<char> = Vec::new();
    let it = s.chars();
    for c in iter: it
        invariant
            iter.seq() == s@,
            v@ == s@.take(iter.index()),
    {
        v.push(c);
    }
    assert(v@ == s@.take(s@.len() as int));
    v
}

/// Tests whether `needle` stands in `haystack` at position `at`.
fn matches_at(haystack: &Vec<char>, needle: &Vec<char>, at: usize) -> (r: bool)
    requires
        at + needle.len() <= haystack.len(),
    ensures
        r == occurs_at(haystack@, needle@, at as int),
{
    let mut k: usize = 0;
    while k < needle.len()
        invariant
            k <= needle.len(),
            at + needle.len() <= haystack.len(),
            forall|j: int| 0 <= j < k ==> haystack@[at + j] == needle@[j],
        decreases needle.len() - k,
    {
        if haystack[at + k] != needle[k] {
            assert(haystack@.subrange(at as int, at + needle@.len())[k as int] != needle@[k as int]);
            return false;
        }
        k += 1;
    }
    assert(haystack@.subrange(at as int, at + needle@.len()) =~= needle@);
    true
}

/// Tests whether `needle` occurs in `haystack`.
pub fn contains(haystack: &str, needle: &str) -> (r: bool)
    ensures
        r == has_substring(haystack@, needle@),
{
    let hay = chars_of(haystack);
    let pat = chars_of(needle);
    if pat.len() == 0 {
        assert(occurs_at(haystack@, needle@, 0)) by {
            assert(haystack@.subrange(0, 0) =~= needle@);
        }
        return true;
    }
    if pat.len() > hay.len() {
        return false;
    }
    let last: usize = hay.len() - pat.len();
    let mut at: usize = 0;
    while at <= last
        invariant
            at <= last + 1,
            last == hay.len() - pat.len(),
            0 < pat.len() <= hay.len(),
            hay@ == haystack@,
            pat@ == needle@,
            forall|i: int| 0 <= i < at ==> !occurs_at(haystack@, needle@, i),
        decreases last + 1 - at,
    {
        if matches_at(&hay, &pat, at) {
            return true;
        }
        at += 1;
    }
    false
}

/// Picks the stylesheet for a theme whose name is already lowercased.
pub fn stylesheet_for_lowered(lowered: &str, prefer_dark: bool) -> (sheet: Stylesheet)
    ensures
        sheet == stylesheet_for(lowered@, prefer_dark),
{
    proof {
        reveal_strlit("dark");
        assert("dark"@ =~= dark_word());
    }
    if contains(lowered, "dark") || prefer_dark {
        Stylesheet::Dark
    } else {
        Stylesheet::Light
    }
}

/// Picks the stylesheet for the theme that the platform names, under the
/// platform's preference for dark applications.
pub fn select_stylesheet(theme_name: &str, prefer_dark: bool) -> (sheet: Stylesheet)
    ensures
        sheet == stylesheet_of(theme_name@, prefer_dark),
{
    let lowered = to_lowercase(theme_name);
    stylesheet_for_lowered(lowered.as_str(), prefer_dark)
}

} // verus!
