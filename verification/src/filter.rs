//! Which files are renamed, and the patterns by which a directory is scanned.

use crate::paths::{file_name_of, join, path_file_name, path_join};
use vstd::prelude::*;
use vstd::string::*;

verus! {

/// Whether `text` matches the shell-style pattern `pattern`, as the `glob`
/// crate decides it with its default options; `None` where the crate refuses
/// the pattern as malformed.
pub uninterp spec fn glob_match(pattern: Seq<char>, text: Seq<char>) -> Option<bool>;

/// Compiles `pattern` with `glob::Pattern::new` and matches `text` against it
/// with `glob::Pattern::matches`.
///
/// Trusted: the result is the outcome of those two calls, which depends on
/// the two texts alone; `None` stands for a pattern that did not compile.
#[verifier::external_body]
pub(crate) fn match_glob(pattern: &str, text: &str) -> (r: Option<bool>)
    ensures
        r == glob_match(pattern@, text@),
{
    match glob::Pattern::new(pattern) {
        Ok(compiled) => Some(compiled.matches(text)),
        Err(_) => None,
    }
}

/// The pattern that a file's base name has to match for the file to be
/// renamed.
pub open spec fn xml_filter() -> Seq<char> {
    "*.xml"@
}

/// A path is a candidate for renaming where its final component matches the
/// filter. A path without a final component is matched as the empty name.
pub open spec fn is_xml_file_spec(path: Seq<char>) -> bool {
    let name = match path_file_name(path) {
        Some(n) => n,
        None => Seq::<char>::empty(),
    };
    glob_match(xml_filter(), name) == Some(true)
}

/// The rule on a base name that is already at hand.
pub open spec fn accepts_spec(matched: Option<bool>) -> bool {
    matched == Some(true)
}

/// Decides from the outcome of a match whether a file is taken: only a
/// pattern that compiled and matched takes it.
pub fn accepts(matched: Option<bool>) -> (r: bool)
    ensures
        r == accepts_spec(matched),
{
    match matched {
        Some(hit) => hit,
        None => false,
    }
}

/// Tells whether the file at `path` is one that is renamed.
pub fn is_xml_file(path: &str) -> (r: bool)
    ensures
        r == is_xml_file_spec(path@),
{
    let matched = match file_name_of(path) {
        Some(name) => match_glob("*.xml", name.as_str()),
        None => {
            let empty = String::new();
            match_glob("*.xml", empty.as_str())
        },
    };
    accepts(matched)
}

/// The pattern that finds the candidate files directly inside `dir`.
pub open spec fn xml_pattern_spec(dir: Seq<char>) -> Seq<char> {
    dir + seq!['/'] + xml_filter()
}

/// Builds the pattern that finds the candidate files directly inside `dir`.
pub fn xml_pattern(dir: &str) -> (r: String)
    ensures
        r@ == xml_pattern_spec(dir@),
{
    proof {
        reveal_strlit("/");
    }
    let sep = "/";
    assert(sep@ =~= seq!['/']);
    dir.to_owned().concat(sep).concat("*.xml")
}

/// The pattern that finds every directory below `dir`: `dir` with the
/// recursive wildcard adjoined as a path component.
pub open spec fn descendants_pattern_spec(dir: Seq<char>) -> Seq<char> {
    path_join(dir, "**"@)
}

/// Builds the pattern that finds every directory below `dir`.
pub fn descendants_pattern(dir: &str) -> (r: String)
    ensures
        r@ == descendants_pattern_spec(dir@),
{
    join(dir, "**")
}

} // verus!
