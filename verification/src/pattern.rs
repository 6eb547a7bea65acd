//! Regular expressions, through the `regex` crate.

use vstd::prelude::*;

verus! {

#[verifier::external_type_specification]
#[verifier::external_body]
pub struct ExRegex(regex::Regex);

#[verifier::external_type_specification]
#[verifier::external_body]
pub struct ExRegexError(regex::Error);

/// Why a regular expression could not be compiled.
#[derive(Debug, Clone, Copy, PartialEq, Eq, Structural)]
pub enum PatternError {
    Rejected,
}

/// Whether `regex::Regex::new` accepts `pattern`.
pub uninterp spec fn pattern_compiles(pattern: Seq<char>) -> bool;

/// The capture groups of the first (leftmost) match of `pattern` in
/// `haystack`, as `regex::Regex::captures` finds them: `None` where there is
/// no match, else group 0 (the whole match) and then each group in the order
/// of its opening parenthesis, `None` for a group that took no part.
pub uninterp spec fn pattern_captures(pattern: Seq<char>, haystack: Seq<char>) -> Option<
    Seq<Option<Seq<char>>>,
>;

/// A compiled regular expression, which remembers its source text.
pub struct Pattern {
    regex: regex::Regex,
    source: Ghost<Seq<char>>,
}

impl View for Pattern {
    type V = Seq<char>;

    /// The source text of the expression.
    closed spec fn view(&self) -> Seq<char> {
        self.source@
    }
}

/// A capture group taken by its view.
pub open spec fn group_view(g: Option<String>) -> Option<Seq<char>> {
    match g {
        Some(s) => Some(s@),
        None => None,
    }
}

/// The groups of a match, each taken by its view.
pub open spec fn groups_view(groups: Seq<Option<String>>) -> Seq<Option<Seq<char>>> {
    groups.map_values(|g: Option<String>| group_view(g))
}

/// The groups of an optional match, each taken by its view.
pub open spec fn captures_view(c: Option<Vec<Option<String>>>) -> Option<Seq<Option<Seq<char>>>> {
    match c {
        Some(groups) => Some(groups_view(groups@)),
        None => None,
    }
}

/// Compiles `pattern` with `regex::Regex::new`. It succeeds exactly where
/// the crate accepts the pattern (its syntax and its size limit decide), and
/// the result remembers `pattern`.
#[verifier::external_body]
pub(crate) fn compile_pattern(pattern: &str) -> (r: Result<Pattern, regex::Error>)
    ensures
        r is Ok <==> pattern_compiles(pattern@),
        r matches Ok(p) ==> p@ == pattern@,
{
    match regex::Regex::new(pattern) {
        Ok(regex) => Ok(Pattern { regex, source: Ghost(pattern@) }),
        Err(e) => Err(e),
    }
}

/// The capture groups of the first match of `pattern` in `haystack`, from
/// `regex::Regex::captures`, each group as an owned string. The result is
/// `pattern_captures` of the two texts; the crate's documentation adds that
/// group 0, the whole match, is always present in a match.
#[verifier::external_body]
pub(crate) fn first_captures(pattern: &Pattern, haystack: &str) -> (r: Option<Vec<Option<String>>>)
    ensures
        captures_view(r) == pattern_captures(pattern@, haystack@),
        r matches Some(groups) ==> groups@.len() >= 1 && groups@[0] is Some,
{
    match pattern.regex.captures(haystack) {
        Some(caps) => Some(caps.iter().map(|g| g.map(|m| m.as_str().to_string())).collect()),
        None => None,
    }
}

} // verus!
