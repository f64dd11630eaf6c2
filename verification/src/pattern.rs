//! Compiled regular expressions of the `regex` crate, seen by verified code
//! through the pattern each one was compiled from.

use vstd::prelude::*;

verus! {

/// Declares `regex::Regex` to Verus, as an opaque type.
#[verifier::external_type_specification]
#[verifier::external_body]
pub struct ExRegex(regex::Regex);

/// Declares `regex::Error` to Verus, as an opaque type.
#[verifier::external_type_specification]
#[verifier::external_body]
pub struct ExRegexError(regex::Error);

/// The pattern text a compiled regex was built from (what `Regex::as_str` returns).
pub uninterp spec fn regex_source(re: regex::Regex) -> Seq<char>;

/// Whether a regex was built by `Regex::new` (with the default options that
/// call gives; or cloned from such a regex). A regex built by a
/// `RegexBuilder` with other options can report the same pattern text and
/// match differently, so the named matching results below only speak of
/// regexes for which this holds.
pub uninterp spec fn regex_built_by_new(re: regex::Regex) -> bool;

/// Whether `c`, after a backslash, makes a zero-width assertion in the
/// `regex` syntax (`\b`, `\B`, `\A`, `\z`, `\<`, `\>` and the `\b{..}` forms).
pub open spec fn is_assertion_escape(c: char) -> bool {
    c == 'b' || c == 'B' || c == 'A' || c == 'z' || c == '<' || c == '>'
}

/// Whether a pattern holds none of the `regex` syntax's anchors and
/// word-boundary assertions: no `^`, no `$`, and no backslash followed by an
/// assertion letter. (Conservative: an escaped `\^` or `\\b` also counts.)
/// Whether such a pattern matches a span depends on the span's text alone.
pub open spec fn anchor_free(p: Seq<char>) -> bool
    decreases p.len(),
{
    if p.len() == 0 {
        true
    } else {
        &&& p[0] != '^'
        &&& p[0] != '$'
        &&& !(p[0] == '\\' && p.len() > 1 && is_assertion_escape(p[1]))
        &&& anchor_free(p.drop_first())
    }
}

/// `re` was built by `Regex::new` from `pattern`.
pub open spec fn compiled_from(re: regex::Regex, pattern: Seq<char>) -> bool {
    regex_source(re) == pattern && regex_built_by_new(re)
}

/// Whether `pattern` compiles (whether `Regex::new` succeeds on it).
pub uninterp spec fn regex_compiles(pattern: Seq<char>) -> bool;

/// Whether the regex compiled from `pattern` matches somewhere in `haystack`
/// (what `Regex::is_match` returns).
pub uninterp spec fn regex_is_match(pattern: Seq<char>, haystack: Seq<char>) -> bool;

/// Capture group `group` of the leftmost match of `pattern` in `haystack`
/// (what `Regex::captures` followed by `Captures::get` gives): `None` when there
/// is no match or the group did not take part in it.
pub uninterp spec fn regex_first_group(pattern: Seq<char>, haystack: Seq<char>, group: nat) -> Option<Seq<char>>;

/// Every capture group of every successive non-overlapping match of `pattern`
/// in `haystack` (what `Regex::captures_iter` yields), match by match.
pub uninterp spec fn regex_all_captures(pattern: Seq<char>, haystack: Seq<char>) -> Seq<Seq<Option<Seq<char>>>>;

/// Calls `regex::Regex::new`. Claimed: whether it succeeds is the named
/// result for the pattern alone, and a regex it hands back keeps the pattern
/// it was compiled from (`Regex::as_str` returns it). Not claimed: which
/// patterns compile; the crate rejects invalid syntax and over-large programs.
#[verifier::external_body]
pub(crate) fn compile_regex(pattern: &str) -> (r: Result<regex::Regex, regex::Error>)
    ensures
        r is Ok <==> regex_compiles(pattern@),
        r matches Ok(re) ==> regex_source(re) == pattern@ && regex_built_by_new(re),
{
    regex::Regex::new(pattern)
}

/// Calls `regex::Regex::is_match`. Claimed: for a regex built by
/// `Regex::new`, the answer is the named result for its pattern and the
/// haystack; and when the pattern has no anchors or word-boundary
/// assertions, a match found in the haystack is a match in any text that
/// contains the haystack (`is_match` reports a match anywhere, and without
/// assertions whether a span matches depends on that span alone).
#[verifier::external_body]
pub(crate) fn regex_matches(re: &regex::Regex, haystack: &str) -> (b: bool)
    requires
        regex_built_by_new(*re),
    ensures
        b == regex_is_match(regex_source(*re), haystack@),
        b && anchor_free(regex_source(*re)) ==> forall|x: Seq<char>, y: Seq<char>|
            #[trigger] regex_is_match(regex_source(*re), x + haystack@ + y),
{
    re.is_match(haystack)
}

/// Calls `regex::Regex::captures` and takes group `group` of the result as an
/// owned string. Claimed: for a regex built by `Regex::new`, the outcome is
/// the named result for its pattern, the haystack and the group index.
#[verifier::external_body]
pub(crate) fn regex_capture_group(re: &regex::Regex, haystack: &str, group: usize) -> (r: Option<String>)
    requires
        regex_built_by_new(*re),
    ensures
        r.deep_view() == regex_first_group(regex_source(*re), haystack@, group as nat),
{
    re.captures(haystack).and_then(|c| c.get(group)).map(|m| m.as_str().to_string())
}

/// Calls `regex::Regex::captures_iter` and copies every group of every match
/// into owned strings. Claimed: for a regex built by `Regex::new`, the
/// outcome is the named result for its pattern and the haystack.
#[verifier::external_body]
pub(crate) fn regex_capture_all(re: &regex::Regex, haystack: &str) -> (r: Vec<Vec<Option<String>>>)
    requires
        regex_built_by_new(*re),
    ensures
        r.deep_view() == regex_all_captures(regex_source(*re), haystack@),
{
    re.captures_iter(haystack)
        .map(|c| c.iter().map(|m| m.map(|m| m.as_str().to_string())).collect())
        .collect()
}

/// Specifies `Clone::clone` of `regex::Regex`. Claimed: the copy keeps the
/// pattern text and the compiled program of the original (the derived clone
/// shares both), so it is built as the original was.
pub assume_specification[ <regex::Regex as core::clone::Clone>::clone ](re: &regex::Regex) -> (r: regex::Regex)
    ensures
        regex_source(r) == regex_source(*re),
        regex_built_by_new(r) == regex_built_by_new(*re),
;

/// A pattern of the library that the `regex` crate refused to compile.
#[derive(Debug, Clone, PartialEq, Eq)]
pub struct PatternError {
    /// The refused pattern.
    pub pattern: String,
}

/// Turns the outcome of compiling `pattern` into the library's error type.
pub fn require_compiled(compiled: Result<regex::Regex, regex::Error>, pattern: &str) -> (r: Result<regex::Regex, PatternError>)
    ensures
        match compiled {
            Ok(re) => r == Ok::<regex::Regex, PatternError>(re),
            Err(_) => r matches Err(e) && e.pattern@ == pattern@,
        },
{
    match compiled {
        Ok(re) => Ok(re),
        Err(_) => Err(PatternError { pattern: String::from_str(pattern) }),
    }
}

} // verus!
