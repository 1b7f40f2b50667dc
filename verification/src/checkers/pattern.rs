//! Compiled regular expressions, kept together with the pattern they were
//! compiled from. A `Pattern` is only built by the trusted call of
//! `Regex::new`, which keeps the pattern it compiled beside the regex.

use regex::Regex;
use vstd::prelude::*;

verus! {

// ---------------------------------------------------------------------
// Regular expressions
// ---------------------------------------------------------------------

#[verifier::external_type_specification]
#[verifier::external_body]
pub struct ExRegex(Regex);

/// Whether `regex::Regex::new` accepts `pattern`: the pattern is valid and
/// the compiled regex fits in the default size limit.
pub uninterp spec fn regex_compiles(pattern: Seq<char>) -> bool;

/// What the leftmost-first match of `pattern` in `haystack` gives for the
/// capture group named `group`: `None` when the regex does not match,
/// `Some(None)` when it matches but no group of that name takes part in
/// the match (or the pattern has no group of that name), `Some(Some(text))`
/// with the text of the group otherwise.
pub uninterp spec fn regex_named_group(
    pattern: Seq<char>,
    haystack: Seq<char>,
    group: Seq<char>,
) -> Option<Option<Seq<char>>>;

/// Calls `regex::Regex::new` on `pattern` and pairs the regex it returns
/// with `pattern`. Trusted: the result is `Some` exactly when the crate
/// accepts the pattern, which `regex_compiles` names, and the pattern kept
/// is the one compiled.
#[verifier::external_body]
fn compile_regex(pattern: &str) -> (r: Option<Pattern>)
    ensures
        r is Some <==> regex_compiles(pattern@),
        r matches Some(p) ==> p@ == pattern@,
{
    match Regex::new(pattern) {
        Ok(regex) => Some(Pattern { source: pattern.to_owned(), regex }),
        Err(_) => None,
    }
}

/// A compiled regular expression, with the pattern it was compiled from.
pub struct Pattern {
    source: String,
    regex: Regex,
}

impl View for Pattern {
    type V = Seq<char>;

    /// The pattern the regex was compiled from.
    closed spec fn view(&self) -> Seq<char> {
        self.source@
    }
}

impl Pattern {
    /// Compiles `source`; `None` when the regex crate refuses it.
    pub fn compile(source: &str) -> (r: Option<Pattern>)
        ensures
            r is Some <==> regex_compiles(source@),
            r matches Some(p) ==> p@ == source@,
    {
        compile_regex(source)
    }

    /// Calls `regex::Regex::captures` on `haystack`, then
    /// `regex::Captures::name` with `group`, and copies the text of the
    /// group. Trusted: the result is what `regex_named_group` names for the
    /// pattern the regex was compiled from (a `Pattern` is only built by
    /// `compile_regex`, which pairs the regex with the pattern it compiled).
    #[verifier::external_body]
    pub(crate) fn named_group(&self, haystack: &str, group: &str) -> (r: Option<Option<String>>)
        ensures
            opt_opt_view(r) == regex_named_group(self@, haystack@, group@),
    {
        match self.regex.captures(haystack) {
            None => None,
            Some(caps) => match caps.name(group) {
                None => Some(None),
                Some(m) => Some(Some(m.as_str().to_owned())),
            },
        }
    }
}

/// The view of an optional optional string.
pub open spec fn opt_opt_view(o: Option<Option<String>>) -> Option<Option<Seq<char>>> {
    match o {
        None => None,
        Some(None) => Some(None),
        Some(Some(s)) => Some(Some(s@)),
    }
}

} // verus!
