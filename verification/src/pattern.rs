//! Regular expressions, matched by the `regex` crate.
//!
//! A `Pattern` keeps the text it was compiled from, and the results of the
//! `regex` crate are named as functions of that text.
use vstd::prelude::*;

verus! {

/// A compiled regular expression of the `regex` crate, carried opaquely.
#[verifier::external_type_specification]
#[verifier::external_body]
pub struct ExRegex(regex::Regex);

/// Whether `regex::Regex::new` accepts the pattern text.
pub uninterp spec fn regex_is_valid(pattern: Seq<char>) -> bool;

/// `regex::Regex::captures_len` of the regex compiled from the pattern text:
/// the number of capture groups, the whole match included.
pub uninterp spec fn regex_captures_len(pattern: Seq<char>) -> nat;

/// `regex::Regex::captures` of the regex compiled from the pattern text on
/// `text`: `None` when it does not match, else the text of each capture
/// group (`None` for a group that did not take part in the match).
pub uninterp spec fn regex_captures(pattern: Seq<char>, text: Seq<char>) -> Option<
    Seq<Option<Seq<char>>>,
>;

/// The text of each capture group, as values.
pub open spec fn groups_view(groups: Seq<Option<String>>) -> Seq<Option<Seq<char>>> {
    groups.map_values(
        |g: Option<String>|
            match g {
                Some(s) => Some(s@),
                None => None,
            },
    )
}

/// A regular expression together with the text it was compiled from.
#[derive(Debug)]
pub struct Pattern {
    source: String,
    regex: regex::Regex,
}

impl Pattern {
    /// The text the expression was compiled from.
    pub closed spec fn source_text(&self) -> Seq<char> {
        self.source@
    }

    /// `regex::Regex::new`: compiles `source`. Claimed: a pattern exactly
    /// when the `regex` crate accepts the text, and then one that keeps it.
    #[verifier::external_body]
    pub fn new(source: &str) -> (r: Option<Pattern>)
        ensures
            r is Some <==> regex_is_valid(source@),
            r matches Some(p) ==> p.source_text() == source@,
    {
        regex::Regex::new(source).ok().map(|regex| Pattern { source: source.to_string(), regex })
    }

    /// The text the expression was compiled from.
    pub fn as_str(&self) -> (r: &str)
        ensures
            r@ == self.source_text(),
    {
        self.source.as_str()
    }

    /// `regex::Regex::captures_len`: the number of capture groups of the
    /// expression, the whole match included.
    #[verifier::external_body]
    pub fn captures_len(&self) -> (r: usize)
        ensures
            r == regex_captures_len(self.source_text()),
    {
        self.regex.captures_len()
    }

    /// `regex::Regex::captures`: the capture groups of the leftmost match in
    /// `text`, each as its text.
    #[verifier::external_body]
    pub fn captures(&self, text: &str) -> (r: Option<Vec<Option<String>>>)
        ensures
            match r {
                Some(groups) => regex_captures(self.source_text(), text@) == Some(
                    groups_view(groups@),
                ),
                None => regex_captures(self.source_text(), text@) is None,
            },
    {
        self.regex.captures(text).map(
            |c| c.iter().map(|m| m.map(|m| m.as_str().to_string())).collect(),
        )
    }
}

} // verus!
