//! Compiled name patterns. Compilation and matching are done by the
//! `regex` crate; the library sees a pattern only through its source text
//! (the view of a `Pattern`) and through the two named results below.

use vstd::prelude::*;

verus! {

#[verifier::external_type_specification]
#[verifier::external_body]
pub struct ExRegex(regex::Regex);

/// Whether `regex::Regex::new` accepts a pattern. Validity depends on the
/// pattern text alone.
pub uninterp spec fn pattern_valid(pat: Seq<char>) -> bool;

/// Whether the compiled form of `pat` matches anywhere inside `text`
/// (a partial match, no full-string anchoring), as `regex::Regex::is_match`
/// decides it. The result depends on the pattern and the text alone.
pub uninterp spec fn regex_match(pat: Seq<char>, text: Seq<char>) -> bool;

/// The views of a sequence of compiled patterns: their source texts.
pub open spec fn pattern_views(pats: Seq<Pattern>) -> Seq<Seq<char>> {
    pats.map_values(|p: Pattern| p@)
}

pub broadcast proof fn lemma_pattern_views_len(pats: Seq<Pattern>)
    ensures
        #[trigger] pattern_views(pats).len() == pats.len(),
{
}

pub broadcast proof fn lemma_pattern_views_index(pats: Seq<Pattern>, i: int)
    requires
        0 <= i < pats.len(),
    ensures
        #[trigger] pattern_views(pats)[i] == pats[i]@,
{
}

/// A name pattern, compiled once at configuration time. Its view is the
/// pattern source it was compiled from; the compiled form is kept private,
/// so every `Pattern` holds the regex of its own source.
pub struct Pattern {
    re: regex::Regex,
    src: String,
}

impl View for Pattern {
    type V = Seq<char>;

    closed spec fn view(&self) -> Seq<char> {
        self.src@
    }
}

impl Pattern {
    /// Relies on `regex::Regex::new`: it compiles the pattern or reports it
    /// invalid, and acceptance depends on the pattern text alone.
    #[verifier::external_body]
    pub fn new(src: &str) -> (r: Option<Pattern>)
        ensures
            (r is Some) == pattern_valid(src@),
            r is Some ==> r->Some_0@ == src@,
    {
        match regex::Regex::new(src) {
            Ok(re) => Some(Pattern { re, src: src.to_string() }),
            Err(_) => None,
        }
    }

    /// Relies on `regex::Regex::is_match`: a partial match of the compiled
    /// pattern against `text`, a function of pattern source and text alone.
    #[verifier::external_body]
    pub fn is_match(&self, text: &str) -> (r: bool)
        ensures
            r == regex_match(self@, text@),
    {
        self.re.is_match(text)
    }
}

} // verus!
