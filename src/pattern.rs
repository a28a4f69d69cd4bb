use vstd::prelude::*;

verus! {

#[verifier::external_type_specification]
#[verifier::external_body]
pub struct ExRegex(regex::Regex);

#[verifier::external_type_specification]
#[verifier::external_body]
pub struct ExRegexError(regex::Error);

/// Whether `regex::Regex::new` accepts `pattern` (its syntax, and its
/// compiled size under the crate's default limit).
pub uninterp spec fn pattern_compiles(pattern: Seq<char>) -> bool;

/// Whether the regular expression `pattern` matches somewhere in `text`
/// (unanchored unless the pattern anchors itself).
pub uninterp spec fn pattern_matches(pattern: Seq<char>, text: Seq<char>) -> bool;

/// A compiled match pattern together with the text it was compiled from.
/// Its fields are private and set in one place only, `compile_regex`, which
/// compiles `source` into `re`; `Pattern::new` is the public way to it.
pub struct Pattern {
    re: regex::Regex,
    source: String,
}

/// Relies on regex::Regex::new: it succeeds exactly on the patterns it
/// accepts; the compiled regex is kept beside its source text.
#[verifier::external_body]
fn compile_regex(source: &str) -> (r: Result<Pattern, regex::Error>)
    ensures
        r is Ok <==> pattern_compiles(source@),
        r matches Ok(p) ==> p.source@ == source@,
{
    regex::Regex::new(source).map(|re| Pattern { re, source: source.to_string() })
}

/// Relies on regex::Regex::is_match: true exactly when the regex compiled
/// from `p.source` has a match anywhere in `text`.
#[verifier::external_body]
fn regex_is_match(p: &Pattern, text: &str) -> (r: bool)
    ensures
        r == pattern_matches(p.source@, text@),
{
    p.re.is_match(text)
}

impl Pattern {
    /// The text this pattern was compiled from.
    pub closed spec fn view_source(&self) -> Seq<char> {
        self.source@
    }

    /// Compiles `source`; `None` when it is not a valid pattern.
    pub fn new(source: &str) -> (r: Option<Pattern>)
        ensures
            r is Some <==> pattern_compiles(source@),
            r matches Some(p) ==> p.view_source() == source@,
    {
        match compile_regex(source) {
            Ok(p) => Some(p),
            Err(_) => None,
        }
    }

    /// The text this pattern was compiled from.
    pub fn source(&self) -> (r: &str)
        ensures
            r@ == self.view_source(),
    {
        self.source.as_str()
    }

    /// Whether the pattern matches somewhere in `text`.
    pub fn is_match(&self, text: &str) -> (r: bool)
        ensures
            r == pattern_matches(self.view_source(), text@),
    {
        regex_is_match(self, text)
    }
}

} // verus!
