use vstd::prelude::*;
use regex::Regex;

verus! {

#[verifier::external_type_specification]
#[verifier::external_body]
pub struct ExRegex(regex::Regex);

/// Whether `Regex::new` accepts `pattern`: depends on the pattern alone.
pub uninterp spec fn regex_valid(pattern: Seq<char>) -> bool;

/// Whether the regex compiled from `pattern` finds a match anywhere in
/// `text` (unanchored search): depends on the two strings alone.
pub uninterp spec fn regex_finds(pattern: Seq<char>, text: Seq<char>) -> bool;

/// A compiled regular expression, together with the text it was compiled from.
pub struct Pattern {
    source: String,
    regex: Regex,
}

impl View for Pattern {
    type V = Seq<char>;

    /// The text the pattern was compiled from.
    closed spec fn view(&self) -> Seq<char> {
        self.source@
    }
}

/// Relies on `regex::Regex::new`: it succeeds exactly on the patterns it
/// accepts, and the compiled regex keeps its source text.
#[verifier::external_body]
fn compile(source: &str) -> (r: Option<Pattern>)
    ensures
        r is Some <==> regex_valid(source@),
        r matches Some(p) ==> p@ == source@,
{
    match Regex::new(source) {
        Ok(regex) => Some(Pattern { source: source.to_string(), regex }),
        Err(_) => None,
    }
}

/// Relies on `regex::Regex::is_match`: whether the regex matches somewhere
/// in `text`.
#[verifier::external_body]
fn regex_is_match(p: &Pattern, text: &str) -> (r: bool)
    ensures
        r == regex_finds(p@, text@),
{
    p.regex.is_match(text)
}

impl Pattern {
    /// Whether the pattern matches somewhere in `text`.
    pub fn is_match(&self, text: &str) -> (r: bool)
        ensures
            r == regex_finds(self@, text@),
    {
        regex_is_match(self, text)
    }

    /// The text the pattern was compiled from.
    pub fn as_str(&self) -> (r: &str)
        ensures
            r@ == self@,
    {
        self.source.as_str()
    }
}

/// The message of the error for a pattern that does not compile.
pub open spec fn invalid_pattern_message(pattern: Seq<char>) -> Seq<char> {
    "Invalid regex: "@ + pattern
}

/// Compiles the optional pattern given by the user, once.
///
/// No pattern means no filtering (`Ok(None)`); a pattern that compiles gives
/// `Ok(Some(p))`; one that does not gives an error that quotes it.
pub fn get_regex(pattern: Option<&str>) -> (r: Result<Option<Pattern>, String>)
    ensures
        pattern is None ==> r == Ok::<Option<Pattern>, String>(None),
        pattern matches Some(s) ==> (regex_valid(s@) <==> r is Ok),
        pattern matches Some(s) ==> (r matches Ok(Some(p)) && p@ == s@) || (r matches Err(e) && e@
            == invalid_pattern_message(s@)),
{
    match pattern {
        Some(s) => {
            match compile(s) {
                Some(p) => Ok(Some(p)),
                None => {
                    let prefix = "Invalid regex: ";
                    proof { reveal_strlit("Invalid regex: "); }
                    Err(String::from_str(prefix).concat(s))
                },
            }
        },
        None => Ok(None),
    }
}

} // verus!
