//! Regular-expression replacement over whole texts.

use vstd::prelude::*;

verus! {

#[verifier::external_type_specification]
#[verifier::external_body]
pub struct ExRegex(regex::Regex);

#[verifier::external_type_specification]
#[verifier::external_body]
pub struct ExRegexError(regex::Error);

/// Whether a pattern compiles: its syntax is valid and it fits the default
/// size limits.
pub uninterp spec fn regex_accepts(pattern: Seq<char>) -> bool;

/// The pattern a compiled regex was built from.
pub uninterp spec fn regex_source(re: regex::Regex) -> Seq<char>;

/// The text obtained by replacing every non-overlapping match of `pattern` in
/// `text` by `template`, with capture-group references expanded.
pub uninterp spec fn regex_replace_all_of(
    pattern: Seq<char>,
    text: Seq<char>,
    template: Seq<char>,
) -> Seq<char>;

/// Relies on `regex::Regex::new`: whether it fails depends on the pattern
/// alone, and the regex it returns is built from the given pattern.
#[verifier::external_body]
fn compile(pattern: &str) -> (r: Result<regex::Regex, regex::Error>)
    ensures
        r is Ok <==> regex_accepts(pattern@),
        r matches Ok(re) ==> regex_source(re) == pattern@,
{
    regex::Regex::new(pattern)
}

/// Relies on `regex::Regex::replace_all`: every match is replaced, with `$n`
/// and `${name}` in the template expanded to capture groups.
#[verifier::external_body]
fn replace_all(re: &regex::Regex, text: &str, template: &str) -> (r: String)
    ensures
        r@ == regex_replace_all_of(regex_source(*re), text@, template@),
{
    re.replace_all(text, template).into_owned()
}

/// Replaces every match of `pattern` in `text` by `template`; `None` when the
/// pattern is not a valid regular expression.
pub fn replace_all_matches(pattern: &str, text: &str, template: &str) -> (r: Option<String>)
    ensures
        r is Some <==> regex_accepts(pattern@),
        r matches Some(s) ==> s@ == regex_replace_all_of(pattern@, text@, template@),
{
    match compile(pattern) {
        Ok(re) => Some(replace_all(&re, text, template)),
        Err(_) => None,
    }
}

/// Whether `pattern` matches somewhere in `text`.
pub uninterp spec fn regex_is_match_of(pattern: Seq<char>, text: Seq<char>) -> bool;

/// Relies on `regex::Regex::is_match`: whether the regex matches anywhere in
/// the text.
#[verifier::external_body]
fn is_match(re: &regex::Regex, text: &str) -> (r: bool)
    ensures
        r == regex_is_match_of(regex_source(*re), text@),
{
    re.is_match(text)
}

/// Whether `pattern` matches somewhere in `text`; `None` when the pattern is
/// not a valid regular expression.
pub fn matches_pattern(pattern: &str, text: &str) -> (r: Option<bool>)
    ensures
        r is Some <==> regex_accepts(pattern@),
        r matches Some(b) ==> b == regex_is_match_of(pattern@, text@),
{
    match compile(pattern) {
        Ok(re) => Some(is_match(&re, text)),
        Err(_) => None,
    }
}

} // verus!
