//! Regular expressions, in which route patterns and mention detection are written.

use regex::{Error as RegexError, Regex};
use vstd::prelude::*;

use crate::message::utf8_of;
use vstd::utf8::is_char_boundary;

verus! {

#[verifier::external_type_specification]
#[verifier::external_body]
pub struct ExRegexError(RegexError);

#[verifier::external_type_specification]
#[verifier::external_body]
pub struct ExRegex(Regex);

/// Whether the regex crate accepts `pattern`: it is valid syntax and within the default size
/// limit.
pub uninterp spec fn regex_compiles(pattern: Seq<char>) -> bool;

/// Whether the regular expression `pattern` matches somewhere in `haystack`.
pub uninterp spec fn regex_matches(pattern: Seq<char>, haystack: Seq<char>) -> bool;

/// The byte offset where the first match of `pattern` in `haystack` ends, if there is one.
pub uninterp spec fn regex_first_match_end(pattern: Seq<char>, haystack: Seq<char>) -> Option<
    usize,
>;

/// The characters that have a meaning in a regular expression.
pub open spec fn is_meta_character(c: char) -> bool {
    c == '\\' || c == '.' || c == '+' || c == '*' || c == '?' || c == '(' || c == ')' || c == '|'
        || c == '[' || c == ']' || c == '{' || c == '}' || c == '^' || c == '$' || c == '#' || c
        == '&' || c == '-' || c == '~'
}

/// `text` with a backslash put before each meta character, so that it matches literally.
pub open spec fn escaped(text: Seq<char>) -> Seq<char>
    decreases text.len(),
{
    if text.len() == 0 {
        Seq::empty()
    } else {
        let c = text.last();
        let quoted = if is_meta_character(c) {
            seq!['\\', c]
        } else {
            seq![c]
        };
        escaped(text.drop_last()) + quoted
    }
}

/// Relies on `regex::Regex::new`, which fails exactly on the patterns it cannot compile.
#[verifier::external_body]
fn compile(pattern: &str) -> (r: Result<Regex, RegexError>)
    ensures
        r is Ok <==> regex_compiles(pattern@),
{
    Regex::new(pattern)
}

/// Relies on `regex::Regex::is_match`: true iff there is a match anywhere in the haystack.
/// `pattern.regex` is always the compilation of `pattern.source`: `Pattern::new` is the only
/// place that builds a `Pattern`.
#[verifier::external_body]
fn regex_is_match(pattern: &Pattern, haystack: &str) -> (r: bool)
    ensures
        r == regex_matches(pattern.source@, haystack@),
{
    pattern.regex.is_match(haystack)
}

/// Relies on `regex::Regex::find` and `regex::Match::end`: there is a first match iff the
/// pattern matches, and its end falls on a character boundary of the haystack.
/// `pattern.regex` is always the compilation of `pattern.source`.
#[verifier::external_body]
fn regex_find_end(pattern: &Pattern, haystack: &str) -> (r: Option<usize>)
    ensures
        r == regex_first_match_end(pattern.source@, haystack@),
        r is Some <==> regex_matches(pattern.source@, haystack@),
        r is Some ==> is_char_boundary(utf8_of(haystack@), r->0 as int),
{
    pattern.regex.find(haystack).map(|m| m.end())
}

/// Relies on `regex::escape`, which puts a backslash before every meta character.
#[verifier::external_body]
pub(crate) fn escape(text: &str) -> (r: String)
    ensures
        r@ == escaped(text@),
{
    regex::escape(text)
}

/// A compiled regular expression, together with the text it was compiled from.
#[derive(Debug)]
pub struct Pattern {
    source: String,
    regex: Regex,
}

impl Pattern {
    /// The text the expression was compiled from.
    pub closed spec fn spec_source(&self) -> Seq<char> {
        self.source@
    }

    /// Compiles `pattern`; fails where the regex crate rejects it.
    pub fn new(pattern: &str) -> (r: Result<Self, RegexError>)
        ensures
            r is Ok <==> regex_compiles(pattern@),
            r is Ok ==> r->Ok_0.spec_source() == pattern@,
    {
        match compile(pattern) {
            Ok(regex) => Ok(Pattern { source: pattern.to_owned(), regex }),
            Err(e) => Err(e),
        }
    }

    /// The text the expression was compiled from.
    pub fn as_str(&self) -> (r: &str)
        ensures
            r@ == self.spec_source(),
    {
        self.source.as_str()
    }

    /// The compiled expression.
    pub fn regex(&self) -> &Regex {
        &self.regex
    }

    /// Whether the expression matches somewhere in `haystack`.
    pub fn is_match(&self, haystack: &str) -> (r: bool)
        ensures
            r == regex_matches(self.spec_source(), haystack@),
    {
        regex_is_match(self, haystack)
    }

    /// The byte offset where the first match in `haystack` ends, if there is a match.
    pub fn first_match_end(&self, haystack: &str) -> (r: Option<usize>)
        ensures
            r == regex_first_match_end(self.spec_source(), haystack@),
            r is Some <==> regex_matches(self.spec_source(), haystack@),
            r is Some ==> is_char_boundary(utf8_of(haystack@), r->0 as int),
    {
        regex_find_end(self, haystack)
    }
}

} // verus!
