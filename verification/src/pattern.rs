//! Regular-expression matching, delegated to the `regex` crate.

use vstd::prelude::*;
use vstd::string::*;

verus! {

/// Whether `c` has a special meaning in a regular expression.
pub open spec fn is_meta_character(c: char) -> bool {
    c == '\\' || c == '.' || c == '+' || c == '*' || c == '?' || c == '(' || c == ')' || c == '|'
        || c == '[' || c == ']' || c == '{' || c == '}' || c == '^' || c == '$' || c == '#'
        || c == '&' || c == '-' || c == '~'
}

/// `text` with a backslash put before each meta character, so that the
/// result, read as a pattern, matches `text` literally.
pub open spec fn escaped(text: Seq<char>) -> Seq<char>
    decreases text.len(),
{
    if text.len() == 0 {
        Seq::empty()
    } else {
        let c = text.last();
        let prefix = escaped(text.drop_last());
        if is_meta_character(c) {
            prefix.push('\\').push(c)
        } else {
            prefix.push(c)
        }
    }
}

/// The error text with which `regex::Regex::new` refuses `pattern`, or
/// `None` where it compiles the pattern.
pub uninterp spec fn regex_compile_error(pattern: Seq<char>) -> Option<Seq<char>>;

/// Whether the compiled `pattern` matches somewhere in `haystack`
/// (`regex::Regex::is_match`).
pub uninterp spec fn regex_is_match(pattern: Seq<char>, haystack: Seq<char>) -> bool;

/// Compiles `pattern` with `regex::Regex::new` and, where that succeeds,
/// asks `regex::Regex::is_match` whether it matches `haystack`; where it
/// fails, hands back the error's display text.
///
/// Trusted: the contract claims that success depends on the pattern alone,
/// and that the answer and the error text are functions of the arguments
/// (named by `regex_compile_error` and `regex_is_match`). Nothing is said
/// of regex semantics.
#[verifier::external_body]
pub(crate) fn regex_search(pattern: &str, haystack: &str) -> (r: Result<bool, String>)
    ensures
        r is Ok <==> regex_compile_error(pattern@) is None,
        r matches Ok(found) ==> found == regex_is_match(pattern@, haystack@),
        r matches Err(e) ==> regex_compile_error(pattern@) == Some(e@),
{
    match regex::Regex::new(pattern) {
        Ok(re) => Ok(re.is_match(haystack)),
        Err(e) => Err(e.to_string()),
    }
}

/// `regex::escape`: puts a backslash before each meta character of `text`.
///
/// Trusted: the contract restates what regex-syntax's `escape_into` does:
/// for each character, a backslash first where `is_meta_character` holds
/// (the list of `is_meta_character` above), then the character.
#[verifier::external_body]
pub(crate) fn regex_escape(text: &str) -> (r: String)
    ensures
        r@ == escaped(text@),
{
    regex::escape(text)
}

} // verus!
