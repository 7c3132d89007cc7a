//! Regular-expression matching, delegated to the `regex` crate.
//!
//! The matching engine is not verified. Each call goes through one of the
//! wrappers below, and what the engine returns is referred to by name in the
//! contracts of the functions that build on it.

use regex::Regex;
use vstd::prelude::*;

verus! {

#[verifier::external_type_specification]
#[verifier::external_body]
pub struct ExRegexError(regex::Error);

/// A pattern that the matching engine refused to compile.
#[derive(Debug, PartialEq, Eq, Structural, Clone, Copy)]
pub enum PatternError {
    Rejected,
}

/// All non-overlapping matches of `pattern` in `text`, leftmost first, or
/// `None` where the engine does not accept `pattern`.
pub uninterp spec fn regex_find_all(pattern: Seq<char>, text: Seq<char>) -> Option<Seq<Seq<char>>>;

/// For each non-overlapping match of `pattern` in `text`, leftmost first, what
/// capture group `group` matched (`None` where the group took no part), or
/// `None` where the engine does not accept `pattern`.
pub uninterp spec fn regex_capture_all(pattern: Seq<char>, text: Seq<char>, group: int) -> Option<
    Seq<Option<Seq<char>>>,
>;

/// What capture group `group` matched in the leftmost match of `pattern` in
/// `text` (`None` where there is no match or the group took no part), or
/// `None` where the engine does not accept `pattern`.
pub uninterp spec fn regex_capture_first(pattern: Seq<char>, text: Seq<char>, group: int) -> Option<
    Option<Seq<char>>,
>;

/// `text` with every non-overlapping match of `pattern` replaced by the
/// expansion of `replacement`, or `None` where the engine does not accept
/// `pattern`.
pub uninterp spec fn regex_replace_all(
    pattern: Seq<char>,
    text: Seq<char>,
    replacement: Seq<char>,
) -> Option<Seq<char>>;

/// The characters that have a meaning of their own in a pattern.
pub open spec fn is_meta_character(c: char) -> bool {
    c == '\\' || c == '.' || c == '+' || c == '*' || c == '?' || c == '(' || c == ')' || c == '|'
        || c == '[' || c == ']' || c == '{' || c == '}' || c == '^' || c == '$' || c == '#' || c
        == '&' || c == '-' || c == '~'
}

/// `text` with a backslash put before each meta character.
pub open spec fn escaped(text: Seq<char>) -> Seq<char>
    decreases text.len(),
{
    if text.len() == 0 {
        Seq::empty()
    } else if is_meta_character(text.last()) {
        escaped(text.drop_last()).push('\\').push(text.last())
    } else {
        escaped(text.drop_last()).push(text.last())
    }
}

/// `regex::Regex::new` followed by `regex::Regex::find_iter`: the text of
/// every match, in the order the engine reports them. The result is taken on
/// trust to depend on `pattern` and `text` alone.
#[verifier::external_body]
pub(crate) fn find_all(pattern: &str, text: &str) -> (r: Result<Vec<String>, regex::Error>)
    ensures
        match r {
            Ok(found) => regex_find_all(pattern@, text@) == Some(found.deep_view()),
            Err(_) => regex_find_all(pattern@, text@) is None,
        },
{
    let re = Regex::new(pattern)?;
    Ok(re.find_iter(text).map(|m| m.as_str().to_string()).collect())
}

/// `regex::Regex::new` followed by `regex::Regex::captures_iter`: for every
/// match, the text of capture group `group`. The result is taken on trust to
/// depend on the arguments alone.
#[verifier::external_body]
pub(crate) fn capture_all(pattern: &str, text: &str, group: usize) -> (r: Result<
    Vec<Option<String>>,
    regex::Error,
>)
    ensures
        match r {
            Ok(found) => regex_capture_all(pattern@, text@, group as int) == Some(
                found.deep_view(),
            ),
            Err(_) => regex_capture_all(pattern@, text@, group as int) is None,
        },
{
    let re = Regex::new(pattern)?;
    Ok(re.captures_iter(text).map(|c| c.get(group).map(|m| m.as_str().to_string())).collect())
}

/// `regex::Regex::new` followed by `regex::Regex::captures`: the text of
/// capture group `group` in the leftmost match. The result is taken on trust
/// to depend on the arguments alone.
#[verifier::external_body]
pub(crate) fn capture_first(pattern: &str, text: &str, group: usize) -> (r: Result<
    Option<String>,
    regex::Error,
>)
    ensures
        match r {
            Ok(found) => regex_capture_first(pattern@, text@, group as int) == Some(
                found.deep_view(),
            ),
            Err(_) => regex_capture_first(pattern@, text@, group as int) is None,
        },
{
    let re = Regex::new(pattern)?;
    Ok(re.captures(text).and_then(|c| c.get(group)).map(|m| m.as_str().to_string()))
}

/// `regex::Regex::new` followed by `regex::Regex::replace_all` with a string
/// replacement, in which the engine expands `$` references. The result is
/// taken on trust to depend on the arguments alone.
#[verifier::external_body]
pub(crate) fn replace_all(pattern: &str, text: &str, replacement: &str) -> (r: Result<
    String,
    regex::Error,
>)
    ensures
        match r {
            Ok(out) => regex_replace_all(pattern@, text@, replacement@) == Some(out@),
            Err(_) => regex_replace_all(pattern@, text@, replacement@) is None,
        },
{
    let re = Regex::new(pattern)?;
    Ok(re.replace_all(text, replacement).into_owned())
}

/// `regex::escape`: a backslash is put before each of the engine's meta
/// characters, and every other character is kept as it is.
#[verifier::external_body]
pub(crate) fn escape(text: &str) -> (r: String)
    ensures
        r@ == escaped(text@),
{
    regex::escape(text)
}

} // verus!
