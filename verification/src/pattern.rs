//! Regular-expression rewriting, delegated to the `regex` crate.
//!
//! The matching engine is not modelled. Its results are given names, and the
//! contracts of this crate speak of those names.

use crate::text::text_view;
use vstd::prelude::*;

verus! {

/// Whether `regex::Regex::new` accepts `pattern`.
pub uninterp spec fn regex_accepts(pattern: Seq<char>) -> bool;

/// What `regex::Regex::replace_all` returns for an accepted `pattern`: `text`
/// with every non-overlapping match, leftmost first, replaced by the
/// expansion of `replacement`.
pub uninterp spec fn regex_replaced(
    pattern: Seq<char>,
    text: Seq<char>,
    replacement: Seq<char>,
) -> Seq<char>;

/// What `regex::Regex::captures_iter` finds for an accepted `pattern`: for
/// each non-overlapping match in `text`, leftmost first, the text of capture
/// group `group`, or `None` where the group took no part in the match.
pub uninterp spec fn regex_groups(pattern: Seq<char>, text: Seq<char>, group: nat) -> Seq<
    Option<Seq<char>>,
>;

/// The texts of a list of optional strings.
pub open spec fn group_texts(list: Seq<Option<String>>) -> Seq<Option<Seq<char>>> {
    list.map_values(|o: Option<String>| text_view(o))
}

/// Compiles `pattern` with `regex::Regex::new` and rewrites `text` with
/// `Regex::replace_all`. Returns `None` exactly when the pattern is refused;
/// otherwise the result is the one the crate computes, which is only named
/// here.
#[verifier::external_body]
fn regex_replace_all(pattern: &str, text: &str, replacement: &str) -> (out: Option<String>)
    ensures
        out is Some <==> regex_accepts(pattern@),
        out matches Some(s) ==> s@ == regex_replaced(pattern@, text@, replacement@),
{
    match regex::Regex::new(pattern) {
        Ok(re) => Some(re.replace_all(text, replacement).into_owned()),
        Err(_) => None,
    }
}

/// Compiles `pattern` with `regex::Regex::new` and walks the matches in
/// `text` with `Regex::captures_iter`. `None` comes exactly when the pattern
/// is refused; otherwise the list holds, match by match, the named text of
/// capture group `group`.
#[verifier::external_body]
fn regex_capture_all(pattern: &str, text: &str, group: usize) -> (out: Option<
    Vec<Option<String>>,
>)
    ensures
        out is Some <==> regex_accepts(pattern@),
        out matches Some(found) ==> group_texts(found@) == regex_groups(
            pattern@,
            text@,
            group as nat,
        ),
{
    match regex::Regex::new(pattern) {
        Ok(re) => Some(
            re.captures_iter(text).map(|c| c.get(group).map(|m| m.as_str().to_string())).collect(),
        ),
        Err(_) => None,
    }
}

/// `text` rewritten by `pattern`, or `text` itself where the pattern is
/// refused.
pub open spec fn rewritten(pattern: Seq<char>, text: Seq<char>, replacement: Seq<char>) -> Seq<
    char,
> {
    if regex_accepts(pattern) {
        regex_replaced(pattern, text, replacement)
    } else {
        text
    }
}

/// Replaces every match of `pattern` in `text` by `replacement`; a pattern
/// that does not compile leaves the text as it is.
pub fn rewrite(pattern: &str, text: String, replacement: &str) -> (out: String)
    ensures
        out@ == rewritten(pattern@, text@, replacement@),
{
    match regex_replace_all(pattern, text.as_str(), replacement) {
        Some(s) => s,
        None => text,
    }
}

/// What capture group `group` holds in each match of `pattern` in `text`,
/// leftmost match first; nothing where the pattern is refused.
pub open spec fn captured_all(pattern: Seq<char>, text: Seq<char>, group: nat) -> Seq<
    Option<Seq<char>>,
> {
    if regex_accepts(pattern) {
        regex_groups(pattern, text, group)
    } else {
        Seq::empty()
    }
}

/// Finds every match of `pattern` in `text` and returns what capture group
/// `group` holds in each.
pub fn capture_all(pattern: &str, text: &str, group: usize) -> (out: Vec<Option<String>>)
    ensures
        group_texts(out@) == captured_all(pattern@, text@, group as nat),
{
    match regex_capture_all(pattern, text, group) {
        Some(found) => found,
        None => Vec::new(),
    }
}

} // verus!
