//! What the `url` crate reads in a link.

use crate::text::{text_view, texts};
use vstd::prelude::*;

verus! {

/// Whether `url::Url::parse` accepts `link`.
pub uninterp spec fn url_parses(link: Seq<char>) -> bool;

/// What `url::Url::path_segments` yields for an accepted `link`: the
/// segments of its path, or `None` for a link that cannot be a base.
pub uninterp spec fn url_path_segments(link: Seq<char>) -> Option<Seq<Seq<char>>>;

/// What `url::Url::host_str` yields for an accepted `link`.
pub uninterp spec fn url_host(link: Seq<char>) -> Option<Seq<char>>;

/// The texts of an optional list of strings.
pub open spec fn optional_texts(list: Option<Vec<String>>) -> Option<Seq<Seq<char>>> {
    match list {
        Some(v) => Some(texts(v@)),
        None => None,
    }
}

/// Parses `link` with `url::Url::parse` and collects what `path_segments`
/// yields. The outer `None` comes exactly when the link is refused; the
/// segments themselves are only named.
#[verifier::external_body]
fn read_path_segments(link: &str) -> (out: Option<Option<Vec<String>>>)
    ensures
        out is Some <==> url_parses(link@),
        out matches Some(found) ==> optional_texts(found) == url_path_segments(link@),
{
    match url::Url::parse(link) {
        Ok(u) => Some(u.path_segments().map(|parts| parts.map(|s| s.to_string()).collect())),
        Err(_) => None,
    }
}

/// Parses `link` with `url::Url::parse` and copies what `host_str` yields.
/// The outer `None` comes exactly when the link is refused; the host itself
/// is only named.
#[verifier::external_body]
fn read_host(link: &str) -> (out: Option<Option<String>>)
    ensures
        out is Some <==> url_parses(link@),
        out matches Some(found) ==> text_view(found) == url_host(link@),
{
    match url::Url::parse(link) {
        Ok(u) => Some(u.host_str().map(|h| h.to_string())),
        Err(_) => None,
    }
}

/// What a link tells about its path.
pub enum LinkPath {
    /// The text is no URL.
    Unparsable,
    /// The URL has no hierarchical path.
    Opaque,
    /// The segments of the URL's path.
    Segments(Vec<String>),
}

/// The path of `link` as the `url` crate reads it.
pub open spec fn link_path(link: Seq<char>) -> Option<Option<Seq<Seq<char>>>> {
    if url_parses(link) {
        Some(url_path_segments(link))
    } else {
        None
    }
}

/// Reads the path of `link`.
pub fn path_of(link: &str) -> (out: LinkPath)
    ensures
        match out {
            LinkPath::Unparsable => link_path(link@) is None,
            LinkPath::Opaque => link_path(link@) == Some(None::<Seq<Seq<char>>>),
            LinkPath::Segments(v) => link_path(link@) == Some(Some(texts(v@))),
        },
{
    match read_path_segments(link) {
        None => LinkPath::Unparsable,
        Some(None) => LinkPath::Opaque,
        Some(Some(v)) => LinkPath::Segments(v),
    }
}

/// Tests whether `link` is a URL.
pub fn is_url(link: &str) -> (ok: bool)
    ensures
        ok == url_parses(link@),
{
    match read_path_segments(link) {
        Some(_) => true,
        None => false,
    }
}

/// The host of `link`, where it is a URL that has one.
pub open spec fn link_host(link: Seq<char>) -> Option<Seq<char>> {
    if url_parses(link) {
        url_host(link)
    } else {
        None
    }
}

/// Reads the host of `link`.
pub fn host_of(link: &str) -> (out: Option<String>)
    ensures
        text_view(out) == link_host(link@),
{
    match read_host(link) {
        Some(found) => found,
        None => None,
    }
}

} // verus!
