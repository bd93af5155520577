//! The rules for taking a feed into the registry.

use crate::fetch::MAX_FEED_BYTES;
use crate::text::{chars_of, lowercased, replace_all, replaced, text_of};
use vstd::prelude::*;

verus! {

/// The greatest number of entries a feed may have to be registered.
pub const MAX_FEED_ITEMS: usize = 500;

/// Why a feed is not taken into the registry.
#[derive(Clone, Copy, Debug, PartialEq, Eq, Structural)]
pub enum Refusal {
    /// The document is larger than what is taken; so many bytes.
    TooLarge(usize),
    /// The feed has more entries than a registered feed may have; so many.
    TooManyItems(usize),
}

/// The judgement on the size of a document fetched for registration: it
/// must be within the payload limit.
pub open spec fn size_verdict(bytes: usize) -> Result<(), Refusal> {
    if bytes > MAX_FEED_BYTES {
        Err(Refusal::TooLarge(bytes))
    } else {
        Ok(())
    }
}

/// The judgement on the number of entries of a feed parsed for
/// registration: it must be within the entry limit.
pub open spec fn items_verdict(items: usize) -> Result<(), Refusal> {
    if items > MAX_FEED_ITEMS {
        Err(Refusal::TooManyItems(items))
    } else {
        Ok(())
    }
}

/// The judgement on a feed that was fetched and parsed for registration:
/// that on its size, and where the size is in order that on its entries.
pub open spec fn admission(bytes: usize, items: usize) -> Result<(), Refusal> {
    if size_verdict(bytes) is Err {
        size_verdict(bytes)
    } else {
        items_verdict(items)
    }
}

/// Judges the size of a document of `bytes` bytes. This comes before the
/// document is parsed.
pub fn judge_size(bytes: usize) -> (out: Result<(), Refusal>)
    ensures
        out == size_verdict(bytes),
{
    if bytes as u64 > MAX_FEED_BYTES {
        Err(Refusal::TooLarge(bytes))
    } else {
        Ok(())
    }
}

/// Judges the number of entries of a parsed feed.
pub fn judge_items(items: usize) -> (out: Result<(), Refusal>)
    ensures
        out == items_verdict(items),
{
    if items > MAX_FEED_ITEMS {
        Err(Refusal::TooManyItems(items))
    } else {
        Ok(())
    }
}

/// Judges a feed of `bytes` bytes and `items` entries for registration.
pub fn judge_feed(bytes: usize, items: usize) -> (out: Result<(), Refusal>)
    ensures
        out == admission(bytes, items),
{
    match judge_size(bytes) {
        Ok(()) => judge_items(items),
        Err(refusal) => Err(refusal),
    }
}

/// The name of the channel for a topic: the topic in lower case with a
/// hyphen for every space.
pub open spec fn channel_name_of(topic: Seq<char>) -> Seq<char> {
    replaced(lowercased(topic), " "@, "-"@)
}

/// Names the channel for `topic`.
pub fn channel_name(topic: &str) -> (out: String)
    ensures
        out@ == channel_name_of(topic@),
{
    let lower = topic.to_lowercase();
    text_of(&replace_all(&chars_of(lower.as_str()), &chars_of(" "), &chars_of("-")))
}

} // verus!
