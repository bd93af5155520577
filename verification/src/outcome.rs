//! How the check of one feed ends, and the words for it.

use crate::cycle::FeedResult;
use crate::fetch::{fetch_error_text, FetchError};
use crate::text::{append_chars, chars_of, decimal, decimal_digits, text_of};
use vstd::prelude::*;

verus! {

/// The document is no feed that can be read.
#[derive(Clone, Debug)]
pub struct ParseError {
    /// What the parser says is wrong.
    pub reason: String,
}

/// Why the check of a feed failed.
#[derive(Clone, Debug)]
pub enum SyncError {
    /// No registration has this address.
    NotFound(String),
    /// The feed could not be fetched.
    Fetch(FetchError),
    /// The document is no feed that can be read.
    Parse(ParseError),
    /// The check as a whole took too long.
    Timeout,
    /// The registry could not be read; the text says why.
    Store(String),
}

/// The words for a failed check.
pub open spec fn sync_error_text(e: SyncError) -> Seq<char> {
    match e {
        SyncError::NotFound(url) => "Feed not found: "@ + url@,
        SyncError::Fetch(f) => fetch_error_text(f),
        SyncError::Parse(p) => p.reason@,
        SyncError::Timeout => "Timeout"@,
        SyncError::Store(reason) => reason@,
    }
}

/// Whether a check failed because time ran out, be it the check as a whole
/// or the fetch.
pub open spec fn ran_out_of_time(e: SyncError) -> bool {
    e is Timeout || (e matches SyncError::Fetch(f) && f == FetchError::Timeout)
}

impl SyncError {
    /// Says in words why the check failed.
    pub fn message(&self) -> (out: String)
        ensures
            out@ == sync_error_text(*self),
    {
        match self {
            SyncError::NotFound(url) => {
                let mut v = chars_of("Feed not found: ");
                let rest = chars_of(url.as_str());
                append_chars(&mut v, &rest);
                text_of(&v)
            },
            SyncError::Fetch(f) => f.message(),
            SyncError::Parse(p) => p.reason.clone(),
            SyncError::Timeout => "Timeout".to_owned(),
            SyncError::Store(reason) => reason.clone(),
        }
    }

    /// Tests whether the check failed because time ran out.
    pub fn is_timeout(&self) -> (r: bool)
        ensures
            r == ran_out_of_time(*self),
    {
        match self {
            SyncError::Timeout => true,
            SyncError::Fetch(f) => match f {
                FetchError::Timeout => true,
                _ => false,
            },
            _ => false,
        }
    }
}

/// How a check counts in the tally of its cycle.
pub open spec fn tallied(outcome: Result<u32, SyncError>) -> FeedResult {
    match outcome {
        Ok(n) => FeedResult::Success(n),
        Err(_) => FeedResult::Failure,
    }
}

/// Says how `outcome` counts in the tally of its cycle.
pub fn tally(outcome: &Result<u32, SyncError>) -> (out: FeedResult)
    ensures
        out == tallied(*outcome),
{
    match outcome {
        Ok(n) => FeedResult::Success(*n),
        Err(_) => FeedResult::Failure,
    }
}

/// The answer to someone who asked for the check of one feed.
pub open spec fn single_summary_text(outcome: Result<u32, SyncError>) -> Seq<char> {
    match outcome {
        Ok(n) => if n > 0 {
            "Synced feed and found "@ + decimal(n as nat) + " new items"@
        } else {
            "Synced feed, no new items found"@
        },
        Err(e) => "Failed to sync feed: "@ + sync_error_text(e),
    }
}

/// Words the answer to someone who asked for the check of one feed.
pub fn single_summary(outcome: &Result<u32, SyncError>) -> (out: String)
    ensures
        out@ == single_summary_text(*outcome),
{
    match outcome {
        Ok(n) => {
            if *n > 0 {
                let mut v = chars_of("Synced feed and found ");
                let digits = decimal_digits(*n as u64);
                append_chars(&mut v, &digits);
                let tail = chars_of(" new items");
                append_chars(&mut v, &tail);
                text_of(&v)
            } else {
                "Synced feed, no new items found".to_owned()
            }
        },
        Err(e) => {
            let mut v = chars_of("Failed to sync feed: ");
            let rest = chars_of(e.message().as_str());
            append_chars(&mut v, &rest);
            text_of(&v)
        },
    }
}

} // verus!
