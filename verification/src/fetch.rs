//! The rules of the fetch client: which responses are taken and how much of
//! them. The transport itself is the caller's business.

use crate::text::{append_chars, chars_of, decimal, decimal_digits, text_of};
use vstd::prelude::*;

verus! {

/// The greatest payload that is taken, in bytes.
pub const MAX_FEED_BYTES: u64 = 5_000_000;

/// How many seconds one fetch may take.
pub const FETCH_TIMEOUT_SECS: u64 = 15;

/// How many seconds the check of one feed may take.
pub const FEED_TIMEOUT_SECS: u64 = 45;

/// Why a feed could not be fetched.
#[derive(Clone, Copy, Debug, PartialEq, Eq, Structural)]
pub enum FetchError {
    /// The source could not be reached.
    Unreachable,
    /// The source did not answer in time.
    Timeout,
    /// The source answered with this status, which is no success.
    Http(u16),
    /// The payload is larger than what is taken.
    TooLarge,
}

/// Whether `status` is a success status.
pub open spec fn is_success(status: u16) -> bool {
    200 <= status < 300
}

/// The judgement on the head of a response: a status that is no success is
/// an error, and so is a declared length beyond the limit.
pub open spec fn head_verdict(status: u16, declared: Option<u64>) -> Result<(), FetchError> {
    if !is_success(status) {
        Err(FetchError::Http(status))
    } else if declared is Some && declared->0 > MAX_FEED_BYTES {
        Err(FetchError::TooLarge)
    } else {
        Ok(())
    }
}

/// Judges the head of a response by its status and, where the source
/// declares one, its content length.
pub fn check_head(status: u16, declared: Option<u64>) -> (out: Result<(), FetchError>)
    ensures
        out == head_verdict(status, declared),
{
    if status < 200 || status >= 300 {
        return Err(FetchError::Http(status));
    }
    match declared {
        Some(n) => {
            if n > MAX_FEED_BYTES {
                Err(FetchError::TooLarge)
            } else {
                Ok(())
            }
        },
        None => Ok(()),
    }
}

/// How much of a payload has been read.
pub struct Intake {
    received: u64,
}

impl Intake {
    /// The number of bytes read so far.
    pub closed spec fn received(&self) -> nat {
        self.received as nat
    }

    /// No more has been read than is taken.
    pub open spec fn wf(&self) -> bool {
        self.received() <= MAX_FEED_BYTES
    }

    /// Nothing has been read yet.
    pub fn new() -> (out: Intake)
        ensures
            out.wf(),
            out.received() == 0,
    {
        Intake { received: 0 }
    }

    /// Takes note of `count` more bytes. Once the payload has outgrown the
    /// limit the answer is `TooLarge`, whatever the source declared, and the
    /// count stays where it was.
    pub fn accept(&mut self, count: usize) -> (out: Result<(), FetchError>)
        requires
            old(self).wf(),
        ensures
            final(self).wf(),
            old(self).received() + count <= MAX_FEED_BYTES ==> out is Ok && final(self).received()
                == old(self).received() + count,
            old(self).received() + count > MAX_FEED_BYTES ==> out == Err::<(), FetchError>(
                FetchError::TooLarge,
            ) && final(self).received() == old(self).received(),
    {
        let room: u64 = MAX_FEED_BYTES - self.received;
        if count as u64 > room {
            Err(FetchError::TooLarge)
        } else {
            self.received = self.received + count as u64;
            Ok(())
        }
    }
}

/// The words for a fetch error.
pub open spec fn fetch_error_text(e: FetchError) -> Seq<char> {
    match e {
        FetchError::Unreachable => "Unable to reach the URL"@,
        FetchError::Timeout => "Timeout fetching feed"@,
        FetchError::Http(status) => "HTTP "@ + decimal(status as nat),
        FetchError::TooLarge => "Feed too large"@,
    }
}

impl FetchError {
    /// Says in words what went wrong.
    pub fn message(&self) -> (out: String)
        ensures
            out@ == fetch_error_text(*self),
    {
        match self {
            FetchError::Unreachable => "Unable to reach the URL".to_owned(),
            FetchError::Timeout => "Timeout fetching feed".to_owned(),
            FetchError::Http(status) => {
                let mut v = chars_of("HTTP ");
                let digits = decimal_digits(*status as u64);
                append_chars(&mut v, &digits);
                text_of(&v)
            },
            FetchError::TooLarge => "Feed too large".to_owned(),
        }
    }
}

} // verus!
