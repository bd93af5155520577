//! Publisher: what is shown for an entry, and how often delivery is tried.
//!
//! The delivery itself is the caller's business. This module makes the
//! payload, and it decides after each attempt whether another one follows.

use crate::instant::Timestamp;
use crate::link::{host_of, link_host};
use crate::model::{EntryView, Feed, ParsedEntry};
use crate::normalizer::{
    clean, cleaned, description, shown_description, shown_title, title, truncate, truncated,
};
use crate::pattern::{capture_all, captured_all, group_texts};
use crate::run::Delivery;
use crate::text::{
    chars_of, contains_text, has_infix, has_prefix, lowercased, matches_at, text_view,
};
use vstd::prelude::*;

verus! {

/// An image element; the address of the image is capture group 1.
pub const IMAGE: &'static str = r#"<img[^>]+src=["']([^"']+)["'][^>]*>"#;

/// How long a shown title may be.
pub const TITLE_LIMIT: usize = 256;

/// The colour of the payload's side bar.
pub const ACCENT: u32 = 0x5865f2;

/// What stands below a payload whose feed has neither title nor host.
pub const PLAIN_FOOTER: &'static str = "RSS Feed";

/// Whether an address looks like that of an image: in lower case it holds
/// the ending of an image file, or the word `image` or `img`.
pub open spec fn looks_like_image(url: Seq<char>) -> bool {
    let lower = lowercased(url);
    ||| has_infix(lower, ".jpg"@)
    ||| has_infix(lower, ".jpeg"@)
    ||| has_infix(lower, ".png"@)
    ||| has_infix(lower, ".gif"@)
    ||| has_infix(lower, ".webp"@)
    ||| has_infix(lower, ".bmp"@)
    ||| has_infix(lower, ".svg"@)
    ||| has_infix(lower, "image"@)
    ||| has_infix(lower, "img"@)
}

/// Tests whether `text` holds `word`.
fn holds(text: &Vec<char>, word: &str) -> (found: bool)
    ensures
        found == has_infix(text@, word@),
{
    contains_text(text, &chars_of(word))
}

/// Tests whether `url` looks like the address of an image.
pub fn validate_image_url(url: &str) -> (ok: bool)
    ensures
        ok == looks_like_image(url@),
{
    let lower = chars_of(url.to_lowercase().as_str());
    holds(&lower, ".jpg") || holds(&lower, ".jpeg") || holds(&lower, ".png") || holds(
        &lower,
        ".gif",
    ) || holds(&lower, ".webp") || holds(&lower, ".bmp") || holds(&lower, ".svg") || holds(
        &lower,
        "image",
    ) || holds(&lower, "img")
}

/// Whether an address can stand for the image of an entry: it begins with
/// `http` and looks like an image.
pub open spec fn fits_as_image(url: Seq<char>) -> bool {
    has_prefix(url, "http"@) && looks_like_image(url)
}

/// The first of `found` that is there and fits as an image.
pub open spec fn first_image(found: Seq<Option<Seq<char>>>) -> Option<Seq<char>>
    decreases found.len(),
{
    if found.len() == 0 {
        None
    } else if found[0] is Some && fits_as_image(found[0]->0) {
        found[0]
    } else {
        first_image(found.drop_first())
    }
}

/// The image that a piece of markup shows: the address of its first image
/// element whose address begins with `http` and looks like an image.
pub open spec fn image_in(html: Seq<char>) -> Option<Seq<char>> {
    first_image(captured_all(IMAGE@, html, 1))
}

/// Tests whether `url` fits as an image.
fn fits(url: &str) -> (ok: bool)
    ensures
        ok == fits_as_image(url@),
{
    matches_at(&chars_of(url), &chars_of("http"), 0) && validate_image_url(url)
}

/// Finds the image that `html` shows.
pub fn extract_image_from_html(html: &str) -> (out: Option<String>)
    ensures
        text_view(out) == image_in(html@),
{
    let found = capture_all(IMAGE, html, 1);
    let ghost all = group_texts(found@);
    let mut k: usize = 0;
    assert(all.skip(0) =~= all);
    while k < found.len()
        invariant
            k <= found.len(),
            all == group_texts(found@),
            all == captured_all(IMAGE@, html@, 1),
            first_image(all) == first_image(all.skip(k as int)),
        decreases found.len() - k,
    {
        assert(all.skip(k as int).drop_first() =~= all.skip(k + 1));
        assert(all.skip(k as int)[0] == text_view(found@[k as int]));
        match &found[k] {
            Some(url) => {
                if fits(url.as_str()) {
                    return Some(url.clone());
                }
            },
            None => {},
        }
        k += 1;
    }
    None
}

/// The image of an entry: that of its content, else that of its summary.
pub open spec fn image_of(e: EntryView) -> Option<Seq<char>> {
    let from_content = match e.content {
        Some(c) => image_in(c),
        None => None,
    };
    if from_content is Some {
        from_content
    } else {
        match e.summary {
            Some(s) => image_in(s),
            None => None,
        }
    }
}

/// Finds the image of `entry`.
pub fn extract_image(entry: &ParsedEntry) -> (out: Option<String>)
    ensures
        text_view(out) == image_of(entry@),
{
    match &entry.content {
        Some(c) => {
            match extract_image_from_html(c.as_str()) {
                Some(url) => {
                    return Some(url);
                },
                None => {},
            }
        },
        None => {},
    }
    match &entry.summary {
        Some(s) => extract_image_from_html(s.as_str()),
        None => None,
    }
}

/// What stands below a payload: the feed's title as plain text, else the
/// host of the feed's address, else a plain note.
pub open spec fn footer_of(title: Option<Seq<char>>, url: Seq<char>) -> Seq<char> {
    match title {
        Some(t) => cleaned(t),
        None => match link_host(url) {
            Some(h) => h,
            None => PLAIN_FOOTER@,
        },
    }
}

/// Makes the footer for the entries of `feed`.
pub fn footer(feed: &Feed) -> (out: String)
    ensures
        out@ == footer_of(text_view(feed.title), feed.url@),
{
    match &feed.title {
        Some(t) => clean(t.as_str()),
        None => match host_of(feed.url.as_str()) {
            Some(h) => h,
            None => PLAIN_FOOTER.to_owned(),
        },
    }
}

/// What is shown for an entry.
#[derive(Debug)]
pub struct Payload {
    pub title: String,
    pub description: String,
    pub link: Option<String>,
    pub timestamp: Option<Timestamp>,
    pub image: Option<String>,
    pub footer: String,
    pub color: u32,
}

/// A payload as mathematical values.
pub struct PayloadView {
    pub title: Seq<char>,
    pub description: Seq<char>,
    pub link: Option<Seq<char>>,
    pub timestamp: Option<Timestamp>,
    pub image: Option<Seq<char>>,
    pub footer: Seq<char>,
    pub color: u32,
}

impl View for Payload {
    type V = PayloadView;

    open spec fn view(&self) -> PayloadView {
        PayloadView {
            title: self.title@,
            description: self.description@,
            link: text_view(self.link),
            timestamp: self.timestamp,
            image: text_view(self.image),
            footer: self.footer@,
            color: self.color,
        }
    }
}

/// The payload for an entry of a feed with this title and address: the
/// shown title within its limit, the shown description, the entry's link,
/// effective date and image, and the feed's footer.
pub open spec fn composed(
    feed_title: Option<Seq<char>>,
    feed_url: Seq<char>,
    e: EntryView,
) -> PayloadView {
    PayloadView {
        title: truncated(shown_title(e), TITLE_LIMIT as nat),
        description: shown_description(e),
        link: e.link,
        timestamp: e.effective_date(),
        image: image_of(e),
        footer: footer_of(feed_title, feed_url),
        color: ACCENT,
    }
}

/// Makes the payload for `entry` of `feed`.
pub fn compose(feed: &Feed, entry: &ParsedEntry) -> (out: Payload)
    ensures
        out@ == composed(text_view(feed.title), feed.url@, entry@),
{
    let shown = title(entry);
    Payload {
        title: truncate(shown.as_str(), TITLE_LIMIT),
        description: description(entry),
        link: match &entry.link {
            Some(l) => Some(l.clone()),
            None => None,
        },
        timestamp: entry.effective_date(),
        image: extract_image(entry),
        footer: footer(feed),
        color: ACCENT,
    }
}

/// Where the entries of a feed are delivered.
#[derive(Debug)]
pub enum Destination {
    /// The post goes to the channel with this identifier.
    Channel(i64),
    /// The post goes to the managed delivery endpoint at this address.
    Endpoint(String),
}

/// A destination as mathematical values.
pub enum DestinationView {
    Channel(i64),
    Endpoint(Seq<char>),
}

impl View for Destination {
    type V = DestinationView;

    open spec fn view(&self) -> DestinationView {
        match self {
            Destination::Channel(id) => DestinationView::Channel(*id),
            Destination::Endpoint(url) => DestinationView::Endpoint(url@),
        }
    }
}

/// The destination of a registration: its delivery endpoint where it has
/// one, else its channel.
pub open spec fn destination_of(channel_id: i64, endpoint: Option<Seq<char>>) -> DestinationView {
    match endpoint {
        Some(url) => DestinationView::Endpoint(url),
        None => DestinationView::Channel(channel_id),
    }
}

/// Says where the entries of `feed` are delivered.
pub fn destination(feed: &Feed) -> (out: Destination)
    ensures
        out@ == destination_of(feed.channel_id, text_view(feed.webhook_url)),
{
    match &feed.webhook_url {
        Some(url) => Destination::Endpoint(url.clone()),
        None => Destination::Channel(feed.channel_id),
    }
}

/// How many milliseconds pass between two posts to one destination.
pub const PUBLISH_PAUSE_MILLIS: u64 = 250;

/// What follows an attempt at delivery.
#[derive(Clone, Copy, Debug, PartialEq, Eq, Structural)]
pub enum Verdict {
    /// The entry is delivered.
    Done,
    /// The attempt failed; another one follows at once.
    Retry,
    /// The attempt failed and no other follows: the publication has failed.
    GiveUp,
}

/// How often delivery is tried.
#[derive(Clone, Copy, Debug, PartialEq, Eq, Structural)]
pub struct RetryPolicy {
    /// How many attempts are made at most.
    pub max_attempts: u32,
}

/// What follows the attempt number `made`, counted from 1, under a policy of
/// at most `max` attempts.
pub open spec fn verdict_after(max: u32, made: nat, succeeded: bool) -> Verdict {
    if succeeded {
        Verdict::Done
    } else if made < max {
        Verdict::Retry
    } else {
        Verdict::GiveUp
    }
}

impl RetryPolicy {
    /// The policy of one immediate retry.
    pub fn once() -> (out: RetryPolicy)
        ensures
            out.max_attempts == 2,
    {
        RetryPolicy { max_attempts: 2 }
    }
}

/// The attempts at delivering one entry.
pub struct Attempts {
    policy: RetryPolicy,
    made: u32,
}

impl Attempts {
    /// How many attempts have been made.
    pub closed spec fn made(&self) -> nat {
        self.made as nat
    }

    /// The policy the attempts go by.
    pub closed spec fn policy(&self) -> RetryPolicy {
        self.policy
    }

    /// No attempt has been made yet.
    pub fn new(policy: RetryPolicy) -> (out: Attempts)
        ensures
            out.made() == 0,
            out.policy() == policy,
    {
        Attempts { policy, made: 0 }
    }

    /// Takes note of one more attempt and says what follows it. The count
    /// stops at the greatest number it can hold.
    pub fn record(&mut self, succeeded: bool) -> (verdict: Verdict)
        ensures
            final(self).policy() == old(self).policy(),
            final(self).made() == if old(self).made() < u32::MAX {
                old(self).made() + 1
            } else {
                old(self).made()
            },
            verdict == verdict_after(
                old(self).policy().max_attempts,
                final(self).made(),
                succeeded,
            ),
    {
        if self.made < u32::MAX {
            self.made = self.made + 1;
        }
        if succeeded {
            Verdict::Done
        } else if self.made < self.policy.max_attempts {
            Verdict::Retry
        } else {
            Verdict::GiveUp
        }
    }
}

/// What a refused delivery means for the run: where the destination says
/// that it does not exist or may not be written to, it is lost; any other
/// refusal, and a failure without an answer, concerns the entry alone.
pub open spec fn failure_kind(status: Option<u16>) -> Delivery {
    if status == Some(403u16) || status == Some(404u16) {
        Delivery::DestinationLost
    } else {
        Delivery::Failed
    }
}

/// Judges a delivery that failed, by the status of the destination's answer
/// where there was one.
pub fn judge_failure(status: Option<u16>) -> (out: Delivery)
    ensures
        out == failure_kind(status),
        out != Delivery::Delivered,
{
    match status {
        Some(code) => {
            if code == 403 || code == 404 {
                Delivery::DestinationLost
            } else {
                Delivery::Failed
            }
        },
        None => Delivery::Failed,
    }
}

/// Delivery is tried a bounded number of times: a retry is only asked for
/// while fewer attempts have been made than the policy allows.
pub proof fn retries_are_bounded(max: u32, made: nat, succeeded: bool)
    ensures
        verdict_after(max, made, succeeded) == Verdict::Retry ==> made < max,
        made >= max ==> verdict_after(max, made, succeeded) != Verdict::Retry,
{
}

} // verus!
