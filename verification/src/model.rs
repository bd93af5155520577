//! The records the engine works on.

use crate::instant::Timestamp;
use crate::text::text_view;
use vstd::prelude::*;

verus! {

/// A registration: one source feed kept in sync with one destination.
#[derive(Clone, Debug)]
pub struct Feed {
    pub id: i64,
    pub guild_id: i64,
    pub channel_id: i64,
    pub url: String,
    pub title: Option<String>,
    pub webhook_url: Option<String>,
    pub last_updated: String,
    /// The watermark: the marker of the newest entry published so far.
    pub last_item_date: Option<String>,
}

/// The channel a community receives its feeds in.
#[derive(Clone, Debug)]
pub struct GuildSettings {
    pub guild_id: i64,
    pub rss_channel_id: i64,
}

/// One entry of a fetched feed.
#[derive(Clone, Debug)]
pub struct ParsedEntry {
    /// The identifier the feed gives the entry; may be empty.
    pub id: String,
    /// The first link of the entry.
    pub link: Option<String>,
    pub title: Option<String>,
    pub summary: Option<String>,
    /// The body of the entry's content.
    pub content: Option<String>,
    pub published: Option<Timestamp>,
    pub updated: Option<Timestamp>,
}

/// A fetched feed.
#[derive(Clone, Debug)]
pub struct ParsedFeed {
    pub title: Option<String>,
    pub entries: Vec<ParsedEntry>,
}

/// What an entry holds, as mathematical values.
pub struct EntryView {
    pub id: Seq<char>,
    pub link: Option<Seq<char>>,
    pub title: Option<Seq<char>>,
    pub summary: Option<Seq<char>>,
    pub content: Option<Seq<char>>,
    pub published: Option<Timestamp>,
    pub updated: Option<Timestamp>,
}

impl EntryView {
    /// The effective date: the publication date, else the date of the last
    /// update.
    pub open spec fn effective_date(self) -> Option<Timestamp> {
        if self.published is Some {
            self.published
        } else {
            self.updated
        }
    }

    /// The marker of the effective date.
    pub open spec fn marker(self) -> Option<Seq<char>> {
        match self.effective_date() {
            Some(t) => t.marker_text(),
            None => None,
        }
    }
}

impl View for ParsedEntry {
    type V = EntryView;

    open spec fn view(&self) -> EntryView {
        EntryView {
            id: self.id@,
            link: text_view(self.link),
            title: text_view(self.title),
            summary: text_view(self.summary),
            content: text_view(self.content),
            published: self.published,
            updated: self.updated,
        }
    }
}

impl ParsedEntry {
    /// The effective date of the entry.
    pub fn effective_date(&self) -> (out: Option<Timestamp>)
        ensures
            out == self@.effective_date(),
    {
        match self.published {
            Some(t) => Some(t),
            None => self.updated,
        }
    }

    /// The marker of the entry's effective date.
    pub fn marker(&self) -> (out: Option<String>)
        ensures
            text_view(out) == self@.marker(),
    {
        match self.effective_date() {
            Some(t) => t.marker(),
            None => None,
        }
    }
}

/// The views of a feed's entries, in feed order.
pub open spec fn entry_views(entries: Seq<ParsedEntry>) -> Seq<EntryView> {
    entries.map_values(|e: ParsedEntry| e@)
}

} // verus!
