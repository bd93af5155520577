//! Entry fingerprints: the keys by which an entry is recognised again.
//!
//! A fingerprint is the decimal text of a hash over what identifies the
//! entry: its title reduced to significant words, the path of its link, its
//! identifier and the day of its effective date. An entry that has none of
//! these is hashed over its raw texts, and one that has no text at all gets a
//! fingerprint made from the instant at which it is seen, which the caller
//! reads from the clock.

use crate::link::{link_path, path_of, LinkPath};
use crate::model::{EntryView, ParsedEntry};
use crate::text::{
    append_chars, chars_of, decimal, decimal_digits, is_space, is_space_char, join, joined, lines,
    lowercased, signed_decimal, signed_decimal_digits, text_of, text_view, to_lines, trim, trimmed,
};
use std::collections::hash_map::DefaultHasher;
use std::hash::Hasher;
use vstd::prelude::*;
use vstd::std_specs::hash::DefaultHasherAdditionalSpecFns;
use vstd::utf8::encode_utf8;

verus! {

/// The characters that separate words in a title besides white space.
pub open spec fn is_title_separator(c: char) -> bool {
    ||| c == '\n'
    ||| c == '\r'
    ||| c == '\t'
    ||| c == ':'
    ||| c == '!'
    ||| c == '?'
    ||| c == '.'
    ||| c == ','
    ||| c == ';'
    ||| c == '-'
    ||| c == '\u{2013}'
    ||| c == '\u{2014}'
}

/// `s` with every title separator turned into a space.
pub open spec fn unpunctuated(s: Seq<char>) -> Seq<char> {
    s.map_values(
        |c: char|
            if is_title_separator(c) {
                ' '
            } else {
                c
            },
    )
}

/// Turns every title separator in `v` into a space.
pub fn unpunctuate(v: &Vec<char>) -> (out: Vec<char>)
    ensures
        out@ == unpunctuated(v@),
{
    let mut out: Vec<char> = Vec::new();
    let mut i: usize = 0;
    while i < v.len()
        invariant
            i <= v.len(),
            out@ == unpunctuated(v@.take(i as int)),
        decreases v.len() - i,
    {
        let c = v[i];
        let separator = c == '\n' || c == '\r' || c == '\t' || c == ':' || c == '!' || c == '?'
            || c == '.' || c == ',' || c == ';' || c == '-' || c == '\u{2013}' || c == '\u{2014}';
        if separator {
            out.push(' ');
        } else {
            out.push(c);
        }
        i += 1;
    }
    out
}

/// A word counts when its UTF-8 encoding takes more than two bytes.
pub open spec fn is_significant(word: Seq<char>) -> bool {
    encode_utf8(word).len() > 2
}

/// The word `word` if it counts, as a list of at most one word.
pub open spec fn closing(word: Seq<char>) -> Seq<Seq<char>> {
    if is_significant(word) {
        seq![word]
    } else {
        Seq::empty()
    }
}

/// The significant words of `current + s`, where `current` is a word that
/// has begun: words are the maximal runs without white space.
pub open spec fn words_from(s: Seq<char>, current: Seq<char>) -> Seq<Seq<char>>
    decreases s.len(),
{
    if s.len() == 0 {
        closing(current)
    } else if is_space(s[0]) {
        closing(current) + words_from(s.drop_first(), Seq::empty())
    } else {
        words_from(s.drop_first(), current.push(s[0]))
    }
}

/// The significant words of `s`, in order.
pub open spec fn significant_words(s: Seq<char>) -> Seq<Seq<char>> {
    words_from(s, Seq::empty())
}

/// Adds `word` to `out` if it counts.
fn close_word(out: &mut Vec<Vec<char>>, word: Vec<char>)
    ensures
        lines(final(out)@) == lines(old(out)@) + closing(word@),
{
    let text = text_of(&word);
    if text.as_str().as_bytes().len() > 2 {
        out.push(word);
    }
}

/// Splits `v` at white space and keeps the significant words.
pub fn split_words(v: &Vec<char>) -> (out: Vec<Vec<char>>)
    ensures
        lines(out@) == significant_words(v@),
{
    let mut out: Vec<Vec<char>> = Vec::new();
    let mut current: Vec<char> = Vec::new();
    let mut i: usize = 0;
    assert(v@.skip(0) =~= v@);
    while i < v.len()
        invariant
            i <= v.len(),
            significant_words(v@) == lines(out@) + words_from(v@.skip(i as int), current@),
        decreases v.len() - i,
    {
        let ghost before = lines(out@);
        let ghost word = current@;
        assert(v@.skip(i as int).drop_first() =~= v@.skip(i + 1));
        if is_space_char(v[i]) {
            close_word(&mut out, current);
            current = Vec::new();
            proof {
                let rest = words_from(v@.skip(i + 1), Seq::empty());
                assert(before + (closing(word) + rest) =~= (before + closing(word)) + rest);
            }
        } else {
            current.push(v[i]);
        }
        i += 1;
    }
    close_word(&mut out, current);
    out
}

/// The hash of `text`: what the standard hasher returns after the bytes of
/// the text and the end mark `0xff` have been written to it.
pub open spec fn digest(text: Seq<char>) -> u64 {
    DefaultHasher::spec_finish(seq![encode_utf8(text), seq![0xffu8]])
}

/// Hashes `text` with the standard hasher.
pub fn hash_text(text: &str) -> (h: u64)
    ensures
        h == digest(text@),
{
    let mut hasher = DefaultHasher::new();
    hasher.write(text.as_bytes());
    let mut end: Vec<u8> = Vec::new();
    end.push(0xff);
    hasher.write(end.as_slice());
    assert(hasher@ =~= seq![encode_utf8(text@), seq![0xffu8]]);
    hasher.finish()
}

/// The key of a title: trimmed, lowercased, separators turned into spaces,
/// and the significant words joined by single spaces.
pub open spec fn title_key(title: Seq<char>) -> Seq<char> {
    joined(significant_words(unpunctuated(lowercased(trimmed(title)))), " "@)
}

/// Computes the key of `title`.
pub fn normalize_title(title: &str) -> (out: Vec<char>)
    ensures
        out@ == title_key(title@),
{
    let bare = text_of(&trim(&chars_of(title)));
    let lower = bare.as_str().to_lowercase();
    let spaced = unpunctuate(&chars_of(lower.as_str()));
    let words = split_words(&spaced);
    join(&words, &chars_of(" "))
}

/// What the title contributes: its key, unless that is empty.
pub open spec fn title_part(e: EntryView) -> Seq<Seq<char>> {
    match e.title {
        Some(t) => if title_key(t).len() > 0 {
            seq![title_key(t)]
        } else {
            Seq::empty()
        },
        None => Seq::empty(),
    }
}

/// What the link contributes: the segments of its path joined by slashes
/// where it is a URL with a path, nothing where it is a URL without one,
/// and the link itself where it is no URL.
pub open spec fn link_part(e: EntryView) -> Seq<Seq<char>> {
    match e.link {
        Some(l) => match link_path(l) {
            Some(Some(segments)) => if segments.len() > 0 {
                seq![joined(segments, "/"@)]
            } else {
                Seq::empty()
            },
            Some(None) => Seq::empty(),
            None => seq![l],
        },
        None => Seq::empty(),
    }
}

/// What the identifier contributes: itself, unless it is empty.
pub open spec fn id_part(e: EntryView) -> Seq<Seq<char>> {
    if e.id.len() > 0 {
        seq![e.id]
    } else {
        Seq::empty()
    }
}

/// What the effective date contributes: its calendar day.
pub open spec fn day_part(e: EntryView) -> Seq<Seq<char>> {
    match e.effective_date() {
        Some(t) => match t.day_text() {
            Some(d) => seq![d],
            None => Seq::empty(),
        },
        None => Seq::empty(),
    }
}

/// What identifies an entry: title key, link path, identifier and day, each
/// where it is there, in this order.
pub open spec fn primary_parts(e: EntryView) -> Seq<Seq<char>> {
    title_part(e) + link_part(e) + id_part(e) + day_part(e)
}

/// The list that holds `o` if it is there.
pub open spec fn present(o: Option<Seq<char>>) -> Seq<Seq<char>> {
    match o {
        Some(s) => seq![s],
        None => Seq::empty(),
    }
}

/// The raw texts of an entry: title, summary and link, each where it is
/// there, in this order.
pub open spec fn fallback_parts(e: EntryView) -> Seq<Seq<char>> {
    present(e.title) + present(e.summary) + present(e.link)
}

/// Whether the entry holds anything a fingerprint can be derived from.
pub open spec fn is_determined(e: EntryView) -> bool {
    primary_parts(e).len() > 0 || fallback_parts(e).len() > 0
}

/// The fingerprint over `parts`: the decimal numeral of the hash of the
/// parts joined by `|`.
pub open spec fn hashed(parts: Seq<Seq<char>>) -> Seq<char> {
    decimal(digest(joined(parts, "|"@)) as nat)
}

/// The fingerprint of an entry that is seen at the instant `now`, given in
/// nanoseconds. Only an entry that is not determined depends on the instant.
pub open spec fn fingerprint(e: EntryView, now: int) -> Seq<char> {
    if primary_parts(e).len() > 0 {
        hashed(primary_parts(e))
    } else if fallback_parts(e).len() > 0 {
        hashed(fallback_parts(e))
    } else {
        "entry_"@ + signed_decimal(now)
    }
}

/// Collects the parts that identify `entry`.
fn collect_primary(entry: &ParsedEntry) -> (parts: Vec<Vec<char>>)
    ensures
        lines(parts@) == primary_parts(entry@),
{
    let mut parts: Vec<Vec<char>> = Vec::new();
    match &entry.title {
        Some(t) => {
            let key = normalize_title(t.as_str());
            if key.len() > 0 {
                parts.push(key);
            }
        },
        None => {},
    }
    match &entry.link {
        Some(l) => {
            match path_of(l.as_str()) {
                LinkPath::Segments(segments) => {
                    if segments.len() > 0 {
                        let items = to_lines(&segments);
                        parts.push(join(&items, &chars_of("/")));
                    }
                },
                LinkPath::Opaque => {},
                LinkPath::Unparsable => {
                    parts.push(chars_of(l.as_str()));
                },
            }
        },
        None => {},
    }
    if !entry.id.as_str().is_empty() {
        parts.push(chars_of(entry.id.as_str()));
    }
    match entry.effective_date() {
        Some(t) => {
            match t.day() {
                Some(d) => {
                    parts.push(chars_of(d.as_str()));
                },
                None => {},
            }
        },
        None => {},
    }
    parts
}

/// Adds the characters of `o` to `parts` if it is there.
fn push_present(parts: &mut Vec<Vec<char>>, o: &Option<String>)
    ensures
        lines(final(parts)@) == lines(old(parts)@) + present(text_view(*o)),
{
    match o {
        Some(s) => {
            parts.push(chars_of(s.as_str()));
        },
        None => {
        },
    }
}

/// Collects the raw texts of `entry`.
fn collect_fallback(entry: &ParsedEntry) -> (parts: Vec<Vec<char>>)
    ensures
        lines(parts@) == fallback_parts(entry@),
{
    let mut parts: Vec<Vec<char>> = Vec::new();
    push_present(&mut parts, &entry.title);
    push_present(&mut parts, &entry.summary);
    push_present(&mut parts, &entry.link);
    parts
}

/// Hashes `parts` into a fingerprint.
fn hash_parts(parts: &Vec<Vec<char>>) -> (out: String)
    ensures
        out@ == hashed(lines(parts@)),
{
    let text = text_of(&join(parts, &chars_of("|")));
    text_of(&decimal_digits(hash_text(text.as_str())))
}

/// The fingerprint of a determined entry, and `None` for another.
pub fn stable_identifier(entry: &ParsedEntry) -> (out: Option<String>)
    ensures
        out is Some <==> is_determined(entry@),
        out matches Some(s) ==> forall|now: int| s@ == fingerprint(entry@, now),
{
    let primary = collect_primary(entry);
    if primary.len() > 0 {
        return Some(hash_parts(&primary));
    }
    let fallback = collect_fallback(entry);
    if fallback.len() > 0 {
        return Some(hash_parts(&fallback));
    }
    None
}

/// The fingerprint that stands for the instant `now`.
fn instant_identifier(now: i64) -> (out: String)
    ensures
        out@ == "entry_"@ + signed_decimal(now as int),
{
    let mut v = chars_of("entry_");
    let digits = signed_decimal_digits(now);
    append_chars(&mut v, &digits);
    text_of(&v)
}

/// The fingerprint of `entry` as seen at the instant `now`, a reading of
/// the clock in nanoseconds since the Unix epoch. Where the entry is
/// determined the reading does not matter; otherwise the fingerprint stands
/// for the reading.
pub fn identifier(entry: &ParsedEntry, now: i64) -> (out: String)
    ensures
        out@ == fingerprint(entry@, now as int),
{
    match stable_identifier(entry) {
        Some(s) => s,
        None => instant_identifier(now),
    }
}

} // verus!
