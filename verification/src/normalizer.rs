//! Content normaliser: turns markup found in feeds into plain text and
//! shortens text at a natural boundary.

use crate::entity::{dereference, dereferenced};
use crate::model::{EntryView, ParsedEntry};
use crate::pattern::{rewrite, rewritten};
use crate::text::{
    chars_of, find_last, is_single_spaced, last_position, last_position_is_last, replace_all,
    replaced, squeeze, squeezed, text_of, trim, trimmed,
};
use vstd::prelude::*;

verus! {

/// A CDATA section, over line breaks too; its content is capture group 1.
pub const CDATA: &'static str = r"(?s)<!\[CDATA\[(.*?)\]\]>";

/// A script element with everything inside it.
pub const SCRIPT: &'static str = r"(?is)<script[^>]*>.*?</script>";

/// A style element with everything inside it.
pub const STYLE: &'static str = r"(?is)<style[^>]*>.*?</style>";

/// Any single tag.
pub const TAG: &'static str = r"<[^>]*>";

/// A run of white space.
pub const BLANKS: &'static str = r"\s+";

/// A rich-text object of a content management system.
pub const RICH_TEXT: &'static str =
    r"<wagtail[^>]*>.*?</wagtail>|<wagtail\.rich_text\.RichText[^>]*>";

/// A dumped structure value, alone or inside a dumped list.
pub const STRUCT_VALUE: &'static str =
    r"<ListValue:\s*\[StructValue\([^)]*\)\]>|StructValue\([^)]*\)";

/// The marker of an aside block with the tag that follows it.
pub const ASIDE_BLOCK: &'static str = r"aside_block\s+<[^>]*>";

/// A printed object reference.
pub const OBJECT_REFERENCE: &'static str = r"<[^>]*object at 0x[a-fA-F0-9]+>";

/// A decimal character reference that stands for no character.
pub const NUMERIC_ENTITY: &'static str = r"&#\d+;";

/// An ellipsis character in square brackets.
pub const BRACKETED_ELLIPSIS: &'static str = r"\[\u{2026}\]";

/// Three dots in square brackets.
pub const BRACKETED_DOTS: &'static str = r"\[\.\.\.\]";

/// A "Read More..." teaser up to the end of the text.
pub const READ_MORE: &'static str = r"Read More\.\.\..*$";

/// A "Continue reading" teaser up to the end of the text.
pub const CONTINUE_READING: &'static str = r"Continue reading.*$";

/// A "Click here" teaser up to the end of the text.
pub const CLICK_HERE: &'static str = r"Click here.*$";

/// A "More info" teaser up to the end of the text.
pub const MORE_INFO: &'static str = r"More info.*$";

/// Three dots at the end of the text, with the white space around them.
pub const TRAILING_DOTS: &'static str = r"\s*\.\.\.\s*$";

/// A dash at the start of the text, with the white space around it.
pub const LEADING_DASH: &'static str = r"^\s*-\s*";

/// An asterisk at the start of the text, with the white space around it.
pub const LEADING_STAR: &'static str = r"^\s*\*\s*";

/// A dumped dictionary: braces that hold a quoted key.
pub const DICT_DUMP: &'static str = r"\{'[^']*'[^}]*\}";

/// A dumped tuple: parentheses that hold a quoted item.
pub const TUPLE_DUMP: &'static str = r"\([^)]*'[^']*'[^)]*\)";

/// A word cut off as "an..." at the end of the text.
pub const CUT_ARTICLE: &'static str = r"an\.\.\.$";

/// A tag whose text mentions a dumped value.
pub const VALUE_TAG: &'static str = r"<[^>]*Value[^>]*>";

/// A bare object address.
pub const OBJECT_ADDRESS: &'static str = r"object at 0x[a-fA-F0-9]+";

/// `s` with `pattern` removed wherever it matches.
pub open spec fn erased(pattern: Seq<char>, s: Seq<char>) -> Seq<char> {
    rewritten(pattern, s, ""@)
}

/// Markup removal: CDATA sections unwrapped, script and style elements
/// removed with their content, then every remaining tag removed.
pub open spec fn stripped(s: Seq<char>) -> Seq<char> {
    erased(TAG@, erased(STYLE@, erased(SCRIPT@, rewritten(CDATA@, s, "$1"@))))
}

/// Removes markup from `input`.
pub fn strip(input: &str) -> (out: String)
    ensures
        out@ == stripped(input@),
{
    let text = rewrite(CDATA, input.to_owned(), "$1");
    let text = rewrite(SCRIPT, text, "");
    let text = rewrite(STYLE, text, "");
    rewrite(TAG, text, "")
}

/// Removal of what publishing templates leak into feeds: rich-text objects,
/// structure dumps, aside markers, object references, and the decimal
/// character references that are left because they stand for no character.
pub open spec fn without_artifacts(s: Seq<char>) -> Seq<char> {
    erased(
        NUMERIC_ENTITY@,
        erased(
            OBJECT_REFERENCE@,
            erased(ASIDE_BLOCK@, erased(STRUCT_VALUE@, erased(RICH_TEXT@, s))),
        ),
    )
}

/// Removes template artifacts from `input`.
pub fn artifacts(input: &str) -> (out: String)
    ensures
        out@ == without_artifacts(input@),
{
    let text = rewrite(RICH_TEXT, input.to_owned(), "");
    let text = rewrite(STRUCT_VALUE, text, "");
    let text = rewrite(ASIDE_BLOCK, text, "");
    let text = rewrite(OBJECT_REFERENCE, text, "");
    rewrite(NUMERIC_ENTITY, text, "")
}

/// The table of entities: each known character reference, in this order,
/// gives way to the character it stands for. Later rules see the output of
/// earlier ones.
pub open spec fn named_decoded(s: Seq<char>) -> Seq<char> {
    let s = replaced(s, "&amp;"@, "&"@);
    let s = replaced(s, "&lt;"@, "<"@);
    let s = replaced(s, "&gt;"@, ">"@);
    let s = replaced(s, "&quot;"@, "\""@);
    let s = replaced(s, "&apos;"@, "'"@);
    let s = replaced(s, "&nbsp;"@, " "@);
    let s = replaced(s, "&#39;"@, "'"@);
    let s = replaced(s, "&#x27;"@, "'"@);
    let s = replaced(s, "&#x2F;"@, "/"@);
    let s = replaced(s, "&#8220;"@, "\u{201C}"@);
    let s = replaced(s, "&#8221;"@, "\u{201D}"@);
    let s = replaced(s, "&#8217;"@, "\u{2019}"@);
    let s = replaced(s, "&#8211;"@, "\u{2013}"@);
    let s = replaced(s, "&#8212;"@, "\u{2014}"@);
    let s = replaced(s, "&#8230;"@, "\u{2026}"@);
    let s = replaced(s, "&mdash;"@, "\u{2014}"@);
    let s = replaced(s, "&ndash;"@, "\u{2013}"@);
    let s = replaced(s, "&ldquo;"@, "\u{201C}"@);
    let s = replaced(s, "&rdquo;"@, "\u{201D}"@);
    let s = replaced(s, "&lsquo;"@, "\u{2018}"@);
    let s = replaced(s, "&rsquo;"@, "\u{2019}"@);
    let s = replaced(s, "&hellip;"@, "\u{2026}"@);
    let s = replaced(s, "&#160;"@, " "@);
    let s = replaced(s, "&#8594;"@, "\u{2192}"@);
    let s = replaced(s, "&#8592;"@, "\u{2190}"@);
    let s = replaced(s, "&#8593;"@, "\u{2191}"@);
    let s = replaced(s, "&#8595;"@, "\u{2193}"@);
    s
}

/// Entity decoding: first the table of entities, then every numeric
/// character reference that is left gives way to the character with that
/// code point.
pub open spec fn decoded(s: Seq<char>) -> Seq<char> {
    dereferenced(named_decoded(s))
}

/// Replaces every `from` in `text` by `to`.
fn swap(text: Vec<char>, from: &str, to: &str) -> (out: Vec<char>)
    ensures
        out@ == replaced(text@, from@, to@),
{
    let from = chars_of(from);
    let to = chars_of(to);
    replace_all(&text, &from, &to)
}

/// Decodes the known character references in `input`.
pub fn decode(input: &str) -> (out: String)
    ensures
        out@ == decoded(input@),
{
    let s = chars_of(input);
    let s = swap(s, "&amp;", "&");
    let s = swap(s, "&lt;", "<");
    let s = swap(s, "&gt;", ">");
    let s = swap(s, "&quot;", "\"");
    let s = swap(s, "&apos;", "'");
    let s = swap(s, "&nbsp;", " ");
    let s = swap(s, "&#39;", "'");
    let s = swap(s, "&#x27;", "'");
    let s = swap(s, "&#x2F;", "/");
    let s = swap(s, "&#8220;", "\u{201C}");
    let s = swap(s, "&#8221;", "\u{201D}");
    let s = swap(s, "&#8217;", "\u{2019}");
    let s = swap(s, "&#8211;", "\u{2013}");
    let s = swap(s, "&#8212;", "\u{2014}");
    let s = swap(s, "&#8230;", "\u{2026}");
    let s = swap(s, "&mdash;", "\u{2014}");
    let s = swap(s, "&ndash;", "\u{2013}");
    let s = swap(s, "&ldquo;", "\u{201C}");
    let s = swap(s, "&rdquo;", "\u{201D}");
    let s = swap(s, "&lsquo;", "\u{2018}");
    let s = swap(s, "&rsquo;", "\u{2019}");
    let s = swap(s, "&hellip;", "\u{2026}");
    let s = swap(s, "&#160;", " ");
    let s = swap(s, "&#8594;", "\u{2192}");
    let s = swap(s, "&#8592;", "\u{2190}");
    let s = swap(s, "&#8593;", "\u{2191}");
    let s = swap(s, "&#8595;", "\u{2193}");
    text_of(&dereference(&s))
}

/// White-space normalisation: the text is trimmed and every run of white
/// space inside it becomes one space.
pub open spec fn normalized(s: Seq<char>) -> Seq<char> {
    rewritten(BLANKS@, trimmed(s), " "@)
}

/// Trims `input` and collapses its white space.
pub fn normalize(input: &str) -> (out: String)
    ensures
        out@ == normalized(input@),
{
    let bare = trim(&chars_of(input));
    rewrite(BLANKS, text_of(&bare), " ")
}

/// Removal of editorial leftovers: bracketed ellipses, "read more" teasers
/// up to the end of the text, trailing dots, leading list bullets, dumped
/// dictionaries and tuples, value tags and object addresses, in this order.
pub open spec fn formatted(s: Seq<char>) -> Seq<char> {
    let s = erased(BRACKETED_ELLIPSIS@, s);
    let s = erased(BRACKETED_DOTS@, s);
    let s = erased(READ_MORE@, s);
    let s = erased(CONTINUE_READING@, s);
    let s = erased(CLICK_HERE@, s);
    let s = erased(MORE_INFO@, s);
    let s = erased(TRAILING_DOTS@, s);
    let s = erased(LEADING_DASH@, s);
    let s = erased(LEADING_STAR@, s);
    let s = erased(DICT_DUMP@, s);
    let s = erased(TUPLE_DUMP@, s);
    let s = erased(CUT_ARTICLE@, s);
    let s = erased(VALUE_TAG@, s);
    let s = erased(OBJECT_ADDRESS@, s);
    s
}

/// Removes editorial leftovers from `input`.
pub fn format(input: &str) -> (out: String)
    ensures
        out@ == formatted(input@),
{
    let s = rewrite(BRACKETED_ELLIPSIS, input.to_owned(), "");
    let s = rewrite(BRACKETED_DOTS, s, "");
    let s = rewrite(READ_MORE, s, "");
    let s = rewrite(CONTINUE_READING, s, "");
    let s = rewrite(CLICK_HERE, s, "");
    let s = rewrite(MORE_INFO, s, "");
    let s = rewrite(TRAILING_DOTS, s, "");
    let s = rewrite(LEADING_DASH, s, "");
    let s = rewrite(LEADING_STAR, s, "");
    let s = rewrite(DICT_DUMP, s, "");
    let s = rewrite(TUPLE_DUMP, s, "");
    let s = rewrite(CUT_ARTICLE, s, "");
    let s = rewrite(VALUE_TAG, s, "");
    rewrite(OBJECT_ADDRESS, s, "")
}

/// The plain text of `s`: markup stripped, entities decoded, artifacts and
/// editorial leftovers removed, and at the end every run of white space
/// turned into one space and the ends freed of it. The empty text stays
/// empty.
pub open spec fn cleaned(s: Seq<char>) -> Seq<char> {
    if s.len() == 0 {
        s
    } else {
        squeezed(formatted(normalized(without_artifacts(decoded(stripped(s))))))
    }
}

/// Turns feed markup into plain text. Whatever the markup, the white space
/// of the result is single: no run of it, none at the ends, and none but
/// plain spaces.
pub fn clean(input: &str) -> (out: String)
    ensures
        out@ == cleaned(input@),
        is_single_spaced(out@),
{
    if input.is_empty() {
        return String::new();
    }
    let text = strip(input);
    let text = decode(text.as_str());
    let text = artifacts(text.as_str());
    let text = normalize(text.as_str());
    let text = format(text.as_str());
    text_of(&squeeze(&chars_of(text.as_str())))
}

/// The character put where text was cut off.
pub const ELLIPSIS: char = '\u{2026}';

/// Three quarters of `max`, rounded down: a boundary counts only beyond it.
pub open spec fn boundary_floor(max: nat) -> nat {
    max * 3 / 4
}

/// The last full stop among the first `max` characters of `s`, or `-1`.
pub open spec fn last_full_stop(s: Seq<char>, max: nat) -> int {
    last_position(s, max as int, seq!['.'])
}

/// The last space among the first `max` characters of `s`, or `-1`.
pub open spec fn last_gap(s: Seq<char>, max: nat) -> int {
    last_position(s, max as int, seq![' '])
}

/// The last punctuation mark among the first `max - 1` characters of `s`,
/// or `-1`: a mark counts only where the ellipsis still fits behind it.
pub open spec fn last_mark(s: Seq<char>, max: nat) -> int {
    last_position(s, max - 1, seq!['.', '!', '?', ',', ';'])
}

/// `s` shortened for display within `max` characters, the ellipsis
/// included.
///
/// A text that fits is returned as it is. Otherwise the first `max`
/// characters are searched for a boundary beyond three quarters of `max`:
/// the last full stop (the text ends with it), else the last space (the
/// text before it, then an ellipsis), else the last punctuation mark that
/// leaves room for the ellipsis (the text up to it, then an ellipsis).
/// Where there is none, the first `max - 1` characters are followed by an
/// ellipsis. Within no characters at all nothing is left, not even the
/// ellipsis.
pub open spec fn truncated(s: Seq<char>, max: nat) -> Seq<char> {
    if s.len() <= max {
        s
    } else if max == 0 {
        Seq::empty()
    } else if last_full_stop(s, max) > boundary_floor(max) {
        s.take(last_full_stop(s, max) + 1)
    } else if last_gap(s, max) > boundary_floor(max) {
        s.take(last_gap(s, max)).push(ELLIPSIS)
    } else if last_mark(s, max) > boundary_floor(max) {
        s.take(last_mark(s, max) + 1).push(ELLIPSIS)
    } else {
        s.take(max - 1).push(ELLIPSIS)
    }
}

/// The first `n` characters of `v`, followed by `last`.
fn cut(v: &Vec<char>, n: usize, last: char) -> (out: Vec<char>)
    requires
        n <= v.len(),
    ensures
        out@ == v@.take(n as int).push(last),
{
    let mut out: Vec<char> = Vec::new();
    let mut i: usize = 0;
    while i < n
        invariant
            i <= n <= v.len(),
            out@ == v@.take(i as int),
        decreases n - i,
    {
        out.push(v[i]);
        i += 1;
    }
    out.push(last);
    out
}

/// Shortens `text` to at most `max_length` characters, at a sentence, word
/// or punctuation boundary where one lies in the last quarter.
pub fn truncate(text: &str, max_length: usize) -> (out: String)
    ensures
        out@ == truncated(text@, max_length as nat),
        out@.len() <= max_length,
{
    let v = chars_of(text);
    if v.len() <= max_length {
        return text.to_owned();
    }
    if max_length == 0 {
        return String::new();
    }
    proof {
        truncation_boundary(v@, max_length as nat);
    }
    let floor: usize = max_length / 4 * 3 + (max_length % 4) * 3 / 4;
    let stops: Vec<char> = vec!['.'];
    let gaps: Vec<char> = vec![' '];
    let marks: Vec<char> = vec!['.', '!', '?', ',', ';'];
    proof {
        assert(stops@ =~= seq!['.']);
        assert(gaps@ =~= seq![' ']);
        last_position_is_last(v@, max_length as int, stops@);
        last_position_is_last(v@, max_length as int, gaps@);
        last_position_is_last(v@, max_length - 1, marks@);
    }
    if let Some(at) = find_last(&v, max_length, &stops) {
        if at > floor {
            return text_of(&cut(&v, at, '.'));
        }
    }
    if let Some(at) = find_last(&v, max_length, &gaps) {
        if at > floor {
            return text_of(&cut(&v, at, ELLIPSIS));
        }
    }
    if let Some(at) = find_last(&v, max_length - 1, &marks) {
        if at > floor {
            return text_of(&cut(&v, at + 1, ELLIPSIS));
        }
    }
    text_of(&cut(&v, max_length - 1, ELLIPSIS))
}

/// A shortened text never exceeds the limit, the ellipsis included.
///
/// A text within the limit comes back unchanged. A longer text with a full
/// stop in the last quarter of the limit is cut right after that full stop.
/// Any other longer text is a prefix of the text followed by an ellipsis,
/// as long as the limit leaves room for a character at all.
pub proof fn truncation_boundary(s: Seq<char>, max: nat)
    ensures
        s.len() <= max ==> truncated(s, max) == s,
        truncated(s, max).len() <= max,
        s.len() > max > 0 && last_full_stop(s, max) > boundary_floor(max) ==> {
            &&& truncated(s, max).last() == '.'
            &&& truncated(s, max) == s.take(truncated(s, max).len() as int)
        },
        s.len() > max > 0 && !(last_full_stop(s, max) > boundary_floor(max)) ==> {
            &&& truncated(s, max).last() == ELLIPSIS
            &&& truncated(s, max).drop_last() == s.take(truncated(s, max).len() - 1)
        },
{
    if s.len() > max > 0 {
        last_position_is_last(s, max as int, seq!['.']);
        last_position_is_last(s, max as int, seq![' ']);
        last_position_is_last(s, max - 1, seq!['.', '!', '?', ',', ';']);
    }
}

/// The title shown for an entry: its title as plain text, or `Untitled`.
pub open spec fn shown_title(e: EntryView) -> Seq<char> {
    match e.title {
        Some(t) => cleaned(t),
        None => "Untitled"@,
    }
}

/// The title to show for `entry`.
pub fn title(entry: &ParsedEntry) -> (out: String)
    ensures
        out@ == shown_title(entry@),
{
    match &entry.title {
        Some(t) => clean(t.as_str()),
        None => "Untitled".to_owned(),
    }
}

/// How long a description may be.
pub const DESCRIPTION_LIMIT: usize = 1800;

/// A boundary in a description counts only beyond this place.
pub const DESCRIPTION_FLOOR: usize = 1400;

/// How much of a description is kept where it has no boundary.
pub const DESCRIPTION_CUT: usize = 1797;

/// A description shortened for display: one within the limit stays; a
/// longer one ends with the last full stop within the limit if that lies
/// beyond the floor, else before the last space if that lies beyond the
/// floor, else after the cut, in both cases with an ellipsis.
pub open spec fn abridged(s: Seq<char>) -> Seq<char> {
    if s.len() <= DESCRIPTION_LIMIT {
        s
    } else if last_full_stop(s, DESCRIPTION_LIMIT as nat) > DESCRIPTION_FLOOR {
        s.take(last_full_stop(s, DESCRIPTION_LIMIT as nat) + 1)
    } else if last_gap(s, DESCRIPTION_LIMIT as nat) > DESCRIPTION_FLOOR {
        s.take(last_gap(s, DESCRIPTION_LIMIT as nat)).push(ELLIPSIS)
    } else {
        s.take(DESCRIPTION_CUT as int).push(ELLIPSIS)
    }
}

/// The text an entry is described by: its summary as plain text, else its
/// content as plain text, else a note that there is none.
pub open spec fn described_by(e: EntryView) -> Seq<char> {
    match e.summary {
        Some(s) => cleaned(s),
        None => match e.content {
            Some(c) => cleaned(c),
            None => "No description available."@,
        },
    }
}

/// The description shown for an entry.
pub open spec fn shown_description(e: EntryView) -> Seq<char> {
    abridged(described_by(e))
}

/// The description to show for `entry`.
pub fn description(entry: &ParsedEntry) -> (out: String)
    ensures
        out@ == shown_description(entry@),
{
    let full = match &entry.summary {
        Some(s) => clean(s.as_str()),
        None => match &entry.content {
            Some(c) => clean(c.as_str()),
            None => "No description available.".to_owned(),
        },
    };
    let v = chars_of(full.as_str());
    if v.len() <= DESCRIPTION_LIMIT {
        return full;
    }
    let stops: Vec<char> = vec!['.'];
    let gaps: Vec<char> = vec![' '];
    proof {
        assert(stops@ =~= seq!['.']);
        assert(gaps@ =~= seq![' ']);
        last_position_is_last(v@, DESCRIPTION_LIMIT as int, stops@);
        last_position_is_last(v@, DESCRIPTION_LIMIT as int, gaps@);
    }
    if let Some(at) = find_last(&v, DESCRIPTION_LIMIT, &stops) {
        if at > DESCRIPTION_FLOOR {
            return text_of(&cut(&v, at, '.'));
        }
    }
    if let Some(at) = find_last(&v, DESCRIPTION_LIMIT, &gaps) {
        if at > DESCRIPTION_FLOOR {
            return text_of(&cut(&v, at, ELLIPSIS));
        }
    }
    text_of(&cut(&v, DESCRIPTION_CUT, ELLIPSIS))
}

/// A shown description has at most as many characters as the limit allows.
pub proof fn description_is_bounded(s: Seq<char>)
    ensures
        abridged(s).len() <= DESCRIPTION_LIMIT,
{
    if s.len() > DESCRIPTION_LIMIT {
        last_position_is_last(s, DESCRIPTION_LIMIT as int, seq!['.']);
        last_position_is_last(s, DESCRIPTION_LIMIT as int, seq![' ']);
    }
}

} // verus!
