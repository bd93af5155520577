//! Paging of a list of registrations: how many pages there are, what a page
//! holds, and where a request to turn the page leads.

use crate::text::{chars_of, text_of};
use vstd::prelude::*;

verus! {

/// How many registrations one page shows.
pub const FEEDS_PER_PAGE: usize = 10;

/// How many pages a menu offers at once.
pub const MENU_PAGES: usize = 10;

/// How many pages `feeds` registrations fill.
pub open spec fn page_count(feeds: int) -> int {
    (feeds + FEEDS_PER_PAGE - 1) / (FEEDS_PER_PAGE as int)
}

/// Counts the pages that `feeds` registrations fill.
pub fn total_pages(feeds: usize) -> (pages: usize)
    ensures
        pages == page_count(feeds as int),
{
    if feeds % FEEDS_PER_PAGE == 0 {
        feeds / FEEDS_PER_PAGE
    } else {
        feeds / FEEDS_PER_PAGE + 1
    }
}

/// The positions that page `page` shows, as a half-open range: ten from its
/// start, as far as there are registrations. A page beyond the last is empty.
pub open spec fn page_range(page: int, feeds: int) -> (int, int) {
    let start = if page * FEEDS_PER_PAGE < feeds {
        page * FEEDS_PER_PAGE
    } else {
        feeds
    };
    let end = if start + FEEDS_PER_PAGE < feeds {
        start + FEEDS_PER_PAGE
    } else {
        feeds
    };
    (start, end)
}

/// Says which positions page `page` shows.
pub fn page_bounds(page: usize, feeds: usize) -> (out: (usize, usize))
    ensures
        out.0 == page_range(page as int, feeds as int).0,
        out.1 == page_range(page as int, feeds as int).1,
        out.0 <= out.1 <= feeds,
        out.1 - out.0 <= FEEDS_PER_PAGE,
{
    let start = if page < feeds / FEEDS_PER_PAGE + 1 && page * FEEDS_PER_PAGE < feeds {
        page * FEEDS_PER_PAGE
    } else {
        feeds
    };
    let end = if feeds - start > FEEDS_PER_PAGE {
        start + FEEDS_PER_PAGE
    } else {
        feeds
    };
    (start, end)
}

/// The page before `page`; the first page stays.
pub fn previous_page(page: usize) -> (out: usize)
    ensures
        out == if page == 0 {
            0
        } else {
            page - 1
        },
{
    if page == 0 {
        0
    } else {
        page - 1
    }
}

/// The page after `page` among `pages` pages; the last page stays, and
/// without pages the answer is the first.
pub fn next_page(page: usize, pages: usize) -> (out: usize)
    ensures
        out == if pages == 0 {
            0
        } else if page + 1 < pages {
            page + 1
        } else {
            pages - 1
        },
{
    if pages == 0 {
        0
    } else if page < pages - 1 {
        page + 1
    } else {
        pages - 1
    }
}

/// Tests whether `page` is the last of `pages` pages, or lies beyond it.
pub fn is_last_page(page: usize, pages: usize) -> (last: bool)
    ensures
        last == (page + 1 >= pages),
{
    pages == 0 || page >= pages - 1
}

/// The pages a menu offers around `page`, as a half-open range: it starts
/// four pages before `page`, or at the first page, and offers ten pages as
/// far as there are pages.
pub open spec fn menu_range(page: int, pages: int) -> (int, int) {
    let start = if page < 5 {
        0
    } else {
        page - 4
    };
    let end = if start + MENU_PAGES < pages {
        start + MENU_PAGES
    } else {
        pages
    };
    (start, end)
}

/// Says which pages a menu offers around `page`.
pub fn menu_window(page: usize, pages: usize) -> (out: (usize, usize))
    ensures
        out.0 == menu_range(page as int, pages as int).0,
        out.1 == menu_range(page as int, pages as int).1,
{
    let start = if page < 5 {
        0
    } else {
        page - 4
    };
    let end = if start < pages && pages - start > MENU_PAGES {
        start + MENU_PAGES
    } else {
        pages
    };
    (start, end)
}

/// The value of a decimal digit, if `c` is one.
pub open spec fn digit_value(c: char) -> Option<nat> {
    if '0' <= c <= '9' {
        Some((c as u32 - '0' as u32) as nat)
    } else {
        None
    }
}

/// The number that the digits `s` write; `None` where a character is no
/// digit. The empty text writes zero.
pub open spec fn digits_value(s: Seq<char>) -> Option<nat>
    decreases s.len(),
{
    if s.len() == 0 {
        Some(0)
    } else {
        match (digits_value(s.drop_last()), digit_value(s.last())) {
            (Some(front), Some(d)) => Some(front * 10 + d),
            _ => None,
        }
    }
}

/// The number that `s` writes: decimal digits, at least one, with an
/// optional plus sign before them.
pub open spec fn numeral_value(s: Seq<char>) -> Option<nat> {
    let digits = if s.len() > 0 && s[0] == '+' {
        s.skip(1)
    } else {
        s
    };
    if digits.len() == 0 {
        None
    } else {
        digits_value(digits)
    }
}

/// A prefix of digits writes a number that is not greater than what the
/// whole text writes.
proof fn digits_value_grows(s: Seq<char>, k: int)
    requires
        0 <= k <= s.len(),
        digits_value(s) is Some,
    ensures
        digits_value(s.take(k)) is Some,
        digits_value(s.take(k))->0 <= digits_value(s)->0,
    decreases s.len() - k,
{
    if k < s.len() {
        digits_value_grows(s, k + 1);
        assert(s.take(k + 1).drop_last() =~= s.take(k));
    } else {
        assert(s.take(k) =~= s);
    }
}

/// A text with a character that is no digit writes no number.
proof fn digits_value_needs_digits(s: Seq<char>, k: int)
    requires
        0 <= k < s.len(),
        digit_value(s[k]) is None,
    ensures
        digits_value(s) is None,
    decreases s.len(),
{
    if k < s.len() - 1 {
        digits_value_needs_digits(s.drop_last(), k);
    }
}

/// Reads the number that `v[from..]` writes, if it fits.
fn read_number(v: &Vec<char>, from: usize) -> (out: Option<usize>)
    requires
        from <= v.len(),
    ensures
        out matches Some(n) ==> digits_value(v@.skip(from as int)) == Some(n as nat),
        out is None ==> (digits_value(v@.skip(from as int)) matches Some(n) ==> n > usize::MAX),
{
    let ghost s = v@.skip(from as int);
    let mut value: usize = 0;
    let mut i: usize = from;
    while i < v.len()
        invariant
            from <= i <= v.len(),
            s == v@.skip(from as int),
            digits_value(s.take(i - from)) == Some(value as nat),
        decreases v.len() - i,
    {
        let c = v[i];
        proof {
            assert(s.take(i - from + 1).drop_last() =~= s.take(i - from));
        }
        if c < '0' || c > '9' {
            proof {
                digits_value_needs_digits(s, i - from);
            }
            return None;
        }
        let d: usize = (c as u32 - '0' as u32) as usize;
        if value > (usize::MAX - d) / 10 {
            proof {
                if digits_value(s) is Some {
                    digits_value_grows(s, i - from + 1);
                }
            }
            return None;
        }
        value = value * 10 + d;
        i += 1;
    }
    assert(s.take(i - from) =~= s);
    Some(value)
}

/// Reads the number that `text` writes, if it writes one that fits.
pub fn parse_number(text: &str) -> (out: Option<usize>)
    ensures
        out matches Some(n) ==> numeral_value(text@) == Some(n as nat),
        out is None ==> (numeral_value(text@) matches Some(n) ==> n > usize::MAX),
{
    let v = chars_of(text);
    let from: usize = if v.len() > 0 && v[0] == '+' {
        1
    } else {
        0
    };
    if from == v.len() {
        return None;
    }
    assert(from == 0 ==> v@.skip(0) =~= v@);
    read_number(&v, from)
}

/// The position of the first `c` in `s`, or the length of `s` where there
/// is none.
pub open spec fn first_position(s: Seq<char>, c: char) -> int
    decreases s.len(),
{
    if s.len() == 0 || s[0] == c {
        0
    } else {
        1 + first_position(s.drop_first(), c)
    }
}

/// The part of `s` between its first and its second underscore, or behind
/// its first where there is no second; `None` where there is no underscore.
pub open spec fn second_field(s: Seq<char>) -> Option<Seq<char>> {
    let first = first_position(s, '_');
    if first >= s.len() {
        None
    } else {
        let rest = s.skip(first + 1);
        Some(rest.take(first_position(rest, '_')))
    }
}

/// The position of the first `c` in `v[from..]`, counted from the start of
/// `v`, or the length of `v`.
fn find_from(v: &Vec<char>, from: usize, c: char) -> (at: usize)
    requires
        from <= v.len(),
    ensures
        from <= at <= v.len(),
        at == from + first_position(v@.skip(from as int), c),
{
    let mut at: usize = from;
    while at < v.len() && v[at] != c
        invariant
            from <= at <= v.len(),
            first_position(v@.skip(from as int), c) == (at - from) + first_position(
                v@.skip(at as int),
                c,
            ),
        decreases v.len() - at,
    {
        proof {
            assert(v@.skip(at as int).drop_first() =~= v@.skip(at + 1));
        }
        at += 1;
    }
    at
}

/// The page that the identifier of a button names: the number in its second
/// field, and the first page where there is none.
pub open spec fn page_named(id: Seq<char>) -> nat {
    match second_field(id) {
        Some(field) => match numeral_value(field) {
            Some(n) => if n <= usize::MAX {
                n
            } else {
                0
            },
            None => 0,
        },
        None => 0,
    }
}

/// Reads the page that the identifier of a button names.
pub fn extract_page_from_custom_id(custom_id: &str) -> (page: usize)
    ensures
        page == page_named(custom_id@),
{
    let v = chars_of(custom_id);
    assert(v@.skip(0) =~= v@);
    let first = find_from(&v, 0, '_');
    if first == v.len() {
        return 0;
    }
    let second = find_from(&v, first + 1, '_');
    let mut field: Vec<char> = Vec::new();
    let mut i: usize = first + 1;
    while i < second
        invariant
            first < i <= second <= v.len(),
            field@ == v@.subrange(first + 1, i as int),
        decreases second - i,
    {
        field.push(v[i]);
        i += 1;
    }
    assert(field@ =~= v@.skip(first + 1).take(second - first - 1));
    let text = text_of(&field);
    match parse_number(text.as_str()) {
        Some(n) => n,
        None => 0,
    }
}

/// The page that someone asks for by its number, counted from 1: the page
/// with that number if there is one.
pub open spec fn page_asked(input: Seq<char>, pages: nat) -> Option<nat> {
    match numeral_value(input) {
        Some(n) => if 0 < n <= pages {
            Some((n - 1) as nat)
        } else {
            None
        },
        None => None,
    }
}

/// Reads the page that `input` asks for among `pages` pages.
pub fn jump_target(input: &str, pages: usize) -> (out: Option<usize>)
    ensures
        (match out {
            Some(p) => Some(p as nat),
            None => None,
        }) == page_asked(input@, pages as nat),
{
    match parse_number(input) {
        Some(n) => {
            if n > 0 && n <= pages {
                Some(n - 1)
            } else {
                None
            }
        },
        None => None,
    }
}

/// The page that someone picks from a menu by its number, counted from 1:
/// the page with that number, the last page for a greater number, and the
/// first page for zero or where there are no pages.
pub open spec fn page_picked(input: Seq<char>, pages: int) -> Option<int> {
    match numeral_value(input) {
        Some(n) => if n > usize::MAX {
            None
        } else if n == 0 || pages == 0 {
            Some(0)
        } else if n <= pages {
            Some(n - 1)
        } else {
            Some(pages - 1)
        },
        None => None,
    }
}

/// Reads the page that `input` picks among `pages` pages.
pub fn select_target(input: &str, pages: usize) -> (out: Option<usize>)
    ensures
        (match out {
            Some(p) => Some(p as int),
            None => None,
        }) == page_picked(input@, pages as int),
{
    match parse_number(input) {
        Some(n) => {
            if n == 0 || pages == 0 {
                Some(0)
            } else if n <= pages {
                Some(n - 1)
            } else {
                Some(pages - 1)
            }
        },
        None => None,
    }
}

} // verus!
