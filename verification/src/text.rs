//! Character-sequence primitives shared by the rest of the crate.
//!
//! Texts are modelled as `Seq<char>`. Executable code converts a `&str` to a
//! `Vec<char>` once, works on that, and converts back at the end.

use vstd::math::min;
use vstd::prelude::*;
use vstd::string::StringSliceAdditionalSpecFns;
use vstd::utf8::encode_utf8;

verus! {

/// `String::push` appends exactly one character to the end of the string.
pub assume_specification[ String::push ](s: &mut String, c: char)
    ensures
        final(s)@ == old(s)@.push(c),
;

/// What `str::to_lowercase` returns: the lowercase form of `s` as Unicode
/// defines it.
pub uninterp spec fn lowercased(s: Seq<char>) -> Seq<char>;

/// `str::to_lowercase` returns the lowercase form of the text; the mapping
/// itself is only named.
pub assume_specification[ str::to_lowercase ](s: &str) -> (out: String)
    ensures
        out@ == lowercased(s@),
;

/// The characters of `s`, in order.
pub fn chars_of(s: &str) -> (out: Vec<char>)
    ensures
        out@ == s@,
{
    let mut out: Vec<char> = Vec::new();
    for c in it: s.chars()
        invariant
            it.seq() == s@,
            out@ == s@.take(it.index()),
    {
        out.push(c);
    }
    out
}

/// The string made of the characters of `v`, in order.
pub fn text_of(v: &Vec<char>) -> (out: String)
    ensures
        out@ == v@,
{
    let mut out = String::new();
    let mut i: usize = 0;
    while i < v.len()
        invariant
            i <= v.len(),
            out@ == v@.take(i as int),
        decreases v.len() - i,
    {
        out.push(v[i]);
        i += 1;
    }
    out
}

/// A copy of `v`.
pub fn copy_chars(v: &Vec<char>) -> (out: Vec<char>)
    ensures
        out@ == v@,
{
    let mut out: Vec<char> = Vec::new();
    let mut i: usize = 0;
    while i < v.len()
        invariant
            i <= v.len(),
            out@ == v@.take(i as int),
        decreases v.len() - i,
    {
        out.push(v[i]);
        i += 1;
    }
    out
}

/// Appends the characters of `tail` to `out`.
pub fn append_chars(out: &mut Vec<char>, tail: &Vec<char>)
    ensures
        final(out)@ == old(out)@ + tail@,
{
    let mut i: usize = 0;
    while i < tail.len()
        invariant
            i <= tail.len(),
            out@ == old(out)@ + tail@.take(i as int),
        decreases tail.len() - i,
    {
        out.push(tail[i]);
        i += 1;
    }
}

/// The code points that carry the Unicode `White_Space` property.
pub open spec fn is_space(c: char) -> bool {
    let n = c as u32;
    ||| 0x09 <= n <= 0x0D
    ||| n == 0x20
    ||| n == 0x85
    ||| n == 0xA0
    ||| n == 0x1680
    ||| 0x2000 <= n <= 0x200A
    ||| n == 0x2028
    ||| n == 0x2029
    ||| n == 0x202F
    ||| n == 0x205F
    ||| n == 0x3000
}

/// Whether `c` is a white-space character.
pub fn is_space_char(c: char) -> (b: bool)
    ensures
        b == is_space(c),
{
    let n: u32 = c as u32;
    (0x09 <= n && n <= 0x0D) || n == 0x20 || n == 0x85 || n == 0xA0 || n == 0x1680 || (0x2000 <= n
        && n <= 0x200A) || n == 0x2028 || n == 0x2029 || n == 0x202F || n == 0x205F || n == 0x3000
}

/// `s` without its leading white space.
pub open spec fn trimmed_start(s: Seq<char>) -> Seq<char>
    decreases s.len(),
{
    if s.len() > 0 && is_space(s[0]) {
        trimmed_start(s.drop_first())
    } else {
        s
    }
}

/// `s` without its trailing white space.
pub open spec fn trimmed_end(s: Seq<char>) -> Seq<char>
    decreases s.len(),
{
    if s.len() > 0 && is_space(s.last()) {
        trimmed_end(s.drop_last())
    } else {
        s
    }
}

/// `s` without leading and trailing white space.
pub open spec fn trimmed(s: Seq<char>) -> Seq<char> {
    trimmed_end(trimmed_start(s))
}

/// Removes leading and trailing white space.
pub fn trim(v: &Vec<char>) -> (out: Vec<char>)
    ensures
        out@ == trimmed(v@),
{
    let mut start: usize = 0;
    assert(v@.skip(0) =~= v@);
    while start < v.len() && is_space_char(v[start])
        invariant
            start <= v.len(),
            trimmed_start(v@) == trimmed_start(v@.skip(start as int)),
        decreases v.len() - start,
    {
        proof {
            assert(v@.skip(start as int).drop_first() =~= v@.skip(start as int + 1));
        }
        start += 1;
    }
    let mut out: Vec<char> = Vec::new();
    let mut i: usize = start;
    while i < v.len()
        invariant
            start <= i <= v.len(),
            out@ == v@.subrange(start as int, i as int),
        decreases v.len() - i,
    {
        out.push(v[i]);
        i += 1;
    }
    while out.len() > 0 && is_space_char(out[out.len() - 1])
        invariant
            trimmed(v@) == trimmed_end(out@),
        decreases out.len(),
    {
        out.pop();
    }
    out
}

/// `s` with every run of white space turned into one space, and without
/// white space at its start: a space is written only behind a character
/// that is none.
pub open spec fn collapsed(s: Seq<char>) -> Seq<char>
    decreases s.len(),
{
    if s.len() == 0 {
        Seq::empty()
    } else {
        let front = collapsed(s.drop_last());
        if !is_space(s.last()) {
            front.push(s.last())
        } else if front.len() > 0 && front.last() != ' ' {
            front.push(' ')
        } else {
            front
        }
    }
}

/// `s` with every run of white space turned into one space, and without
/// white space at its ends.
pub open spec fn squeezed(s: Seq<char>) -> Seq<char> {
    let t = collapsed(s);
    if t.len() > 0 && t.last() == ' ' {
        t.drop_last()
    } else {
        t
    }
}

/// Whether the white space of `t` is single: every white-space character
/// is a plain space that stands between two characters that are no white
/// space. Such a text neither begins nor ends with white space.
pub open spec fn is_single_spaced(t: Seq<char>) -> bool {
    forall|i: int|
        0 <= i < t.len() && is_space(#[trigger] t[i]) ==> {
            &&& t[i] == ' '
            &&& 0 < i < t.len() - 1
            &&& !is_space(t[i - 1])
            &&& !is_space(t[i + 1])
        }
}

/// In a collapsed text every white-space character is a plain space behind
/// a character that is none.
pub proof fn collapsed_has_single_spaces(s: Seq<char>)
    ensures
        forall|i: int|
            0 <= i < collapsed(s).len() && is_space(#[trigger] collapsed(s)[i]) ==> collapsed(
                s,
            )[i] == ' ' && i > 0 && !is_space(collapsed(s)[i - 1]),
    decreases s.len(),
{
    if s.len() > 0 {
        collapsed_has_single_spaces(s.drop_last());
        let front = collapsed(s.drop_last());
        let t = collapsed(s);
        assert forall|i: int| 0 <= i < t.len() && is_space(#[trigger] t[i]) implies t[i] == ' '
            && i > 0 && !is_space(t[i - 1]) by {
            if i < front.len() {
                assert(t[i] == front[i]);
                assert(is_space(front[i]));
            } else {
                assert(front.len() > 0 && front.last() != ' ');
                assert(!is_space(front[front.len() - 1]));
            }
        }
    }
}

/// A squeezed text is single-spaced.
pub proof fn squeezed_is_single_spaced(s: Seq<char>)
    ensures
        is_single_spaced(squeezed(s)),
{
    collapsed_has_single_spaces(s);
    let t = collapsed(s);
    let out = squeezed(s);
    assert forall|i: int| 0 <= i < out.len() && is_space(#[trigger] out[i]) implies out[i] == ' '
        && 0 < i < out.len() - 1 && !is_space(out[i - 1]) && !is_space(out[i + 1]) by {
        assert(out[i] == t[i]);
        assert(is_space(t[i]));
        if i + 1 < t.len() && is_space(t[i + 1]) {
            assert(!is_space(t[i]));
        }
    }
}

/// Turns every run of white space into one space and removes white space
/// at the ends.
pub fn squeeze(v: &Vec<char>) -> (out: Vec<char>)
    ensures
        out@ == squeezed(v@),
        is_single_spaced(out@),
{
    let mut out: Vec<char> = Vec::new();
    let mut i: usize = 0;
    while i < v.len()
        invariant
            i <= v.len(),
            out@ == collapsed(v@.take(i as int)),
        decreases v.len() - i,
    {
        assert(v@.take(i + 1).drop_last() =~= v@.take(i as int));
        if !is_space_char(v[i]) {
            out.push(v[i]);
        } else if out.len() > 0 && out[out.len() - 1] != ' ' {
            out.push(' ');
        }
        i += 1;
    }
    assert(v@.take(v.len() as int) =~= v@);
    if out.len() > 0 && out[out.len() - 1] == ' ' {
        out.pop();
    }
    proof {
        squeezed_is_single_spaced(v@);
    }
    out
}

/// Whether `pat` occurs in `s` starting at position `at`.
pub open spec fn occurs_at(s: Seq<char>, pat: Seq<char>, at: int) -> bool {
    &&& 0 <= at
    &&& at + pat.len() <= s.len()
    &&& s.subrange(at, at + pat.len()) == pat
}

/// Tests whether `pat` occurs in `v` at position `at`.
pub fn matches_at(v: &Vec<char>, pat: &Vec<char>, at: usize) -> (b: bool)
    ensures
        b == occurs_at(v@, pat@, at as int),
{
    if at > v.len() || pat.len() > v.len() - at {
        return false;
    }
    let mut k: usize = 0;
    while k < pat.len()
        invariant
            k <= pat.len(),
            at + pat.len() <= v.len(),
            v@.subrange(at as int, at + k) == pat@.take(k as int),
        decreases pat.len() - k,
    {
        if v[at + k] != pat[k] {
            assert(v@.subrange(at as int, at + pat.len())[k as int] != pat@[k as int]);
            return false;
        }
        k += 1;
    }
    assert(pat@.take(pat.len() as int) =~= pat@);
    true
}

/// Whether `s` begins with `pat`.
pub open spec fn has_prefix(s: Seq<char>, pat: Seq<char>) -> bool {
    occurs_at(s, pat, 0)
}

/// Whether `pat` occurs somewhere in `s`.
pub open spec fn has_infix(s: Seq<char>, pat: Seq<char>) -> bool {
    exists|at: int| occurs_at(s, pat, at)
}

/// Tests whether `pat` occurs somewhere in `v`.
pub fn contains_text(v: &Vec<char>, pat: &Vec<char>) -> (b: bool)
    ensures
        b == has_infix(v@, pat@),
{
    if pat.len() > v.len() {
        return false;
    }
    let last: usize = v.len() - pat.len();
    let mut at: usize = 0;
    loop
        invariant
            last == v.len() - pat.len(),
            at <= last,
            forall|j: int| 0 <= j < at ==> !occurs_at(v@, pat@, j),
        decreases last - at,
    {
        if matches_at(v, pat, at) {
            return true;
        }
        if at == last {
            return false;
        }
        at += 1;
    }
}

/// `s` with every occurrence of `from` replaced by `to`, scanning from the
/// left and never re-reading replaced text. An empty `from` matches nothing.
pub open spec fn replaced(s: Seq<char>, from: Seq<char>, to: Seq<char>) -> Seq<char>
    decreases s.len(),
{
    if from.len() == 0 || s.len() < from.len() {
        s
    } else if s.take(from.len() as int) == from {
        to + replaced(s.skip(from.len() as int), from, to)
    } else {
        seq![s[0]] + replaced(s.skip(1), from, to)
    }
}

/// Replaces every occurrence of `from` in `v` by `to`.
pub fn replace_all(v: &Vec<char>, from: &Vec<char>, to: &Vec<char>) -> (out: Vec<char>)
    ensures
        out@ == replaced(v@, from@, to@),
{
    if from.len() == 0 {
        return copy_chars(v);
    }
    let mut out: Vec<char> = Vec::new();
    let mut i: usize = 0;
    proof {
        assert(v@.skip(0) =~= v@);
    }
    while i < v.len()
        invariant
            i <= v.len(),
            from.len() > 0,
            replaced(v@, from@, to@) == out@ + replaced(v@.skip(i as int), from@, to@),
        decreases v.len() - i,
    {
        let ghost rest = v@.skip(i as int);
        if matches_at(v, from, i) {
            proof {
                assert(rest.take(from.len() as int) =~= v@.subrange(i as int, i + from.len()));
                assert(rest.skip(from.len() as int) =~= v@.skip(i + from.len()));
            }
            append_chars(&mut out, to);
            i += from.len();
        } else {
            proof {
                if rest.len() >= from.len() {
                    assert(rest.take(from.len() as int) =~= v@.subrange(
                        i as int,
                        i + from.len(),
                    ));
                }
                assert(rest.skip(1) =~= v@.skip(i + 1));
            }
            if v.len() - i < from.len() {
                let ghost whole = out@ + rest;
                while i < v.len()
                    invariant
                        i <= v.len(),
                        out@ + v@.skip(i as int) == whole,
                    decreases v.len() - i,
                {
                    out.push(v[i]);
                    i += 1;
                }
            } else {
                out.push(v[i]);
                i += 1;
            }
        }
    }
    out
}

/// Tests whether `c` is one of the characters of `set`.
pub fn is_one_of(c: char, set: &Vec<char>) -> (b: bool)
    ensures
        b == set@.contains(c),
{
    let mut k: usize = 0;
    while k < set.len()
        invariant
            k <= set.len(),
            forall|j: int| 0 <= j < k ==> set@[j] != c,
        decreases set.len() - k,
    {
        if set[k] == c {
            return true;
        }
        k += 1;
    }
    false
}

/// The greatest position below `end` at which `s` holds a character of
/// `set`, or `-1` where there is none.
pub open spec fn last_position(s: Seq<char>, end: int, set: Seq<char>) -> int
    decreases end,
{
    if end <= 0 {
        -1
    } else if set.contains(s[end - 1]) {
        end - 1
    } else {
        last_position(s, end - 1, set)
    }
}

/// Searches `v[..end]` backwards for a character of `set`. An `end` beyond
/// the length of `v` stands for that length.
pub fn find_last(v: &Vec<char>, end: usize, set: &Vec<char>) -> (at: Option<usize>)
    ensures
        match at {
            Some(i) => i as int == last_position(v@, min(end as int, v@.len() as int), set@),
            None => last_position(v@, min(end as int, v@.len() as int), set@) == -1,
        },
{
    let bound: usize = if end <= v.len() {
        end
    } else {
        v.len()
    };
    let mut i: usize = bound;
    while i > 0
        invariant
            i <= bound <= v.len(),
            bound == min(end as int, v@.len() as int),
            last_position(v@, bound as int, set@) == last_position(v@, i as int, set@),
        decreases i,
    {
        if is_one_of(v[i - 1], set) {
            return Some(i - 1);
        }
        i -= 1;
    }
    None
}

/// What `last_position` finds: a character of the set stands there, and none
/// stands between it and `end`.
pub proof fn last_position_is_last(s: Seq<char>, end: int, set: Seq<char>)
    requires
        0 <= end <= s.len(),
    ensures
        -1 <= last_position(s, end, set) < end,
        last_position(s, end, set) >= 0 ==> set.contains(s[last_position(s, end, set)]),
        forall|j: int| last_position(s, end, set) < j < end ==> !set.contains(s[j]),
    decreases end,
{
    if end > 0 && !set.contains(s[end - 1]) {
        last_position_is_last(s, end - 1, set);
    }
}

/// Lexicographic order on byte strings: a proper prefix comes first, and
/// otherwise the first differing byte decides.
pub open spec fn bytes_less(a: Seq<u8>, b: Seq<u8>) -> bool
    decreases a.len(),
{
    if b.len() == 0 {
        false
    } else if a.len() == 0 {
        true
    } else if a[0] != b[0] {
        a[0] < b[0]
    } else {
        bytes_less(a.drop_first(), b.drop_first())
    }
}

/// The order of texts: that of their UTF-8 encodings.
pub open spec fn text_less(a: Seq<char>, b: Seq<char>) -> bool {
    bytes_less(encode_utf8(a), encode_utf8(b))
}

/// No byte string comes before itself.
pub proof fn bytes_less_irreflexive(a: Seq<u8>)
    ensures
        !bytes_less(a, a),
    decreases a.len(),
{
    if a.len() > 0 {
        bytes_less_irreflexive(a.drop_first());
    }
}

/// The order of byte strings is transitive.
pub proof fn bytes_less_transitive(a: Seq<u8>, b: Seq<u8>, c: Seq<u8>)
    requires
        bytes_less(a, b),
        bytes_less(b, c),
    ensures
        bytes_less(a, c),
    decreases a.len(),
{
    if a.len() > 0 && a[0] == b[0] && b[0] == c[0] {
        bytes_less_transitive(a.drop_first(), b.drop_first(), c.drop_first());
    }
}

/// Of two different byte strings one comes before the other.
pub proof fn bytes_less_total(a: Seq<u8>, b: Seq<u8>)
    ensures
        a == b || bytes_less(a, b) || bytes_less(b, a),
    decreases a.len(),
{
    if a.len() > 0 && b.len() > 0 && a[0] == b[0] {
        bytes_less_total(a.drop_first(), b.drop_first());
        if a.drop_first() == b.drop_first() {
            assert(a =~= seq![a[0]] + a.drop_first());
            assert(b =~= seq![b[0]] + b.drop_first());
        }
    } else if a.len() == 0 && b.len() == 0 {
        assert(a =~= b);
    }
}

/// Tests whether `a` comes before `b` in the order of texts.
pub fn is_less(a: &str, b: &str) -> (r: bool)
    ensures
        r == text_less(a@, b@),
{
    let x = a.as_bytes();
    let y = b.as_bytes();
    let mut i: usize = 0;
    proof {
        assert(x@.skip(0) =~= x@);
        assert(y@.skip(0) =~= y@);
    }
    while i < x.len() && i < y.len()
        invariant
            i <= x.len(),
            i <= y.len(),
            x@ == encode_utf8(a@),
            y@ == encode_utf8(b@),
            bytes_less(x@, y@) == bytes_less(x@.skip(i as int), y@.skip(i as int)),
        decreases x.len() - i,
    {
        if x[i] != y[i] {
            return x[i] < y[i];
        }
        proof {
            assert(x@.skip(i as int).drop_first() =~= x@.skip(i + 1));
            assert(y@.skip(i as int).drop_first() =~= y@.skip(i + 1));
        }
        i += 1;
    }
    i < y.len()
}

/// The characters of an optional string.
pub open spec fn text_view(o: Option<String>) -> Option<Seq<char>> {
    match o {
        Some(s) => Some(s@),
        None => None,
    }
}

/// The texts of a list of strings.
pub open spec fn texts(list: Seq<String>) -> Seq<Seq<char>> {
    list.map_values(|s: String| s@)
}

/// The texts of a list of character vectors.
pub open spec fn lines(list: Seq<Vec<char>>) -> Seq<Seq<char>> {
    list.map_values(|w: Vec<char>| w@)
}

/// The texts of `parts` with `sep` between each two neighbours.
pub open spec fn joined(parts: Seq<Seq<char>>, sep: Seq<char>) -> Seq<char>
    decreases parts.len(),
{
    if parts.len() == 0 {
        Seq::empty()
    } else if parts.len() == 1 {
        parts[0]
    } else {
        joined(parts.drop_last(), sep) + sep + parts.last()
    }
}

/// Joins `parts` with `sep` between each two neighbours.
pub fn join(parts: &Vec<Vec<char>>, sep: &Vec<char>) -> (out: Vec<char>)
    ensures
        out@ == joined(lines(parts@), sep@),
{
    let mut out: Vec<char> = Vec::new();
    let mut k: usize = 0;
    while k < parts.len()
        invariant
            k <= parts.len(),
            out@ == joined(lines(parts@).take(k as int), sep@),
        decreases parts.len() - k,
    {
        proof {
            let upto = lines(parts@).take(k + 1);
            assert(upto.drop_last() =~= lines(parts@).take(k as int));
        }
        if k > 0 {
            append_chars(&mut out, sep);
        }
        append_chars(&mut out, &parts[k]);
        k += 1;
    }
    assert(lines(parts@).take(parts.len() as int) =~= lines(parts@));
    out
}

/// The character vectors of a list of strings.
pub fn to_lines(list: &Vec<String>) -> (out: Vec<Vec<char>>)
    ensures
        lines(out@) == texts(list@),
{
    let mut out: Vec<Vec<char>> = Vec::new();
    let mut k: usize = 0;
    while k < list.len()
        invariant
            k <= list.len(),
            lines(out@) == texts(list@.take(k as int)),
        decreases list.len() - k,
    {
        let ghost before = out@;
        let item = chars_of(list[k].as_str());
        out.push(item);
        assert(lines(out@) =~= lines(before).push(item@));
        k += 1;
    }
    out
}

/// The decimal digit for `d`.
pub open spec fn digit(d: int) -> char {
    if d == 0 {
        '0'
    } else if d == 1 {
        '1'
    } else if d == 2 {
        '2'
    } else if d == 3 {
        '3'
    } else if d == 4 {
        '4'
    } else if d == 5 {
        '5'
    } else if d == 6 {
        '6'
    } else if d == 7 {
        '7'
    } else if d == 8 {
        '8'
    } else {
        '9'
    }
}

/// The decimal numeral of `n`, without leading zeros.
pub open spec fn decimal(n: nat) -> Seq<char>
    decreases n,
{
    if n < 10 {
        seq![digit(n as int)]
    } else {
        decimal(n / 10).push(digit((n % 10) as int))
    }
}

/// The decimal numeral of `n`, with a minus sign where it is negative.
pub open spec fn signed_decimal(n: int) -> Seq<char> {
    if n < 0 {
        seq!['-'] + decimal((-n) as nat)
    } else {
        decimal(n as nat)
    }
}

/// The digit character for `d`.
fn digit_char(d: u64) -> (c: char)
    requires
        d < 10,
    ensures
        c == digit(d as int),
{
    if d == 0 {
        '0'
    } else if d == 1 {
        '1'
    } else if d == 2 {
        '2'
    } else if d == 3 {
        '3'
    } else if d == 4 {
        '4'
    } else if d == 5 {
        '5'
    } else if d == 6 {
        '6'
    } else if d == 7 {
        '7'
    } else if d == 8 {
        '8'
    } else {
        '9'
    }
}

/// Writes `n` as a decimal numeral.
pub fn decimal_digits(n: u64) -> (out: Vec<char>)
    ensures
        out@ == decimal(n as nat),
    decreases n,
{
    if n < 10 {
        let mut out: Vec<char> = Vec::new();
        out.push(digit_char(n));
        out
    } else {
        let mut out = decimal_digits(n / 10);
        out.push(digit_char(n % 10));
        out
    }
}

/// Writes `n` as a decimal numeral with its sign.
pub fn signed_decimal_digits(n: i64) -> (out: Vec<char>)
    ensures
        out@ == signed_decimal(n as int),
{
    if n < 0 {
        let magnitude: u64 = (-(n + 1)) as u64 + 1;
        let mut out: Vec<char> = Vec::new();
        out.push('-');
        let digits = decimal_digits(magnitude);
        append_chars(&mut out, &digits);
        out
    } else {
        decimal_digits(n as u64)
    }
}

} // verus!
