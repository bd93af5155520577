//! Numeric character references: `&#233;` and `&#xE9;` stand for the
//! character with that code point.

use vstd::prelude::*;

verus! {

/// Whether `n` is the code point of a character: a Unicode scalar value.
pub open spec fn is_code_point(n: nat) -> bool {
    n <= 0xD7FF || 0xE000 <= n <= 0x10FFFF
}

/// `char::from_u32` gives the character with the code point `i`, and `None`
/// where `i` is no Unicode scalar value.
pub assume_specification[ char::from_u32 ](i: u32) -> (out: Option<char>)
    ensures
        out is Some <==> is_code_point(i as nat),
        out matches Some(c) ==> c as u32 == i,
;

/// The value of `c` as a digit, decimal or hexadecimal.
pub open spec fn digit_of(c: char, hex: bool) -> Option<nat> {
    if '0' <= c <= '9' {
        Some((c as u32 - '0' as u32) as nat)
    } else if hex && 'a' <= c <= 'f' {
        Some((c as u32 - 'a' as u32 + 10) as nat)
    } else if hex && 'A' <= c <= 'F' {
        Some((c as u32 - 'A' as u32 + 10) as nat)
    } else {
        None
    }
}

/// How many digits `s` begins with.
pub open spec fn digit_run(s: Seq<char>, hex: bool) -> nat
    decreases s.len(),
{
    if s.len() > 0 && digit_of(s[0], hex) is Some {
        1 + digit_run(s.drop_first(), hex)
    } else {
        0
    }
}

/// The number that the digits `s` write.
pub open spec fn number_in(s: Seq<char>, hex: bool) -> nat
    decreases s.len(),
{
    if s.len() == 0 {
        0
    } else {
        let front = number_in(s.drop_last(), hex);
        let last = match digit_of(s.last(), hex) {
            Some(d) => d,
            None => 0,
        };
        if hex {
            front * 16 + last
        } else {
            front * 10 + last
        }
    }
}

/// The reference that `s` begins with: the character it stands for and the
/// number of characters it takes. A reference is `&#`, for a hexadecimal one
/// an `x` or `X`, at least one digit, and a semicolon; and the digits write
/// the code point of a character.
pub open spec fn leading_reference(s: Seq<char>) -> Option<(char, nat)> {
    if s.len() < 4 || s[0] != '&' || s[1] != '#' {
        None
    } else {
        let hex = s[2] == 'x' || s[2] == 'X';
        let start: int = if hex {
            3
        } else {
            2
        };
        let run = digit_run(s.skip(start), hex);
        let value = number_in(s.subrange(start, start + run), hex);
        if run > 0 && start + run < s.len() && s[start + run] == ';' && is_code_point(value) {
            Some((value as u32 as char, (start + run + 1) as nat))
        } else {
            None
        }
    }
}

/// `s` with every numeric character reference turned into the character it
/// stands for, read from the left. What looks like a reference and names no
/// character stays as it is.
pub open spec fn dereferenced(s: Seq<char>) -> Seq<char>
    decreases s.len(),
{
    if s.len() == 0 {
        Seq::empty()
    } else {
        match leading_reference(s) {
            Some((c, n)) => if 0 < n <= s.len() {
                seq![c] + dereferenced(s.skip(n as int))
            } else {
                seq![s[0]] + dereferenced(s.skip(1))
            },
            None => seq![s[0]] + dereferenced(s.skip(1)),
        }
    }
}

/// The value of `c` as a digit.
fn digit_value(c: char, hex: bool) -> (out: Option<u32>)
    ensures
        match out {
            Some(d) => digit_of(c, hex) == Some(d as nat) && d < 16,
            None => digit_of(c, hex) is None,
        },
{
    let n: u32 = c as u32;
    if '0' <= c && c <= '9' {
        Some(n - '0' as u32)
    } else if hex && 'a' <= c && c <= 'f' {
        Some(n - 'a' as u32 + 10)
    } else if hex && 'A' <= c && c <= 'F' {
        Some(n - 'A' as u32 + 10)
    } else {
        None
    }
}

/// Reads the reference that `v[at..]` begins with.
fn read_reference(v: &Vec<char>, at: usize) -> (out: Option<(char, usize)>)
    requires
        at < v.len(),
    ensures
        match out {
            Some((c, n)) => leading_reference(v@.skip(at as int)) == Some((c, n as nat)) && 0 < n
                <= v.len() - at,
            None => leading_reference(v@.skip(at as int)) is None,
        },
{
    let ghost s = v@.skip(at as int);
    if v.len() - at < 4 || v[at] != '&' || v[at + 1] != '#' {
        return None;
    }
    let hex = v[at + 2] == 'x' || v[at + 2] == 'X';
    let start: usize = if hex {
        at + 3
    } else {
        at + 2
    };
    let ghost digits = s.skip(start - at);
    assert(digits =~= v@.skip(start as int));
    let mut value: u32 = 0;
    let mut over = false;
    let mut j: usize = start;
    assert(v@.subrange(start as int, start as int) =~= Seq::<char>::empty());
    while j < v.len() && digit_value(v[j], hex).is_some()
        invariant
            start <= j <= v.len(),
            digit_run(v@.skip(start as int), hex) == (j - start) + digit_run(
                v@.skip(j as int),
                hex,
            ),
            !over ==> number_in(v@.subrange(start as int, j as int), hex) == value && value
                <= 0x10FFFF,
            over ==> number_in(v@.subrange(start as int, j as int), hex) > 0x10FFFF,
        decreases v.len() - j,
    {
        let d = digit_value(v[j], hex).unwrap();
        proof {
            assert(v@.skip(j as int).drop_first() =~= v@.skip(j + 1));
            assert(v@.subrange(start as int, j + 1).drop_last() =~= v@.subrange(
                start as int,
                j as int,
            ));
        }
        if !over {
            value = if hex {
                value * 16 + d
            } else {
                value * 10 + d
            };
            if value > 0x10FFFF {
                over = true;
            }
        }
        j += 1;
    }
    let run: usize = j - start;
    assert(run == digit_run(digits, hex)) by {
        if j < v.len() {
            assert(digit_of(v@.skip(j as int)[0], hex) is None);
        }
    }
    assert(s.subrange(start - at, start - at + run) =~= v@.subrange(start as int, j as int));
    if run == 0 || j >= v.len() || v[j] != ';' || over {
        return None;
    }
    match char::from_u32(value) {
        Some(c) => {
            proof {
                vstd::utf8::char_u32_cast(c, value);
            }
            Some((c, j + 1 - at))
        },
        None => None,
    }
}

/// Turns every numeric character reference in `v` into the character it
/// stands for.
pub fn dereference(v: &Vec<char>) -> (out: Vec<char>)
    ensures
        out@ == dereferenced(v@),
{
    let mut out: Vec<char> = Vec::new();
    let mut i: usize = 0;
    assert(v@.skip(0) =~= v@);
    while i < v.len()
        invariant
            i <= v.len(),
            dereferenced(v@) == out@ + dereferenced(v@.skip(i as int)),
        decreases v.len() - i,
    {
        let ghost rest = v@.skip(i as int);
        let ghost before = out@;
        match read_reference(v, i) {
            Some((c, n)) => {
                out.push(c);
                i += n;
                proof {
                    assert(rest.skip(n as int) =~= v@.skip(i as int));
                    assert(before + (seq![c] + dereferenced(v@.skip(i as int))) =~= before.push(c)
                        + dereferenced(v@.skip(i as int)));
                }
            },
            None => {
                out.push(v[i]);
                i += 1;
                proof {
                    assert(rest.skip(1) =~= v@.skip(i as int));
                    assert(before + (seq![rest[0]] + dereferenced(v@.skip(i as int)))
                        =~= before.push(rest[0]) + dereferenced(v@.skip(i as int)));
                }
            },
        }
    }
    assert(out@ + Seq::<char>::empty() =~= out@);
    out
}

} // verus!
