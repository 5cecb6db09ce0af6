//! Hexadecimal colour parsing.
use vstd::prelude::*;
use crate::text::chars_of;

verus! {

/// The value of a hexadecimal digit (`0-9`, `a-f`, `A-F`).
pub open spec fn hex_digit_value(c: char) -> Option<nat> {
    if '0' <= c && c <= '9' {
        Some((c as nat - '0' as nat) as nat)
    } else if 'a' <= c && c <= 'f' {
        Some((c as nat - 'a' as nat + 10) as nat)
    } else if 'A' <= c && c <= 'F' {
        Some((c as nat - 'A' as nat + 10) as nat)
    } else {
        None
    }
}

/// Whether every character of `s` is a hexadecimal digit.
pub open spec fn all_hex_digits(s: Seq<char>) -> bool {
    forall|i: int| 0 <= i < s.len() ==> (#[trigger] hex_digit_value(s[i])) is Some
}

/// The number written by the hexadecimal digits `s`, most significant first.
pub open spec fn hex_value(s: Seq<char>) -> nat
    decreases s.len(),
{
    if s.len() == 0 {
        0
    } else {
        hex_value(s.drop_last()) * 16 + hex_digit_value(s.last()).unwrap_or(0)
    }
}

/// What `u32::from_str_radix(s, 16)` gives: an optional `+` sign followed by
/// at least one hexadecimal digit, whose value fits in a `u32`.
pub open spec fn parse_hex_u32(s: Seq<char>) -> Option<u32> {
    let digits = if s.len() > 0 && s[0] == '+' { s.drop_first() } else { s };
    if digits.len() == 0 || !all_hex_digits(digits) || hex_value(digits) > u32::MAX {
        None
    } else {
        Some(hex_value(digits) as u32)
    }
}

/// A colour written as `#` followed by what `parse_hex_u32` accepts.
pub open spec fn parse_hex_color_spec(color: Seq<char>) -> Option<u32> {
    if color.len() > 0 && color[0] == '#' {
        parse_hex_u32(color.drop_first())
    } else {
        None
    }
}

proof fn lemma_hex_value_prefix_le(s: Seq<char>, i: int)
    requires
        0 <= i <= s.len(),
    ensures
        hex_value(s.take(i)) <= hex_value(s),
    decreases s.len() - i,
{
    if i < s.len() {
        lemma_hex_value_prefix_le(s, i + 1);
        assert(s.take(i + 1).drop_last() =~= s.take(i));
    } else {
        assert(s.take(i) =~= s);
    }
}

/// Parses a colour such as `"#B1E6AA"` into its numeric value.
pub fn parse_hex_color(color: &str) -> (r: Option<u32>)
    ensures
        r == parse_hex_color_spec(color@),
{
    let chars = chars_of(color);
    if chars.len() == 0 || chars[0] != '#' {
        return None;
    }
    let mut start: usize = 1;
    if chars.len() > 1 && chars[1] == '+' {
        start = 2;
    }
    let ghost digits = chars@.subrange(start as int, chars@.len() as int);
    proof {
        let rest = color@.drop_first();
        if rest.len() > 0 && rest[0] == '+' {
            assert(rest.drop_first() =~= digits);
        } else {
            assert(rest =~= digits);
        }
    }
    if start == chars.len() {
        return None;
    }
    let mut acc: u64 = 0;
    let mut i = start;
    while i < chars.len()
        invariant
            chars@ == color@,
            1 <= start <= i <= chars@.len(),
            digits == chars@.subrange(start as int, chars@.len() as int),
            all_hex_digits(chars@.subrange(start as int, i as int)),
            acc == hex_value(chars@.subrange(start as int, i as int)),
            acc <= u32::MAX,
            parse_hex_color_spec(color@) == (if !all_hex_digits(digits) || hex_value(digits) > u32::MAX {
                None
            } else {
                Some(hex_value(digits) as u32)
            }),
        decreases chars@.len() - i,
    {
        let c = chars[i];
        let d: u64 = if '0' <= c && c <= '9' {
            (c as u64) - ('0' as u64)
        } else if 'a' <= c && c <= 'f' {
            (c as u64) - ('a' as u64) + 10
        } else if 'A' <= c && c <= 'F' {
            (c as u64) - ('A' as u64) + 10
        } else {
            assert(digits[i - start] == c);
            assert(hex_digit_value(digits[i - start]) is None);
            return None;
        };
        let ghost prev = chars@.subrange(start as int, i as int);
        let ghost next = chars@.subrange(start as int, i + 1);
        assert(next.drop_last() =~= prev);
        assert(hex_digit_value(c) == Some(d as nat));
        acc = acc * 16 + d;
        assert(all_hex_digits(next)) by {
            assert forall|j: int| 0 <= j < next.len() implies (#[trigger] hex_digit_value(next[j])) is Some by {
                if j < prev.len() {
                    assert(next[j] == prev[j]);
                }
            }
        }
        i = i + 1;
        if acc > 0xFFFF_FFFF {
            proof {
                if all_hex_digits(digits) {
                    assert(digits.take(i - start) =~= next);
                    lemma_hex_value_prefix_le(digits, i - start);
                }
            }
            return None;
        }
    }
    assert(chars@.subrange(start as int, i as int) =~= digits);
    Some(acc as u32)
}

} // verus!
