//! Full-width ("vaporwave") text.
use vstd::prelude::*;
use crate::text::{chars_of, push_char};

verus! {

/// Whether `v` is a Unicode scalar value, the values a `char` can hold.
pub open spec fn is_scalar_value(v: u32) -> bool {
    v < 0xD800 || (0xE000 <= v && v <= 0x10FFFF)
}

/// `char::from_u32`: the character with code `v`, when `v` is a scalar value.
#[verifier::external_body]
fn char_from_u32(v: u32) -> (r: Option<char>)
    ensures
        r is Some == is_scalar_value(v),
        r is Some ==> r->0 as u32 == v,
{
    char::from_u32(v)
}

/// The code of the vaporwave form of a character: printable ASCII and the
/// Latin-1 and Latin Extended-A letters up to U+010E move to the full-width
/// block (65 248 higher); every other character becomes a space.
pub open spec fn vaporwave_code(c: char) -> u32 {
    if 33 <= c as u32 && c as u32 <= 270 {
        (c as u32 + 65_248) as u32
    } else {
        32
    }
}

/// Each character with a code from 33 to 270 (printable ASCII, digits and
/// punctuation included) turns into the character 65 248 higher, from which
/// it can be read back; every other character, and only such a character,
/// turns into a space.
pub proof fn law_vaporwave_shift(c: char)
    ensures
        33 <= c as u32 <= 270 ==> vaporwave_code(c) == c as u32 + 65_248,
        !(33 <= c as u32 <= 270) ==> vaporwave_code(c) == 32,
        vaporwave_code(c) == 32 <==> !(33 <= c as u32 <= 270),
        vaporwave_code(c) != 32 ==> vaporwave_code(c) - 65_248 == c as u32,
{
}

/// Writes `data` in full-width characters, one output character per input character.
pub fn vaporwave_str(data: &str) -> (out: String)
    ensures
        out@.len() == data@.len(),
        forall|i: int| 0 <= i < data@.len() ==> out@[i] as u32 == vaporwave_code(#[trigger] data@[i]),
{
    let chars = chars_of(data);
    let mut out = String::new();
    let mut i: usize = 0;
    while i < chars.len()
        invariant
            chars@ == data@,
            i <= chars@.len(),
            out@.len() == i,
            forall|j: int| 0 <= j < i ==> out@[j] as u32 == vaporwave_code(#[trigger] data@[j]),
        decreases chars@.len() - i,
    {
        let ch = chars[i];
        let ch_u32 = ch as u32;
        let mapped = if 33 <= ch_u32 && ch_u32 <= 270 {
            match ch_u32.checked_add(65_248) {
                Some(shifted) => match char_from_u32(shifted) {
                    Some(c) => c,
                    None => ch,
                },
                None => ch,
            }
        } else {
            ' '
        };
        assert(mapped as u32 == vaporwave_code(data@[i as int]));
        push_char(&mut out, mapped);
        i = i + 1;
    }
    out
}

} // verus!
