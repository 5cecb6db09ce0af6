//! How many combining marks a zalgo rendering of a phrase may use.
use vstd::prelude::*;

verus! {

/// The output length used when none is asked for.
pub const DEFAULT_ZALGO_LENGTH: u16 = 2_000;

/// The number of marks of each kind (up, middle, down) per character that keeps
/// a phrase of `phrase_len` characters within `output_len` characters:
/// `((output_len - phrase_len) / phrase_len) / 3`, rounded toward zero,
/// and zero when the phrase is already as long as the limit. An empty phrase
/// under a positive limit is given the largest count there is.
pub open spec fn zalgo_marks_spec(output_len: u16, phrase_len: nat) -> nat {
    if phrase_len == 0 {
        if output_len == 0 {
            0
        } else {
            usize::MAX as nat
        }
    } else if output_len <= phrase_len {
        0
    } else {
        ((output_len - phrase_len) as nat) / (3 * phrase_len)
    }
}

/// The number of marks of each kind to add to `phrase` so that the result
/// stays within `length` characters (2 000 when not given); `None` when no
/// mark fits, and the phrase cannot be zalgoified within the limit.
pub fn zalgo_marks(phrase: &str, length: Option<u16>) -> (r: Option<usize>)
    ensures
        ({
            let output_len = match length {
                Some(l) => l,
                None => DEFAULT_ZALGO_LENGTH,
            };
            let m = zalgo_marks_spec(output_len, phrase@.len());
            &&& m == 0 ==> r is None
            &&& m > 0 ==> r == Some(m as usize)
        }),
{
    let output_length = match length {
        Some(l) => l,
        None => DEFAULT_ZALGO_LENGTH,
    };
    let phrase_length = phrase.unicode_len();
    let max: usize = if phrase_length == 0 {
        if output_length == 0 {
            0
        } else {
            usize::MAX
        }
    } else if (output_length as usize) <= phrase_length {
        0
    } else {
        let extra = (output_length as usize) - phrase_length;
        assert(phrase_length <= 65535);
        let per = 3 * phrase_length;
        extra / per
    };
    if max == 0 {
        None
    } else {
        Some(max)
    }
}

/// When marks are given, the zalgo text fits the limit: the phrase's
/// characters with their marks of the three kinds take at most the limit.
/// An empty phrase is the exception, being given the largest count there is.
pub proof fn law_zalgo_fits(output_len: u16, phrase_len: nat)
    requires
        phrase_len > 0,
    ensures
        zalgo_marks_spec(output_len, phrase_len) > 0 ==> phrase_len * (1 + 3 * zalgo_marks_spec(
            output_len,
            phrase_len,
        )) <= output_len,
{
    let m = zalgo_marks_spec(output_len, phrase_len);
    if output_len > phrase_len {
        let extra = (output_len - phrase_len) as nat;
        assert(3 * phrase_len * m <= extra) by (nonlinear_arith)
            requires
                m == extra / (3 * phrase_len),
                phrase_len > 0,
        ;
        assert(phrase_len * (1 + 3 * m) == phrase_len + 3 * phrase_len * m) by (nonlinear_arith);
    }
}

} // verus!
