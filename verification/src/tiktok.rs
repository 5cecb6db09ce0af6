//! TikTok embeds: which video a link names, which encoder re-encodes it, and
//! at which bit rate.
use vstd::prelude::*;
use crate::links::{parse_url, parsed_url};
use crate::text::{chars_of, ends_with, str_eq, str_ends_with};

verus! {

/// The value of a decimal digit.
pub open spec fn decimal_digit_value(c: char) -> Option<nat> {
    if '0' <= c && c <= '9' {
        Some((c as nat - '0' as nat) as nat)
    } else {
        None
    }
}

/// Whether every character of `s` is a decimal digit.
pub open spec fn all_decimal_digits(s: Seq<char>) -> bool {
    forall|i: int| 0 <= i < s.len() ==> (#[trigger] decimal_digit_value(s[i])) is Some
}

/// The number written by the decimal digits `s`, most significant first.
pub open spec fn decimal_value(s: Seq<char>) -> nat
    decreases s.len(),
{
    if s.len() == 0 {
        0
    } else {
        decimal_value(s.drop_last()) * 10 + decimal_digit_value(s.last()).unwrap_or(0)
    }
}

/// What `str::parse::<u64>` gives: an optional `+` sign followed by at least
/// one decimal digit, whose value fits in a `u64`.
pub open spec fn parse_u64_spec(s: Seq<char>) -> Option<u64> {
    let digits = if s.len() > 0 && s[0] == '+' { s.drop_first() } else { s };
    if digits.len() == 0 || !all_decimal_digits(digits) || decimal_value(digits) > u64::MAX {
        None
    } else {
        Some(decimal_value(digits) as u64)
    }
}

proof fn lemma_decimal_value_prefix_le(s: Seq<char>, i: int)
    requires
        0 <= i <= s.len(),
    ensures
        decimal_value(s.take(i)) <= decimal_value(s),
    decreases s.len() - i,
{
    if i < s.len() {
        lemma_decimal_value_prefix_le(s, i + 1);
        assert(s.take(i + 1).drop_last() =~= s.take(i));
    } else {
        assert(s.take(i) =~= s);
    }
}

/// Parses a decimal `u64` the way `str::parse` does.
pub fn parse_u64(s: &str) -> (r: Option<u64>)
    ensures
        r == parse_u64_spec(s@),
{
    let chars = chars_of(s);
    let mut start: usize = 0;
    if chars.len() > 0 && chars[0] == '+' {
        start = 1;
    }
    let ghost digits = chars@.subrange(start as int, chars@.len() as int);
    proof {
        if s@.len() > 0 && s@[0] == '+' {
            assert(s@.drop_first() =~= digits);
        } else {
            assert(s@ =~= digits);
        }
    }
    if start == chars.len() {
        return None;
    }
    let mut acc: u128 = 0;
    let mut i = start;
    while i < chars.len()
        invariant
            chars@ == s@,
            start <= i <= chars@.len(),
            digits == chars@.subrange(start as int, chars@.len() as int),
            digits.len() > 0,
            forall|j: int| 0 <= j < i - start ==> (#[trigger] decimal_digit_value(digits[j])) is Some,
            acc == decimal_value(chars@.subrange(start as int, i as int)),
            acc <= u64::MAX,
            parse_u64_spec(s@) == (if !all_decimal_digits(digits) || decimal_value(digits) > u64::MAX {
                None
            } else {
                Some(decimal_value(digits) as u64)
            }),
        decreases chars@.len() - i,
    {
        let c = chars[i];
        if !('0' <= c && c <= '9') {
            assert(digits[i - start] == c);
            assert(decimal_digit_value(digits[i - start]) is None);
            return None;
        }
        let d = (c as u128) - ('0' as u128);
        let ghost prev = chars@.subrange(start as int, i as int);
        let ghost next = chars@.subrange(start as int, i + 1);
        assert(next.drop_last() =~= prev);
        assert(decimal_digit_value(c) == Some(d as nat));
        assert(digits[i - start] == c);
        acc = acc * 10 + d;
        i = i + 1;
        if acc > 0xFFFF_FFFF_FFFF_FFFF {
            proof {
                if all_decimal_digits(digits) {
                    assert(digits.take(i - start) =~= next);
                    lemma_decimal_value_prefix_le(digits, i - start);
                }
            }
            return None;
        }
    }
    assert(chars@.subrange(start as int, i as int) =~= digits);
    Some(acc as u64)
}

/// The last path segment of the link `input`: `None` when it is no URL,
/// `Some(None)` when it has no path segments.
pub open spec fn url_last_path_segment(input: Seq<char>) -> Option<Option<Seq<char>>> {
    match parsed_url(input) {
        Some((_, last)) => Some(last),
        None => None,
    }
}

/// The last path segment of the link `input` (see [`url_last_path_segment`]).
pub(crate) fn last_path_segment(input: &str) -> (r: Option<Option<String>>)
    ensures
        match r {
            None => url_last_path_segment(input@) is None,
            Some(None) => url_last_path_segment(input@) == Some(None::<Seq<char>>),
            Some(Some(s)) => url_last_path_segment(input@) == Some(Some(s@)),
        },
{
    match parse_url(input) {
        Some(parts) => Some(parts.last_segment),
        None => None,
    }
}

/// Why a link names no TikTok video.
#[derive(Debug, Copy, Clone, PartialEq, Eq, Structural)]
pub enum VideoIdError {
    /// The link is not a URL.
    InvalidUrl,
    /// The URL has no path.
    MissingPath,
    /// The path has no last segment.
    MissingVideoId,
    /// The last segment is not a number.
    InvalidVideoId,
}

/// The video a link names: the last segment of its path, read as a number.
pub open spec fn video_id_spec(url: Seq<char>) -> Result<u64, VideoIdError> {
    match url_last_path_segment(url) {
        None => Err(VideoIdError::InvalidUrl),
        Some(None) => Err(VideoIdError::MissingPath),
        Some(Some(segment)) => match parse_u64_spec(segment) {
            Some(id) => Ok(id),
            None => Err(VideoIdError::InvalidVideoId),
        },
    }
}

/// The id of the video a TikTok link names.
pub fn video_id_from_url(url: &str) -> (r: Result<u64, VideoIdError>)
    ensures
        r == video_id_spec(url@),
{
    match last_path_segment(url) {
        None => Err(VideoIdError::InvalidUrl),
        Some(None) => Err(VideoIdError::MissingPath),
        Some(Some(segment)) => match parse_u64(segment.as_str()) {
            Some(id) => Ok(id),
            None => Err(VideoIdError::InvalidVideoId),
        },
    }
}

/// Why a feed does not hold the post a link names.
#[derive(Debug, Copy, Clone, PartialEq, Eq, Structural)]
pub enum FeedPostError {
    /// The feed is empty.
    MissingPost,
    /// The feed's first post is another video.
    WrongPost,
}

/// Checks that the feed fetched for `video_id` starts with that video; its
/// first post is the one to use.
pub fn check_feed_post(feed_ids: &Vec<u64>, video_id: u64) -> (r: Result<(), FeedPostError>)
    ensures
        feed_ids@.len() == 0 ==> r == Err::<(), FeedPostError>(FeedPostError::MissingPost),
        feed_ids@.len() > 0 && feed_ids@[0] != video_id ==> r == Err::<(), FeedPostError>(FeedPostError::WrongPost),
        feed_ids@.len() > 0 && feed_ids@[0] == video_id ==> r == Ok::<(), FeedPostError>(()),
{
    if feed_ids.len() == 0 {
        return Err(FeedPostError::MissingPost);
    }
    if feed_ids[0] != video_id {
        return Err(FeedPostError::WrongPost);
    }
    Ok(())
}

/// The video bit rate (kilobits per second) that fits `target_size` kilobits
/// into `duration` seconds.
pub fn calc_target_bitrate(target_size: u64, duration: u64) -> (r: u64)
    requires
        duration > 0,
    ensures
        r == target_size / duration,
{
    target_size / duration
}

/// The bit rate spends at most the budget over the video, and a higher bit
/// rate would not.
pub proof fn law_bitrate_within_budget(target_size: u64, duration: u64)
    requires
        duration > 0,
    ensures
        (target_size / duration) * duration <= target_size,
        target_size < (target_size / duration + 1) * duration,
{
    let q = target_size / duration;
    assert(q * duration <= target_size && target_size < (q + 1) * duration) by (nonlinear_arith)
        requires
            q == target_size / duration,
            duration > 0,
    ;
}

/// An encoder as ffmpeg lists it.
#[derive(Debug)]
pub struct EncoderInfo {
    /// The encoder name, as in `libx264`.
    pub name: String,
    /// The description, as in `libx264 H.264 / AVC / MPEG-4 AVC (codec h264)`.
    pub description: String,
}

/// The h264 encoders to use, most preferred first.
pub open spec fn encoder_preference() -> Seq<Seq<char>> {
    seq![
        "h264_nvenc"@,
        "h264_amf"@,
        "h264_qsv"@,
        "h264_mf"@,
        "h264_v4l2m2m"@,
        "h264_vaapi"@,
        "h264_omx"@,
        "libx264"@,
        "libx264rgb"@,
    ]
}

/// The number of preferred encoders.
pub const ENCODER_PREFERENCE_LEN: usize = 9;

/// The place of `name` in the preference list.
pub open spec fn preference_rank(name: Seq<char>) -> Option<nat> {
    if exists|k: int| 0 <= k < 9 && encoder_preference()[k] == name {
        Some((choose|k: int| 0 <= k < 9 && encoder_preference()[k] == name) as nat)
    } else {
        None
    }
}

/// Whether ffmpeg describes the encoder as one for h264.
pub open spec fn is_h264(e: EncoderInfo) -> bool {
    ends_with(e.description@, "(codec h264)"@)
}

/// The preference rank of an encoder that may be chosen.
pub open spec fn candidate_rank(e: EncoderInfo) -> Option<nat> {
    if is_h264(e) {
        preference_rank(e.name@)
    } else {
        None
    }
}

fn preferred_name(k: usize) -> (r: &'static str)
    requires
        k < 9,
    ensures
        r@ == encoder_preference()[k as int],
{
    match k {
        0 => "h264_nvenc",
        1 => "h264_amf",
        2 => "h264_qsv",
        3 => "h264_mf",
        4 => "h264_v4l2m2m",
        5 => "h264_vaapi",
        6 => "h264_omx",
        7 => "libx264",
        _ => "libx264rgb",
    }
}

fn rank_of(name: &str) -> (r: Option<usize>)
    ensures
        match r {
            Some(k) => k < 9 && encoder_preference()[k as int] == name@,
            None => forall|k: int| 0 <= k < 9 ==> encoder_preference()[k] != name@,
        },
{
    let mut k: usize = 0;
    while k < ENCODER_PREFERENCE_LEN
        invariant
            k <= 9,
            forall|j: int| 0 <= j < k ==> encoder_preference()[j] != name@,
        decreases 9 - k,
    {
        if str_eq(preferred_name(k), name) {
            return Some(k);
        }
        k = k + 1;
    }
    None
}

proof fn lemma_preference_distinct()
    ensures
        forall|a: int, b: int|
            0 <= a < 9 && 0 <= b < 9 && #[trigger] encoder_preference()[a] == #[trigger] encoder_preference()[b]
                ==> a == b,
{
    reveal_strlit("h264_nvenc");
    reveal_strlit("h264_amf");
    reveal_strlit("h264_qsv");
    reveal_strlit("h264_mf");
    reveal_strlit("h264_v4l2m2m");
    reveal_strlit("h264_vaapi");
    reveal_strlit("h264_omx");
    reveal_strlit("libx264");
    reveal_strlit("libx264rgb");
    assert forall|a: int, b: int|
        0 <= a < 9 && 0 <= b < 9 && #[trigger] encoder_preference()[a] == #[trigger] encoder_preference()[b]
            implies a == b by {
        if a != b {
            let x = encoder_preference()[a];
            let y = encoder_preference()[b];
            assert(x.len() != y.len() || exists|i: int| 0 <= i < x.len() && x[i] != y[i]) by {
                if x.len() == y.len() {
                    assert(x[4] != y[4] || x[5] != y[5] || x[6] != y[6] || x[7] != y[7] || x[x.len() - 1] != y[y.len() - 1]);
                }
            }
        }
    }
}

/// The h264 encoder to use: of the listed encoders described as h264 encoders,
/// the one that comes first in the preference list; `None` when none of them is in it.
pub fn select_best_encoder(encoders: &Vec<EncoderInfo>) -> (r: Option<&'static str>)
    ensures
        match r {
            None => forall|i: int| 0 <= i < encoders@.len() ==> (#[trigger] candidate_rank(encoders@[i])) is None,
            Some(name) => exists|k: int|
                0 <= k < 9 && encoder_preference()[k] == name@
                    && (exists|i: int| 0 <= i < encoders@.len() && #[trigger] candidate_rank(encoders@[i]) == Some(k as nat))
                    && forall|i: int| 0 <= i < encoders@.len() && (#[trigger] candidate_rank(encoders@[i])) is Some
                        ==> k <= candidate_rank(encoders@[i])->0,
        },
{
    proof {
        lemma_preference_distinct();
    }
    let mut best: Option<usize> = None;
    let mut i: usize = 0;
    while i < encoders.len()
        invariant
            i <= encoders@.len(),
            forall|a: int, b: int|
                0 <= a < 9 && 0 <= b < 9 && #[trigger] encoder_preference()[a] == #[trigger] encoder_preference()[b]
                    ==> a == b,
            match best {
                None => forall|j: int| 0 <= j < i ==> (#[trigger] candidate_rank(encoders@[j])) is None,
                Some(k) => k < 9 && (exists|j: int| 0 <= j < i && #[trigger] candidate_rank(encoders@[j]) == Some(k as nat))
                    && forall|j: int| 0 <= j < i && (#[trigger] candidate_rank(encoders@[j])) is Some
                        ==> k <= candidate_rank(encoders@[j])->0,
            },
        decreases encoders@.len() - i,
    {
        let e = &encoders[i];
        if str_ends_with(e.description.as_str(), "(codec h264)") {
            match rank_of(e.name.as_str()) {
                Some(k) => {
                    assert(candidate_rank(encoders@[i as int]) == Some(k as nat)) by {
                        let c = choose|c: int| 0 <= c < 9 && encoder_preference()[c] == e.name@;
                        assert(encoder_preference()[c] == encoder_preference()[k as int]);
                    }
                    match best {
                        None => {
                            best = Some(k);
                        },
                        Some(b) => {
                            if b > k {
                                best = Some(k);
                            }
                        },
                    }
                },
                None => {
                    assert(candidate_rank(encoders@[i as int]) is None);
                },
            }
        } else {
            assert(candidate_rank(encoders@[i as int]) is None);
        }
        i = i + 1;
    }
    match best {
        None => None,
        Some(k) => Some(preferred_name(k)),
    }
}

} // verus!
