//! The decisions of preparing a TikTok video for upload: use a re-encoded copy
//! when there is one, the downloaded file when it is small enough, and else
//! re-encode it to a bit rate that fits the upload limit, check the result and
//! keep it.
//!
//! A [`ReencodeJob`] is driven by its caller: each call of [`ReencodeJob::step`]
//! takes what the last action found out and says what to do next.
use vstd::prelude::*;
use crate::text::{chars_of, u64_to_decimal};
use crate::tiktok::{calc_target_bitrate, last_path_segment, url_last_path_segment};

verus! {

/// Files at least this large cannot be uploaded.
pub const FILE_SIZE_LIMIT_BYTES: u64 = 8 * 1024 * 1024;

/// The size a re-encoded file aims at.
pub const TARGET_FILE_SIZE_BYTES: u64 = 7 * 1024 * 1024;

/// The bit budget of a re-encode, in kilobits: half of the target size, to
/// leave room for the audio and the container.
pub open spec fn target_kilobits() -> u64 {
    ((TARGET_FILE_SIZE_BYTES / 1024) * 8 / 2) as u64
}

/// Whether the last segment of a URL path names an `.mp4` file: its text after
/// the last dot is `mp4`.
pub open spec fn names_mp4(segment: Seq<char>) -> bool {
    exists|d: int|
        0 <= d < segment.len() && segment[d] == '.' && (forall|j: int| d < j < segment.len() ==> segment[j] != '.')
            && segment.subrange(d + 1, segment.len() as int) == "mp4"@
}

/// Whether a video address points at an `.mp4` file.
pub open spec fn url_names_mp4(url: Seq<char>) -> bool {
    match url_last_path_segment(url) {
        Some(Some(segment)) => names_mp4(segment),
        _ => false,
    }
}

/// Whether the text after the last dot of `segment` is `mp4`.
pub fn segment_names_mp4(segment: &str) -> (r: bool)
    ensures
        r == names_mp4(segment@),
{
    let chars = chars_of(segment);
    let mut i = chars.len();
    while i > 0
        invariant
            chars@ == segment@,
            i <= chars@.len(),
            forall|j: int| i <= j < chars@.len() ==> chars@[j] != '.',
        decreases i,
    {
        if chars[i - 1] == '.' {
            let d = i - 1;
            let n = chars.len();
            let is_mp4 = n - d == 4 && chars[d + 1] == 'm' && chars[d + 2] == 'p' && chars[d + 3] == '4';
            proof {
                reveal_strlit("mp4");
                if is_mp4 {
                    assert(segment@.subrange(d + 1, segment@.len() as int) =~= "mp4"@);
                } else if exists|e: int|
                    0 <= e < segment@.len() && segment@[e] == '.' && (forall|j: int| e < j < segment@.len() ==> segment@[j] != '.')
                        && segment@.subrange(e + 1, segment@.len() as int) == "mp4"@ {
                    let e = choose|e: int|
                        0 <= e < segment@.len() && segment@[e] == '.' && (forall|j: int| e < j < segment@.len() ==> segment@[j] != '.')
                            && segment@.subrange(e + 1, segment@.len() as int) == "mp4"@;
                    if e < d {
                        assert(segment@[d as int] != '.');
                    } else if e > d {
                        assert(chars@[e] != '.');
                    }
                    assert(segment@.subrange(e + 1, segment@.len() as int).len() == 3);
                    assert(segment@.subrange(e + 1, segment@.len() as int)[0] == segment@[e + 1]);
                    assert(segment@.subrange(e + 1, segment@.len() as int)[1] == segment@[e + 2]);
                    assert(segment@.subrange(e + 1, segment@.len() as int)[2] == segment@[e + 3]);
                }
            }
            return is_mp4;
        }
        i = i - 1;
    }
    false
}

/// Whether the video at `url` is an `.mp4` file.
pub fn url_is_mp4(url: &str) -> (r: bool)
    ensures
        r == url_names_mp4(url@),
{
    match last_path_segment(url) {
        Some(Some(segment)) => segment_names_mp4(segment.as_str()),
        _ => false,
    }
}

/// The names of the files of one video in the download cache.
#[derive(Debug)]
pub struct ReencodeFileNames {
    /// The downloaded video: `<id>.mp4`.
    pub raw: String,
    /// The kept re-encoded video: `<id>-reencoded.mp4`.
    pub reencoded: String,
    /// The output of the re-encode: `<id>-reencoded.1.tmp`.
    pub first_pass: String,
    /// The output of the repairing transcode: `<id>-reencoded.2.tmp`.
    pub second_pass: String,
}

/// The cache file names of the video `id`.
pub fn reencode_file_names(id: u64) -> (r: ReencodeFileNames)
    ensures
        r.raw@ == crate::text::decimal(id as nat) + ".mp4"@,
        r.reencoded@ == crate::text::decimal(id as nat) + "-reencoded.mp4"@,
        r.first_pass@ == crate::text::decimal(id as nat) + "-reencoded.1.tmp"@,
        r.second_pass@ == crate::text::decimal(id as nat) + "-reencoded.2.tmp"@,
{
    let mut raw = u64_to_decimal(id);
    raw.append(".mp4");
    let mut reencoded = u64_to_decimal(id);
    reencoded.append("-reencoded.mp4");
    let mut first_pass = u64_to_decimal(id);
    first_pass.append("-reencoded.1.tmp");
    let mut second_pass = u64_to_decimal(id);
    second_pass.append("-reencoded.2.tmp");
    ReencodeFileNames { raw, reencoded, first_pass, second_pass }
}

/// Where a job stands.
#[derive(Debug, Copy, Clone, PartialEq, Eq, Structural)]
pub enum ReencodeState {
    /// Nothing done yet.
    Start,
    /// Asked whether a re-encoded copy exists.
    CheckingReencoded,
    /// Asked for the size of the downloaded file (downloading it if needed).
    SizingRaw,
    /// Asked for the re-encode.
    Encoding,
    /// Asked for the repairing transcode.
    Transcoding,
    /// Asked for the size of the transcoded file.
    SizingEncoded,
    /// Asked to keep the transcoded file as the re-encoded copy.
    Renaming,
    /// Done, with a file to upload or a failure.
    Finished,
}

/// What an action found out.
#[derive(Debug, Copy, Clone, PartialEq, Eq, Structural)]
pub enum ReencodeEvent {
    /// The job begins.
    Begin,
    /// Whether the re-encoded copy exists.
    ReencodedExists(bool),
    /// The size of the downloaded file.
    RawSize(u64),
    /// The exit status the re-encode reported: `None` when it reported none,
    /// else whether it succeeded.
    EncodeExited(Option<bool>),
    /// The exit status the transcode reported.
    TranscodeExited(Option<bool>),
    /// The size of the transcoded file.
    EncodedSize(u64),
    /// The transcoded file was kept as the re-encoded copy.
    Renamed,
}

/// Why a job failed.
#[derive(Debug, Copy, Clone, PartialEq, Eq, Structural)]
pub enum ReencodeFailure {
    /// The video address does not point at an `.mp4` file.
    NotMp4,
    /// The encoder reported no exit status.
    MissingExitStatus,
    /// The encoder exited with a failure.
    InvalidExitStatus,
    /// The re-encoded file is still too large to upload.
    TooLarge(u64),
}

/// What to do next.
#[derive(Debug, Copy, Clone, PartialEq, Eq, Structural)]
pub enum ReencodeAction {
    /// Ask whether the re-encoded copy exists.
    CheckReencoded,
    /// Get the size of the downloaded file, downloading it first when it is missing.
    GetRawSize,
    /// Re-encode the downloaded file into the first temporary file, copying the
    /// audio, at this video bit rate in kilobits per second.
    Encode(u64),
    /// Transcode the first temporary file into the second, copying both streams.
    Transcode,
    /// Get the size of the second temporary file.
    GetEncodedSize,
    /// Rename the second temporary file to the re-encoded copy and keep it.
    Rename,
    /// Upload the re-encoded copy.
    UseReencoded,
    /// Upload the downloaded file.
    UseRaw,
    /// Give up.
    Fail(ReencodeFailure),
}

/// The preparation of one video.
#[derive(Debug)]
pub struct ReencodeJob {
    /// Whether the video address points at an `.mp4` file.
    pub is_mp4: bool,
    /// The video's duration in seconds.
    pub video_duration: u64,
    /// Where the job stands.
    pub state: ReencodeState,
}

/// Whether `event` answers what a job in `state` asked for.
pub open spec fn expects(state: ReencodeState, event: ReencodeEvent) -> bool {
    match state {
        ReencodeState::Start => event is Begin,
        ReencodeState::CheckingReencoded => event is ReencodedExists,
        ReencodeState::SizingRaw => event is RawSize,
        ReencodeState::Encoding => event is EncodeExited,
        ReencodeState::Transcoding => event is TranscodeExited,
        ReencodeState::SizingEncoded => event is EncodedSize,
        ReencodeState::Renaming => event is Renamed,
        ReencodeState::Finished => false,
    }
}

/// The next state and action of a job in `state` on `event`.
pub open spec fn step_spec(is_mp4: bool, video_duration: u64, state: ReencodeState, event: ReencodeEvent) -> (
    ReencodeState,
    ReencodeAction,
) {
    match event {
        ReencodeEvent::Begin => if is_mp4 {
            (ReencodeState::CheckingReencoded, ReencodeAction::CheckReencoded)
        } else {
            (ReencodeState::Finished, ReencodeAction::Fail(ReencodeFailure::NotMp4))
        },
        ReencodeEvent::ReencodedExists(exists) => if exists {
            (ReencodeState::Finished, ReencodeAction::UseReencoded)
        } else {
            (ReencodeState::SizingRaw, ReencodeAction::GetRawSize)
        },
        ReencodeEvent::RawSize(size) => if size < FILE_SIZE_LIMIT_BYTES {
            (ReencodeState::Finished, ReencodeAction::UseRaw)
        } else {
            (ReencodeState::Encoding, ReencodeAction::Encode((target_kilobits() / video_duration) as u64))
        },
        ReencodeEvent::EncodeExited(status) => match status {
            None => (ReencodeState::Finished, ReencodeAction::Fail(ReencodeFailure::MissingExitStatus)),
            Some(false) => (ReencodeState::Finished, ReencodeAction::Fail(ReencodeFailure::InvalidExitStatus)),
            Some(true) => (ReencodeState::Transcoding, ReencodeAction::Transcode),
        },
        ReencodeEvent::TranscodeExited(status) => match status {
            None => (ReencodeState::Finished, ReencodeAction::Fail(ReencodeFailure::MissingExitStatus)),
            Some(false) => (ReencodeState::Finished, ReencodeAction::Fail(ReencodeFailure::InvalidExitStatus)),
            Some(true) => (ReencodeState::SizingEncoded, ReencodeAction::GetEncodedSize),
        },
        ReencodeEvent::EncodedSize(size) => if size < FILE_SIZE_LIMIT_BYTES {
            (ReencodeState::Renaming, ReencodeAction::Rename)
        } else {
            (ReencodeState::Finished, ReencodeAction::Fail(ReencodeFailure::TooLarge(size)))
        },
        ReencodeEvent::Renamed => (ReencodeState::Finished, ReencodeAction::UseReencoded),
    }
}

impl ReencodeJob {
    /// A job for the video at `url`, lasting `video_duration` seconds.
    pub fn new(url: &str, video_duration: u64) -> (r: ReencodeJob)
        ensures
            r.is_mp4 == url_names_mp4(url@),
            r.video_duration == video_duration,
            r.state == ReencodeState::Start,
    {
        ReencodeJob { is_mp4: url_is_mp4(url), video_duration, state: ReencodeState::Start }
    }

    /// Takes what the last action found out and says what to do next.
    /// A re-encode is only asked for when the video has a duration.
    pub fn step(&mut self, event: ReencodeEvent) -> (action: ReencodeAction)
        requires
            expects(old(self).state, event),
            event matches ReencodeEvent::RawSize(size) && size >= FILE_SIZE_LIMIT_BYTES ==> old(self).video_duration > 0,
        ensures
            final(self).is_mp4 == old(self).is_mp4,
            final(self).video_duration == old(self).video_duration,
            (final(self).state, action) == step_spec(
                old(self).is_mp4,
                old(self).video_duration,
                old(self).state,
                event,
            ),
    {
        let (next, action) = match event {
            ReencodeEvent::Begin => if self.is_mp4 {
                (ReencodeState::CheckingReencoded, ReencodeAction::CheckReencoded)
            } else {
                (ReencodeState::Finished, ReencodeAction::Fail(ReencodeFailure::NotMp4))
            },
            ReencodeEvent::ReencodedExists(exists) => if exists {
                (ReencodeState::Finished, ReencodeAction::UseReencoded)
            } else {
                (ReencodeState::SizingRaw, ReencodeAction::GetRawSize)
            },
            ReencodeEvent::RawSize(size) => if size < FILE_SIZE_LIMIT_BYTES {
                (ReencodeState::Finished, ReencodeAction::UseRaw)
            } else {
                let bitrate = calc_target_bitrate((TARGET_FILE_SIZE_BYTES / 1024) * 8 / 2, self.video_duration);
                (ReencodeState::Encoding, ReencodeAction::Encode(bitrate))
            },
            ReencodeEvent::EncodeExited(status) => match status {
                None => (ReencodeState::Finished, ReencodeAction::Fail(ReencodeFailure::MissingExitStatus)),
                Some(false) => (ReencodeState::Finished, ReencodeAction::Fail(ReencodeFailure::InvalidExitStatus)),
                Some(true) => (ReencodeState::Transcoding, ReencodeAction::Transcode),
            },
            ReencodeEvent::TranscodeExited(status) => match status {
                None => (ReencodeState::Finished, ReencodeAction::Fail(ReencodeFailure::MissingExitStatus)),
                Some(false) => (ReencodeState::Finished, ReencodeAction::Fail(ReencodeFailure::InvalidExitStatus)),
                Some(true) => (ReencodeState::SizingEncoded, ReencodeAction::GetEncodedSize),
            },
            ReencodeEvent::EncodedSize(size) => if size < FILE_SIZE_LIMIT_BYTES {
                (ReencodeState::Renaming, ReencodeAction::Rename)
            } else {
                (ReencodeState::Finished, ReencodeAction::Fail(ReencodeFailure::TooLarge(size)))
            },
            ReencodeEvent::Renamed => (ReencodeState::Finished, ReencodeAction::UseReencoded),
        };
        self.state = next;
        action
    }
}

/// Whether `action` ends a job.
pub open spec fn is_final(action: ReencodeAction) -> bool {
    action is UseReencoded || action is UseRaw || action is Fail
}

/// A job ends exactly when it reaches `Finished`; it uploads the downloaded
/// file only when that file is under the limit; it keeps a fresh re-encode
/// only when its size was found under the limit; and it asks for a re-encode
/// only for a file at or over the limit, at the bit rate that spreads half the
/// target size over the video's duration.
pub proof fn law_reencode_step(is_mp4: bool, video_duration: u64, state: ReencodeState, event: ReencodeEvent)
    requires
        expects(state, event),
        event matches ReencodeEvent::RawSize(size) && size >= FILE_SIZE_LIMIT_BYTES ==> video_duration > 0,
    ensures
        ({
            let (next, action) = step_spec(is_mp4, video_duration, state, event);
            &&& (next == ReencodeState::Finished) == is_final(action)
            &&& action is UseRaw ==> (event matches ReencodeEvent::RawSize(size) && size < FILE_SIZE_LIMIT_BYTES)
            &&& action is Rename ==> (event matches ReencodeEvent::EncodedSize(size) && size < FILE_SIZE_LIMIT_BYTES)
            &&& action is UseReencoded ==> (event == ReencodeEvent::ReencodedExists(true) || (state
                == ReencodeState::Renaming))
            &&& action matches ReencodeAction::Encode(rate) ==> (event matches ReencodeEvent::RawSize(size) && size
                >= FILE_SIZE_LIMIT_BYTES && rate == target_kilobits() / video_duration)
            &&& (event is Begin && !is_mp4) ==> action == ReencodeAction::Fail(ReencodeFailure::NotMp4)
        }),
{
}

/// What each finding leads to, with the upload limit of 8 MiB: a video that is
/// no `.mp4` fails at once; an existing re-encode is used; a downloaded file
/// under the limit is uploaded as it is, and one at or over the limit is
/// re-encoded at 28 672 kilobits (half of 7 MiB) spread over the video's
/// seconds; a failed or silent encoder fails the job; a re-encoded file under
/// the limit is kept (renamed, then used), and one at or over it fails as too
/// large.
pub proof fn law_reencode_decisions(is_mp4: bool, video_duration: u64, state: ReencodeState, event: ReencodeEvent)
    requires
        expects(state, event),
    ensures
        FILE_SIZE_LIMIT_BYTES == 8_388_608,
        ({
            let (next, action) = step_spec(is_mp4, video_duration, state, event);
            &&& event is Begin ==> action == (if is_mp4 {
                ReencodeAction::CheckReencoded
            } else {
                ReencodeAction::Fail(ReencodeFailure::NotMp4)
            })
            &&& event == ReencodeEvent::ReencodedExists(true) ==> action == ReencodeAction::UseReencoded
            &&& event == ReencodeEvent::ReencodedExists(false) ==> action == ReencodeAction::GetRawSize
            &&& forall|size: u64|
                event == ReencodeEvent::RawSize(size) ==> (size < 8_388_608 ==> action == ReencodeAction::UseRaw)
                    && (size >= 8_388_608 ==> action == ReencodeAction::Encode((28_672u64 / video_duration) as u64))
            &&& event == ReencodeEvent::EncodeExited(Some(true)) ==> action == ReencodeAction::Transcode
            &&& event == ReencodeEvent::TranscodeExited(Some(true)) ==> action == ReencodeAction::GetEncodedSize
            &&& (event == ReencodeEvent::EncodeExited(None) || event == ReencodeEvent::TranscodeExited(None))
                ==> action == ReencodeAction::Fail(ReencodeFailure::MissingExitStatus)
            &&& (event == ReencodeEvent::EncodeExited(Some(false)) || event == ReencodeEvent::TranscodeExited(
                Some(false),
            )) ==> action == ReencodeAction::Fail(ReencodeFailure::InvalidExitStatus)
            &&& forall|size: u64|
                event == ReencodeEvent::EncodedSize(size) ==> (action == ReencodeAction::Rename <==> size
                    < 8_388_608) && (action == ReencodeAction::Fail(ReencodeFailure::TooLarge(size)) <==> size
                    >= 8_388_608)
            &&& event is Renamed ==> action == ReencodeAction::UseReencoded
            &&& action == ReencodeAction::Rename ==> expects(next, ReencodeEvent::Renamed)
            &&& action == ReencodeAction::GetEncodedSize ==> forall|size: u64| expects(next, ReencodeEvent::EncodedSize(size))
        }),
{
}

} // verus!
