use pikadick::reencode::{
    FILE_SIZE_LIMIT_BYTES, ReencodeAction, ReencodeEvent, ReencodeFailure, ReencodeJob, ReencodeState,
    reencode_file_names, url_is_mp4,
};

const MP4: &str = "https://v16.tiktokcdn.com/abc/video.mp4?x=1";

#[test]
fn mp4_urls() {
    assert!(url_is_mp4(MP4));
    assert!(url_is_mp4("https://example.com/a.b.mp4"));
    assert!(!url_is_mp4("https://example.com/video.webm"));
    assert!(!url_is_mp4("https://example.com/video"));
    assert!(!url_is_mp4("https://example.com/mp4"));
    assert!(!url_is_mp4("https://example.com/video.mp4/"));
    assert!(!url_is_mp4("not a url"));
}

#[test]
fn file_names() {
    let names = reencode_file_names(42);
    assert_eq!(names.raw, "42.mp4");
    assert_eq!(names.reencoded, "42-reencoded.mp4");
    assert_eq!(names.first_pass, "42-reencoded.1.tmp");
    assert_eq!(names.second_pass, "42-reencoded.2.tmp");
}

#[test]
fn not_mp4_fails() {
    let mut job = ReencodeJob::new("https://example.com/v.webm", 10);
    assert_eq!(job.step(ReencodeEvent::Begin), ReencodeAction::Fail(ReencodeFailure::NotMp4));
    assert_eq!(job.state, ReencodeState::Finished);
}

#[test]
fn cached_and_small_files() {
    let mut job = ReencodeJob::new(MP4, 10);
    assert_eq!(job.step(ReencodeEvent::Begin), ReencodeAction::CheckReencoded);
    assert_eq!(job.step(ReencodeEvent::ReencodedExists(true)), ReencodeAction::UseReencoded);

    let mut job = ReencodeJob::new(MP4, 10);
    job.step(ReencodeEvent::Begin);
    assert_eq!(job.step(ReencodeEvent::ReencodedExists(false)), ReencodeAction::GetRawSize);
    assert_eq!(job.step(ReencodeEvent::RawSize(FILE_SIZE_LIMIT_BYTES - 1)), ReencodeAction::UseRaw);
}

#[test]
fn full_reencode() {
    let mut job = ReencodeJob::new(MP4, 60);
    job.step(ReencodeEvent::Begin);
    job.step(ReencodeEvent::ReencodedExists(false));
    assert_eq!(job.step(ReencodeEvent::RawSize(FILE_SIZE_LIMIT_BYTES)), ReencodeAction::Encode(477));
    assert_eq!(job.step(ReencodeEvent::EncodeExited(Some(true))), ReencodeAction::Transcode);
    assert_eq!(job.step(ReencodeEvent::TranscodeExited(Some(true))), ReencodeAction::GetEncodedSize);
    assert_eq!(job.step(ReencodeEvent::EncodedSize(1024)), ReencodeAction::Rename);
    assert_eq!(job.step(ReencodeEvent::Renamed), ReencodeAction::UseReencoded);
    assert_eq!(job.state, ReencodeState::Finished);
}

#[test]
fn reencode_failures() {
    let start = |duration| {
        let mut job = ReencodeJob::new(MP4, duration);
        job.step(ReencodeEvent::Begin);
        job.step(ReencodeEvent::ReencodedExists(false));
        job.step(ReencodeEvent::RawSize(9 * 1024 * 1024));
        job
    };
    assert_eq!(start(1).step(ReencodeEvent::EncodeExited(None)), ReencodeAction::Fail(ReencodeFailure::MissingExitStatus));
    assert_eq!(start(1).step(ReencodeEvent::EncodeExited(Some(false))), ReencodeAction::Fail(ReencodeFailure::InvalidExitStatus));
    let mut job = start(1);
    job.step(ReencodeEvent::EncodeExited(Some(true)));
    assert_eq!(job.step(ReencodeEvent::TranscodeExited(Some(false))), ReencodeAction::Fail(ReencodeFailure::InvalidExitStatus));
    let mut job = start(1);
    job.step(ReencodeEvent::EncodeExited(Some(true)));
    job.step(ReencodeEvent::TranscodeExited(Some(true)));
    assert_eq!(
        job.step(ReencodeEvent::EncodedSize(FILE_SIZE_LIMIT_BYTES)),
        ReencodeAction::Fail(ReencodeFailure::TooLarge(FILE_SIZE_LIMIT_BYTES))
    );
}
