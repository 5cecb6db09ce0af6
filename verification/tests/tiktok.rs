use pikadick::flags::{FlagsColumnError, TikTokEmbedFlags, bool_to_str, embed_flag_changes};
use pikadick::tiktok::{
    EncoderInfo, FeedPostError, VideoIdError, calc_target_bitrate, check_feed_post, parse_u64,
    select_best_encoder, video_id_from_url,
};

#[test]
fn video_ids() {
    assert_eq!(video_id_from_url("https://www.tiktok.com/@user/video/7106594312292453675"), Ok(7106594312292453675));
    assert_eq!(video_id_from_url("https://www.tiktok.com/@user/video/7106594312292453675?lang=en"), Ok(7106594312292453675));
    assert_eq!(video_id_from_url("not a url"), Err(VideoIdError::InvalidUrl));
    assert_eq!(video_id_from_url("https://www.tiktok.com/@user/video/abc"), Err(VideoIdError::InvalidVideoId));
    assert_eq!(video_id_from_url("https://www.tiktok.com/"), Err(VideoIdError::InvalidVideoId));
    assert_eq!(video_id_from_url("mailto:someone"), Err(VideoIdError::MissingPath));
}

#[test]
fn parses_u64_like_str_parse() {
    for s in ["0", "+5", "18446744073709551615", "18446744073709551616", "", "+", "-1", " 1", "1 ", "007", "++1", "١"] {
        assert_eq!(parse_u64(s), s.parse::<u64>().ok(), "{s}");
    }
}

#[test]
fn bitrate() {
    assert_eq!(calc_target_bitrate(28672, 60), 477);
    assert_eq!(calc_target_bitrate(10, 20), 0);
}

fn enc(name: &str, description: &str) -> EncoderInfo {
    EncoderInfo { name: name.to_string(), description: description.to_string() }
}

#[test]
fn best_encoder() {
    let list = vec![
        enc("libx264", "libx264 H.264 / AVC / MPEG-4 AVC / MPEG-4 part 10 (codec h264)"),
        enc("h264_vaapi", "H.264/AVC (VAAPI) (codec h264)"),
        enc("h264_nvenc", "NVIDIA NVENC H.264 encoder"),
        enc("libx265", "libx265 H.265 / HEVC (codec hevc)"),
    ];
    assert_eq!(select_best_encoder(&list), Some("h264_vaapi"));
    let list = vec![enc("libx264rgb", "libx264 H.264 RGB (codec h264)"), enc("libx264", "x (codec h264)")];
    assert_eq!(select_best_encoder(&list), Some("libx264"));
    let list = vec![enc("h264_nvenc", "NVIDIA NVENC H.264 encoder"), enc("mystery", "m (codec h264)")];
    assert_eq!(select_best_encoder(&list), None);
    assert_eq!(select_best_encoder(&Vec::new()), None);
}

#[test]
fn feed_post_checks() {
    assert_eq!(check_feed_post(&vec![], 1), Err(FeedPostError::MissingPost));
    assert_eq!(check_feed_post(&vec![2, 1], 1), Err(FeedPostError::WrongPost));
    assert_eq!(check_feed_post(&vec![1, 2], 1), Ok(()));
}

#[test]
fn flags_bits() {
    let mut f = TikTokEmbedFlags::empty();
    assert_eq!(f.bits(), 0);
    assert!(!f.contains(TikTokEmbedFlags::enabled()));
    f.insert(TikTokEmbedFlags::enabled());
    f.insert(TikTokEmbedFlags::delete_link());
    assert_eq!(f.bits(), 3);
    assert!(f.contains(TikTokEmbedFlags::enabled()) && f.contains(TikTokEmbedFlags::delete_link()));
    f.remove(TikTokEmbedFlags::enabled());
    assert_eq!(f.bits(), 2);
    assert_eq!(TikTokEmbedFlags::default().bits(), 0);
    assert_eq!(TikTokEmbedFlags::from_bits(3).map(|f| f.bits()), Some(3));
    assert!(TikTokEmbedFlags::from_bits(4).is_none());
}

#[test]
fn flags_columns() {
    assert_eq!(TikTokEmbedFlags::from_column_value(3).unwrap().bits(), 3);
    assert_eq!(TikTokEmbedFlags::from_column_value(-1).unwrap_err(), FlagsColumnError::OutOfRange(-1));
    assert_eq!(TikTokEmbedFlags::from_column_value(1 << 32).unwrap_err(), FlagsColumnError::OutOfRange(1 << 32));
    assert_eq!(TikTokEmbedFlags::from_column_value(4).unwrap_err(), FlagsColumnError::OutOfRange(4));
    let f = TikTokEmbedFlags::from_column_value(2).unwrap();
    assert_eq!(TikTokEmbedFlags::from_column_value(f.to_column_value()).unwrap(), f);
}

#[test]
fn flag_changes() {
    let (set, unset) = embed_flag_changes(Some(true), Some(false));
    assert_eq!((set.bits(), unset.bits()), (1, 2));
    let (set, unset) = embed_flag_changes(None, Some(true));
    assert_eq!((set.bits(), unset.bits()), (2, 0));
    let (set, unset) = embed_flag_changes(Some(false), Some(false));
    assert_eq!((set.bits(), unset.bits()), (0, 3));
    let (set, unset) = embed_flag_changes(None, None);
    assert_eq!((set.bits(), unset.bits()), (0, 0));
    assert_eq!(bool_to_str(true), "True");
    assert_eq!(bool_to_str(false), "False");
}
