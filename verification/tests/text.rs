use pikadick::embed::EmbedPlan;
use pikadick::ffmpeg::{EncoderLineError, encoder_lines, encoders_from_listing, parse_encoder_line};
use pikadick::sqlite_log::{LogLevel, sqlite_log_level};
use pikadick::text::{str_ends_with, str_eq, u64_to_decimal};
use pikadick::urban::{UrbanDefinition, populate_embed, populate_embed_with_time, top_definition};
use pikadick::vaporwave::vaporwave_str;
use pikadick::zalgo::zalgo_marks;

fn vaporwave_reference(data: &str) -> String {
    data.chars()
        .map(|ch| {
            let ch_u32 = u32::from(ch);
            if (33..=270).contains(&ch_u32) {
                ch_u32.checked_add(65_248).and_then(char::from_u32).unwrap_or(ch)
            } else {
                ' '
            }
        })
        .collect()
}

#[test]
fn vaporwave() {
    assert_eq!(vaporwave_str("abc"), "ａｂｃ");
    assert_eq!(vaporwave_str("Hi there!"), "Ｈｉ ｔｈｅｒｅ！");
    assert_eq!(vaporwave_str(""), "");
    for s in ["\u{10e}\u{10f}", "tab\there\n", "ü ß 😀", "~ !"] {
        assert_eq!(vaporwave_str(s), vaporwave_reference(s), "{s}");
    }
}

fn zalgo_reference(phrase: &str, length: Option<u16>) -> usize {
    let output_length = length.unwrap_or(2_000);
    let phrase_length = phrase.chars().count();
    let total = (f64::from(output_length) - phrase_length as f64) / phrase_length as f64;
    (total / 3.0) as usize
}

#[test]
fn zalgo() {
    assert_eq!(zalgo_marks("hello", None), Some(133));
    assert_eq!(zalgo_marks("hello", Some(5)), None);
    assert_eq!(zalgo_marks("ab", Some(8)), Some(1));
    assert_eq!(zalgo_marks("ab", Some(7)), None);
    assert_eq!(zalgo_marks("", Some(0)), None);
    assert_eq!(zalgo_marks("", None), Some(usize::MAX));
    for phrase in ["a", "ab", "abc", "hello world", "ünïcödé", "x".repeat(700).as_str()] {
        for length in [None, Some(0), Some(1), Some(7), Some(100), Some(2_000), Some(u16::MAX)] {
            let expected = zalgo_reference(phrase, length);
            let expected = if expected == 0 { None } else { Some(expected) };
            assert_eq!(zalgo_marks(phrase, length), expected, "{phrase} {length:?}");
        }
    }
}

#[test]
fn strings() {
    assert!(str_eq("abc", "abc"));
    assert!(!str_eq("abc", "abd"));
    assert!(!str_eq("abc", "ab"));
    assert!(str_ends_with("x (codec h264)", "(codec h264)"));
    assert!(!str_ends_with("h264", "(codec h264)"));
    assert_eq!(u64_to_decimal(0), "0");
    assert_eq!(u64_to_decimal(1234567890), "1234567890");
    assert_eq!(u64_to_decimal(u64::MAX), u64::MAX.to_string());
}

#[test]
fn encoders_listing() {
    let stdout = "Encoders:\n V..... = Video\n A..... = Audio\n ------\n V....D libx264              libx264 H.264 (codec h264)\r\n A....D aac                  AAC (Advanced Audio Coding)\n\n";
    assert_eq!(
        encoder_lines(stdout),
        vec![
            "V....D libx264              libx264 H.264 (codec h264)".to_string(),
            "A....D aac                  AAC (Advanced Audio Coding)".to_string(),
            "".to_string(),
        ]
    );
    assert!(encoder_lines("no marker here\n").is_empty());
    assert!(encoder_lines("").is_empty());
    for s in [stdout, "------", "------\nx", "a\r\n------\r\n  b \u{a0}\r", "\n\n------\n\n"] {
        let expected: Vec<String> = s
            .lines()
            .map(|line| line.trim())
            .skip_while(|line| *line != "------")
            .skip(1)
            .map(str::to_string)
            .collect();
        assert_eq!(encoder_lines(s), expected, "{s:?}");
    }
}

#[test]
fn sqlite_levels() {
    assert_eq!(sqlite_log_level(27), LogLevel::Info);
    assert_eq!(sqlite_log_level(27 | (1 << 8)), LogLevel::Info);
    assert_eq!(sqlite_log_level(28), LogLevel::Warn);
    assert_eq!(sqlite_log_level(28 | (1 << 8)), LogLevel::Warn);
    assert_eq!(sqlite_log_level(0), LogLevel::Error);
    assert_eq!(sqlite_log_level(1), LogLevel::Error);
}

#[test]
fn urban_embed() {
    let entry = UrbanDefinition {
        word: "yeet".to_string(),
        permalink: "https://yeet.urbanup.com/1".to_string(),
        raw_definition: "to throw".to_string(),
        raw_example: "yeet it".to_string(),
        thumbs_up: 1200,
        thumbs_down: 34,
        written_on: "2014-05-01T00:00:00.000Z".to_string(),
    };
    let e = populate_embed(EmbedPlan::new(), &entry);
    assert_eq!(e.title.as_deref(), Some("yeet"));
    assert_eq!(e.url.as_deref(), Some("https://yeet.urbanup.com/1"));
    assert_eq!(e.timestamp, Some((1398902400, 0)));
    let fields: Vec<(&str, &str, bool)> = e.fields.iter().map(|f| (f.name.as_str(), f.value.as_str(), f.inline)).collect();
    assert_eq!(
        fields,
        vec![("Definition", "to throw", false), ("Example", "yeet it", false), ("👍", "1200", true), ("👎", "34", true)]
    );
    let list = vec![entry];
    assert_eq!(top_definition(&list).unwrap().word, "yeet");
    assert!(top_definition(&Vec::new()).is_none());
}

fn urban_entry(written_on: &str) -> UrbanDefinition {
    UrbanDefinition {
        word: "w".to_string(),
        permalink: "p".to_string(),
        raw_definition: "d".to_string(),
        raw_example: "e".to_string(),
        thumbs_up: 0,
        thumbs_down: 0,
        written_on: written_on.to_string(),
    }
}

#[test]
fn urban_embed_timestamp() {
    let e = populate_embed(EmbedPlan::new(), &urban_entry("2016-04-30T11:18:25.796Z"));
    assert_eq!(e.timestamp, Some((1462015105, 796_000_000)));
    let e = populate_embed(EmbedPlan::new(), &urban_entry("2016-04-30T13:18:25+02:00"));
    assert_eq!(e.timestamp, Some((1462015105, 0)));
    // Not RFC 3339: the embed keeps the time it had.
    let e = populate_embed(EmbedPlan::new(), &urban_entry("2016-04-30T11:18:25"));
    assert_eq!(e.timestamp, None);
    let e = populate_embed(EmbedPlan::new().timestamp((5, 6)), &urban_entry("yesterday"));
    assert_eq!(e.timestamp, Some((5, 6)));
    let e = populate_embed_with_time(EmbedPlan::new().timestamp((5, 6)), &urban_entry("x"), Some((7, 8)));
    assert_eq!(e.timestamp, Some((7, 8)));
    let e = populate_embed_with_time(EmbedPlan::new(), &urban_entry("x"), None);
    assert_eq!(e.timestamp, None);
}

#[test]
fn encoder_line_parsing() {
    let e = parse_encoder_line("V....D libx264              libx264 H.264 / AVC / MPEG-4 AVC (codec h264)  ").unwrap();
    assert_eq!(e.name, "libx264");
    assert_eq!(e.description, "libx264 H.264 / AVC / MPEG-4 AVC (codec h264)");
    let e = parse_encoder_line(" A....D aac  AAC (Advanced Audio Coding)").unwrap();
    assert_eq!(e.name, "aac");
    assert_eq!(e.description, "AAC (Advanced Audio Coding)");
    assert_eq!(parse_encoder_line("").unwrap_err(), EncoderLineError::MissingFlags);
    assert_eq!(parse_encoder_line("   ").unwrap_err(), EncoderLineError::MissingFlags);
    assert_eq!(parse_encoder_line("V....D").unwrap_err(), EncoderLineError::MissingName);
    assert_eq!(parse_encoder_line("V....D   ").unwrap_err(), EncoderLineError::MissingName);
    assert_eq!(parse_encoder_line("V....D libx264   ").unwrap_err(), EncoderLineError::MissingDescription);
}

#[test]
fn encoder_listing_parsing() {
    let out = "Encoders:\n V..... = Video\n ------\n V....D libx264  H.264 (codec h264)\r\n A....D aac  AAC\n";
    let encoders = encoders_from_listing(out).unwrap();
    let pairs: Vec<(&str, &str)> = encoders.iter().map(|e| (e.name.as_str(), e.description.as_str())).collect();
    assert_eq!(pairs, vec![("libx264", "H.264 (codec h264)"), ("aac", "AAC")]);
    assert!(encoders_from_listing("no marker\n V....D x y\n").unwrap().is_empty());
    let bad = " ------\n V....D libx264  H.264\n V....D broken\n V....D\n";
    assert_eq!(encoders_from_listing(bad).unwrap_err(), EncoderLineError::MissingDescription);
}
