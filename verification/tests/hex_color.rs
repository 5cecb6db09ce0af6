use pikadick::hex::parse_hex_color;

#[test]
fn parses_colors() {
    assert_eq!(parse_hex_color("#B1E6AA"), Some(0xB1E6AA));
    assert_eq!(parse_hex_color("#b1e6aa"), Some(0xB1E6AA));
    assert_eq!(parse_hex_color("#0"), Some(0));
    assert_eq!(parse_hex_color("#+ff"), Some(255));
    assert_eq!(parse_hex_color("#FFFFFFFF"), Some(u32::MAX));
    assert_eq!(parse_hex_color("#00000000ff"), Some(255));
}

#[test]
fn refuses_non_colors() {
    assert_eq!(parse_hex_color("B1E6AA"), None);
    assert_eq!(parse_hex_color(""), None);
    assert_eq!(parse_hex_color("#"), None);
    assert_eq!(parse_hex_color("#+"), None);
    assert_eq!(parse_hex_color("#-1"), None);
    assert_eq!(parse_hex_color("#gg"), None);
    assert_eq!(parse_hex_color("# ff"), None);
    assert_eq!(parse_hex_color("#100000000"), None);
    assert_eq!(parse_hex_color("#ÿ"), None);
}

#[test]
fn agrees_with_from_str_radix() {
    let samples = [
        "#1", "#+1", "#++1", "#-", "#abcdef", "#ABCDEF", "#123456789", "#ffffffff", "#fffffffff", "#",
        "##1", "#1 ", "#0x1", "#+0", "#7fffffff", "#80000000", "#zz", "#è1",
    ];
    for s in samples {
        let expected = s.strip_prefix('#').and_then(|rest| u32::from_str_radix(rest, 16).ok());
        assert_eq!(parse_hex_color(s), expected, "{s}");
    }
}
