use ev3robot::calibration::{
    get_saved_background, get_saved_color, get_saved_foreground, parse_i32, save_background,
    save_color, save_foreground,
};

#[test]
fn foreground_round_trip() {
    let text = save_foreground(&(10, 20, 30));
    assert_eq!(text, b"10;20;30".to_vec());
    assert_eq!(get_saved_foreground(Some(text.as_slice())), (10, 20, 30));
}

#[test]
fn background_round_trip_with_extremes() {
    let c = (i32::MIN, 0, i32::MAX);
    let text = save_background(&c);
    assert_eq!(text, b"-2147483648;0;2147483647".to_vec());
    assert_eq!(get_saved_background(Some(text.as_slice())), c);
}

#[test]
fn missing_or_corrupt_gives_default() {
    assert_eq!(get_saved_foreground(None), (20, 20, 20));
    assert_eq!(get_saved_background(None), (200, 200, 200));
    assert_eq!(get_saved_foreground(Some(&b"garbage"[..])), (20, 20, 20));
    assert_eq!(get_saved_foreground(Some(&b"1;2"[..])), (20, 20, 20));
    assert_eq!(get_saved_foreground(Some(&b"1;x;3"[..])), (20, 20, 20));
    assert_eq!(get_saved_foreground(Some(&b"1;2;3;4"[..])), (20, 20, 20));
    assert_eq!(get_saved_background(Some(&b""[..])), (200, 200, 200));
    assert_eq!(get_saved_background(Some(&b"1;2;99999999999"[..])), (200, 200, 200));
}

#[test]
fn surrounding_white_space_is_trimmed() {
    assert_eq!(get_saved_color(Some(&b"  7;8;9\n"[..]), 0), (7, 8, 9));
    assert_eq!(get_saved_color(Some(&b"+7;-8;09\r\n"[..]), 0), (7, -8, 9));
    assert_eq!(get_saved_color(Some(&b"7 ;8;9"[..]), 5), (5, 5, 5));
}

#[test]
fn integers_parse_like_i32() {
    assert_eq!(parse_i32(b"0"), Some(0));
    assert_eq!(parse_i32(b"-17"), Some(-17));
    assert_eq!(parse_i32(b"+17"), Some(17));
    assert_eq!(parse_i32(b"2147483647"), Some(i32::MAX));
    assert_eq!(parse_i32(b"-2147483648"), Some(i32::MIN));
    assert_eq!(parse_i32(b"2147483648"), None);
    assert_eq!(parse_i32(b"00000000000000000012"), Some(12));
    assert_eq!(parse_i32(b""), None);
    assert_eq!(parse_i32(b"-"), None);
    assert_eq!(parse_i32(b"1a"), None);
}

#[test]
fn save_negative_color() {
    assert_eq!(save_color(&(-5, 120, 7)), b"-5;120;7".to_vec());
}
