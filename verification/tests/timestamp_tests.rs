use pinta::timestamp::parse_epoch_seconds;
use pinta::timestamp::parse_tmux_timestamp;
use pinta::timestamp::timestamp_display;

#[test]
fn plain_decimal_counts_parse() {
    assert_eq!(parse_epoch_seconds("0"), Some(0));
    assert_eq!(parse_epoch_seconds("123"), Some(123));
    assert_eq!(parse_epoch_seconds("007"), Some(7));
    assert_eq!(parse_epoch_seconds("1700000000"), Some(1700000000));
}

#[test]
fn signed_counts_parse() {
    assert_eq!(parse_epoch_seconds("-5"), Some(-5));
    assert_eq!(parse_epoch_seconds("+7"), Some(7));
}

#[test]
fn the_type_bounds_are_exact() {
    assert_eq!(parse_epoch_seconds("9223372036854775807"), Some(i64::MAX));
    assert_eq!(parse_epoch_seconds("9223372036854775808"), None);
    assert_eq!(parse_epoch_seconds("-9223372036854775808"), Some(i64::MIN));
    assert_eq!(parse_epoch_seconds("-9223372036854775809"), None);
    assert_eq!(parse_epoch_seconds("99999999999999999999999"), None);
}

#[test]
fn malformed_counts_do_not_parse() {
    assert_eq!(parse_epoch_seconds(""), None);
    assert_eq!(parse_epoch_seconds("+"), None);
    assert_eq!(parse_epoch_seconds("-"), None);
    assert_eq!(parse_epoch_seconds("12a"), None);
    assert_eq!(parse_epoch_seconds("a12"), None);
    assert_eq!(parse_epoch_seconds(" 12"), None);
    assert_eq!(parse_epoch_seconds("1 2"), None);
    assert_eq!(parse_epoch_seconds("--1"), None);
}

#[test]
fn malformed_timestamps_render_as_the_placeholder() {
    assert_eq!(parse_tmux_timestamp("garbage"), "Invalid timestamp");
    assert_eq!(parse_tmux_timestamp(""), "Invalid timestamp");
    assert_eq!(parse_tmux_timestamp("12.5"), "Invalid timestamp");
}

#[test]
fn valid_timestamps_render_in_the_date_time_shape() {
    let rendered = parse_tmux_timestamp("1000000000");
    assert_ne!(rendered, "Invalid timestamp");
    assert_eq!(rendered.len(), 19);
    assert_eq!(rendered.as_bytes()[4], b'-');
    assert_eq!(rendered.as_bytes()[7], b'-');
    assert_eq!(rendered.as_bytes()[10], b' ');
    assert_eq!(rendered.as_bytes()[13], b':');
    assert_eq!(rendered.as_bytes()[16], b':');
}

#[test]
fn display_text_falls_back_to_the_placeholder() {
    assert_eq!(timestamp_display(Some("2021-01-01 00:00:00".to_string())), "2021-01-01 00:00:00");
    assert_eq!(timestamp_display(None), "Invalid timestamp");
}
