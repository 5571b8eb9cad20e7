use pinta::text::split_lines;
use pinta::text::str_contains;
use pinta::wire::parse_session_line;
use pinta::wire::parse_session_lines;
use pinta::wire::parse_window_line;
use pinta::wire::parse_windows;

#[test]
fn session_line_splits_at_the_first_colon() {
    let (name, created) = parse_session_line("main:1700000000").unwrap();
    assert_eq!(name, "main");
    assert_eq!(created, "1700000000");
}

#[test]
fn session_line_keeps_later_colons_in_the_second_field() {
    let (name, created) = parse_session_line("a:b:c").unwrap();
    assert_eq!(name, "a");
    assert_eq!(created, "b:c");
}

#[test]
fn session_line_without_a_colon_is_malformed() {
    assert!(parse_session_line("nocolon").is_none());
}

#[test]
fn session_line_may_have_an_empty_name() {
    let (name, created) = parse_session_line(":123").unwrap();
    assert_eq!(name, "");
    assert_eq!(created, "123");
}

#[test]
fn window_line_reports_the_active_flag() {
    let w = parse_window_line("1:vim:1").unwrap();
    assert_eq!(w.index, "1");
    assert_eq!(w.name, "vim");
    assert!(w.active);
    let w = parse_window_line("2:shell:0").unwrap();
    assert_eq!(w.index, "2");
    assert_eq!(w.name, "shell");
    assert!(!w.active);
}

#[test]
fn window_line_with_one_colon_is_malformed() {
    assert!(parse_window_line("2:shell").is_none());
    assert!(parse_window_line("plain").is_none());
}

#[test]
fn window_line_extra_colons_stay_in_the_flag_field() {
    let w = parse_window_line("1:a:b:c").unwrap();
    assert_eq!(w.index, "1");
    assert_eq!(w.name, "a");
    assert!(!w.active);
}

#[test]
fn windows_output_skips_malformed_lines() {
    let ws = parse_windows("1:vim:1\n2:shell:0\nbad line\n3:logs:0\n");
    assert_eq!(ws.len(), 3);
    assert_eq!(ws[0].name, "vim");
    assert!(ws[0].active);
    assert_eq!(ws[1].name, "shell");
    assert_eq!(ws[2].name, "logs");
}

#[test]
fn windows_output_accepts_carriage_returns() {
    let ws = parse_windows("1:vim:1\r\n2:shell:0\r\n");
    assert_eq!(ws.len(), 2);
    assert!(ws[0].active);
    assert!(!ws[1].active);
}

#[test]
fn sessions_output_skips_malformed_lines() {
    let ss = parse_session_lines("alpha:100\nnocolon\nbeta:200\n");
    assert_eq!(ss.len(), 2);
    assert_eq!(ss[0].0, "alpha");
    assert_eq!(ss[0].1, "100");
    assert_eq!(ss[1].0, "beta");
    assert_eq!(ss[1].1, "200");
}

#[test]
fn empty_output_parses_to_nothing() {
    assert!(parse_session_lines("").is_empty());
    assert!(parse_windows("").is_empty());
}

#[test]
fn split_lines_uses_terminator_semantics() {
    assert_eq!(split_lines("a\nb"), vec!["a", "b"]);
    assert_eq!(split_lines("a\nb\n"), vec!["a", "b"]);
    assert_eq!(split_lines("\n"), vec![""]);
    assert_eq!(split_lines(""), Vec::<String>::new());
    assert_eq!(split_lines("a\r\nb"), vec!["a", "b"]);
}

#[test]
fn str_contains_finds_substrings() {
    assert!(str_contains("banana", "an"));
    assert!(str_contains("banana", ""));
    assert!(!str_contains("banana", "xyz"));
    assert!(!str_contains("", "a"));
    assert!(str_contains("", ""));
}
