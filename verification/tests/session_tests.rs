use pinta::session::check_sessions_fit;
use pinta::session::line_offset;
use pinta::session::SessionTreeState;
use pinta::session::TmuxSession;
use pinta::session::TmuxWindow;

fn window(index: &str, name: &str) -> TmuxWindow {
    TmuxWindow { index: index.to_string(), name: name.to_string(), active: false }
}

fn session(name: &str, window_count: usize) -> TmuxSession {
    let mut windows = Vec::new();
    for k in 0..window_count {
        windows.push(window(&k.to_string(), "shell"));
    }
    TmuxSession {
        name: name.to_string(),
        date_created: "2021-01-01 00:00:00".to_string(),
        windows,
    }
}

#[test]
fn line_offsets_are_prefix_sums_of_heights() {
    let sessions = vec![session("a", 2), session("b", 0), session("c", 1)];
    assert_eq!(line_offset(&sessions, 0), 0);
    assert_eq!(line_offset(&sessions, 1), 4);
    assert_eq!(line_offset(&sessions, 2), 6);
    assert_eq!(line_offset(&sessions, 3), 9);
}

#[test]
fn selecting_last_session_scrolls_its_block_into_view() {
    let sessions = vec![session("a", 2), session("b", 0), session("c", 1)];
    let mut t = SessionTreeState { selected: 1, scroll: 0, viewport: 3 };
    t.move_next(&sessions);
    assert_eq!(t.selected, 2);
    assert_eq!(t.scroll, 6);
}

#[test]
fn session_wrap_down_scrolls_back_to_top() {
    let sessions = vec![session("a", 2), session("b", 0), session("c", 1)];
    let mut t = SessionTreeState { selected: 2, scroll: 6, viewport: 3 };
    t.move_next(&sessions);
    assert_eq!(t.selected, 0);
    assert_eq!(t.scroll, 0);
}

#[test]
fn session_wrap_up_scrolls_last_block_into_view() {
    let sessions = vec![session("a", 2), session("b", 0), session("c", 1)];
    let mut t = SessionTreeState { selected: 0, scroll: 0, viewport: 3 };
    t.move_prev(&sessions);
    assert_eq!(t.selected, 2);
    assert_eq!(t.scroll, 6);
}

#[test]
fn empty_session_list_navigation_is_a_no_op() {
    let sessions: Vec<TmuxSession> = Vec::new();
    let mut t = SessionTreeState::new();
    t.move_next(&sessions);
    t.move_prev(&sessions);
    assert_eq!(t.selected, 0);
    assert_eq!(t.scroll, 0);
}

#[test]
fn small_session_lists_fit() {
    let sessions = vec![session("a", 3), session("b", 7)];
    assert!(check_sessions_fit(&sessions));
}
