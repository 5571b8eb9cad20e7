use pinta::list::ListState;

#[test]
fn wrap_down_snaps_scroll_to_top() {
    let mut l = ListState { selected: 4, scroll: 3, total: 5, viewport: 2 };
    l.move_next();
    assert_eq!(l.selected, 0);
    assert_eq!(l.scroll, 0);
}

#[test]
fn wrap_up_snaps_scroll_to_bottom() {
    let mut l = ListState { selected: 0, scroll: 0, total: 10, viewport: 4 };
    l.move_prev();
    assert_eq!(l.selected, 9);
    assert_eq!(l.scroll, 6);
}

#[test]
fn full_cycle_restores_selection_and_snaps_scroll() {
    let mut l = ListState { selected: 3, scroll: 1, total: 5, viewport: 2 };
    for _ in 0..5 {
        l.move_next();
    }
    assert_eq!(l.selected, 3);
    assert_eq!(l.scroll, 2);
}

#[test]
fn move_prev_undoes_interior_move_next() {
    let mut l = ListState { selected: 1, scroll: 0, total: 5, viewport: 3 };
    l.move_next();
    l.move_prev();
    assert_eq!(l.selected, 1);
}

#[test]
fn move_next_scrolls_one_row_past_viewport() {
    let mut l = ListState { selected: 2, scroll: 0, total: 10, viewport: 3 };
    l.move_next();
    assert_eq!(l.selected, 3);
    assert_eq!(l.scroll, 1);
}

#[test]
fn move_prev_scrolls_one_row_above_viewport() {
    let mut l = ListState { selected: 3, scroll: 3, total: 10, viewport: 3 };
    l.move_prev();
    assert_eq!(l.selected, 2);
    assert_eq!(l.scroll, 2);
}

#[test]
fn ensure_visible_is_idempotent() {
    let mut l = ListState { selected: 0, scroll: 5, total: 20, viewport: 4 };
    l.ensure_visible(10);
    assert_eq!(l.scroll, 7);
    l.ensure_visible(10);
    assert_eq!(l.scroll, 7);
}

#[test]
fn ensure_visible_scrolls_up_to_index() {
    let mut l = ListState { selected: 0, scroll: 5, total: 20, viewport: 4 };
    l.ensure_visible(2);
    assert_eq!(l.scroll, 2);
    l.ensure_visible(2);
    assert_eq!(l.scroll, 2);
}

#[test]
fn set_total_clamps_selection_and_scroll() {
    let mut l = ListState { selected: 9, scroll: 6, total: 10, viewport: 4 };
    l.set_total(3);
    assert_eq!(l.total, 3);
    assert_eq!(l.selected, 2);
    assert_eq!(l.scroll, 0);
}

#[test]
fn set_viewport_reclamps_scroll() {
    let mut l = ListState { selected: 0, scroll: 6, total: 10, viewport: 4 };
    l.set_viewport(8);
    assert_eq!(l.viewport, 8);
    assert_eq!(l.scroll, 2);
}

#[test]
fn empty_list_navigation_is_a_no_op() {
    let mut l = ListState::new();
    l.move_next();
    l.move_prev();
    assert_eq!(l.selected, 0);
    assert_eq!(l.scroll, 0);
    assert_eq!(l.total, 0);
}
