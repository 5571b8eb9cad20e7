use pinta::app::App;
use pinta::input::Action;
use pinta::input::KeyInput;
use pinta::input::Tab;
use pinta::search::DirEntry;
use pinta::session::TmuxSession;

fn entry(name: &str, is_dir: bool) -> DirEntry {
    DirEntry { name: name.to_string(), is_dir }
}

fn session(name: &str) -> TmuxSession {
    TmuxSession {
        name: name.to_string(),
        date_created: "2021-01-01 00:00:00".to_string(),
        windows: Vec::new(),
    }
}

#[test]
fn quit_key_sets_exit() {
    let mut app = App::new();
    let action = app.handle_key(KeyInput::Char('q'));
    assert!(app.exit);
    assert_eq!(action, Action::Idle);
}

#[test]
fn help_overlay_routes_keys_before_the_tab() {
    let mut app = App::new();
    app.change_directory(vec![entry("a", false), entry("b", false)]);
    app.handle_key(KeyInput::Char('H'));
    assert!(app.show_help);
    app.help_list.set_total(5);
    app.help_list.set_viewport(3);
    app.handle_key(KeyInput::Char('j'));
    assert_eq!(app.help_list.selected, 1);
    assert_eq!(app.directories_list.selected, 0);
    app.handle_key(KeyInput::Char('2'));
    assert_eq!(app.help_selected_tab, 1);
    assert_eq!(app.selected_tab, Tab::Directories);
    app.handle_key(KeyInput::Char('H'));
    assert!(!app.show_help);
}

#[test]
fn help_categories_cycle_both_ways() {
    let mut app = App::new();
    app.handle_key(KeyInput::Char('H'));
    app.handle_key(KeyInput::Char('h'));
    assert_eq!(app.help_selected_tab, 3);
    app.handle_key(KeyInput::Char('l'));
    assert_eq!(app.help_selected_tab, 0);
    app.handle_key(KeyInput::Char('4'));
    assert_eq!(app.help_selected_tab, 3);
}

#[test]
fn search_input_routes_keys_before_the_tab() {
    let mut app = App::new();
    app.change_directory(vec![entry("q", false)]);
    app.handle_key(KeyInput::Char('/'));
    let action = app.handle_key(KeyInput::Char('q'));
    assert!(!app.exit);
    assert_eq!(action, Action::Idle);
    assert_eq!(app.searched_string, "q");
    assert_eq!(app.search_matches, vec![0]);
}

#[test]
fn toggling_hidden_requests_a_reload() {
    let mut app = App::new();
    assert!(!app.show_hidden);
    let action = app.handle_key(KeyInput::Char('A'));
    assert!(app.show_hidden);
    assert_eq!(action, Action::ReloadListing);
}

#[test]
fn parent_key_requests_the_parent_directory() {
    let mut app = App::new();
    let action = app.handle_key(KeyInput::Left);
    assert_eq!(action, Action::GoToParent);
}

#[test]
fn open_key_enters_only_directories() {
    let mut app = App::new();
    app.change_directory(vec![entry("notes.txt", false), entry("src", true)]);
    assert_eq!(app.handle_key(KeyInput::Right), Action::Idle);
    app.handle_key(KeyInput::Down);
    assert_eq!(app.handle_key(KeyInput::Right), Action::EnterDirectory(1));
}

#[test]
fn open_key_on_an_empty_listing_does_nothing() {
    let mut app = App::new();
    assert_eq!(app.handle_key(KeyInput::Right), Action::Idle);
    assert!(!app.exit);
}

#[test]
fn attach_key_on_directories_tab_is_terminal() {
    let mut app = App::new();
    let action = app.handle_key(KeyInput::Char('t'));
    assert_eq!(action, Action::AttachCurrentDirectory);
    assert!(app.exit);
}

#[test]
fn attach_key_on_sessions_tab_names_the_selected_session() {
    let mut app = App::new();
    app.set_sessions(vec![session("one"), session("two")]).unwrap();
    app.handle_key(KeyInput::Char('2'));
    assert_eq!(app.selected_tab, Tab::Sessions);
    app.handle_key(KeyInput::Char('j'));
    let action = app.handle_key(KeyInput::Char('t'));
    assert_eq!(action, Action::AttachSession(1));
    assert!(app.exit);
}

#[test]
fn attach_key_without_sessions_does_nothing() {
    let mut app = App::new();
    app.handle_key(KeyInput::Char('2'));
    let action = app.handle_key(KeyInput::Char('t'));
    assert_eq!(action, Action::Idle);
    assert!(!app.exit);
}

#[test]
fn switching_tabs_preserves_each_tabs_state() {
    let mut app = App::new();
    app.change_directory(vec![entry("a", false), entry("b", false), entry("c", false)]);
    app.set_sessions(vec![session("one"), session("two")]).unwrap();
    app.handle_key(KeyInput::Down);
    app.handle_key(KeyInput::Down);
    assert_eq!(app.directories_list.selected, 2);
    app.handle_key(KeyInput::Char('2'));
    app.handle_key(KeyInput::Char('j'));
    assert_eq!(app.tmux_tree.selected, 1);
    app.handle_key(KeyInput::Char('1'));
    assert_eq!(app.selected_tab, Tab::Directories);
    assert_eq!(app.directories_list.selected, 2);
    app.handle_key(KeyInput::Char('2'));
    assert_eq!(app.tmux_tree.selected, 1);
}

#[test]
fn directory_change_discards_search_and_jumps_are_no_ops() {
    let mut app = App::new();
    app.change_directory(vec![entry("alpha", false), entry("beta", false)]);
    app.handle_key(KeyInput::Char('/'));
    app.handle_key(KeyInput::Char('a'));
    app.handle_key(KeyInput::Enter);
    assert!(!app.search_matches.is_empty());
    app.change_directory(vec![entry("gamma", false)]);
    assert_eq!(app.searched_string, "");
    assert!(app.search_matches.is_empty());
    assert_eq!(app.search_match_index, None);
    assert_eq!(app.directories_list.selected, 0);
    assert_eq!(app.directories_list.scroll, 0);
    app.handle_key(KeyInput::Char('n'));
    app.handle_key(KeyInput::Char('N'));
    assert_eq!(app.directories_list.selected, 0);
    assert_eq!(app.search_match_index, None);
}

#[test]
fn new_listing_resets_selection_and_total() {
    let mut app = App::new();
    app.change_directory(vec![entry("a", false), entry("b", false)]);
    app.handle_key(KeyInput::Down);
    app.change_directory(vec![entry("x", false), entry("y", false), entry("z", false)]);
    assert_eq!(app.directories_list.selected, 0);
    assert_eq!(app.directories_list.total, 3);
}

#[test]
fn set_sessions_resets_the_tree_selection() {
    let mut app = App::new();
    app.set_sessions(vec![session("one"), session("two")]).unwrap();
    app.handle_key(KeyInput::Char('2'));
    app.handle_key(KeyInput::Char('j'));
    assert_eq!(app.tmux_tree.selected, 1);
    app.set_sessions(vec![session("three")]).unwrap();
    assert_eq!(app.tmux_tree.selected, 0);
    assert_eq!(app.tmux_tree.scroll, 0);
    assert_eq!(app.tmux_sessions.len(), 1);
}
