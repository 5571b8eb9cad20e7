//! The interface state and its input routing: one state machine over the
//! two tabs, the help overlay and the search overlay. A key is routed with
//! help first, then search input, then the active tab; the handler mutates
//! the state and hands back the one provider operation, if any, that the
//! caller must perform.

use crate::input::is_control_char;
use crate::input::whitespace_char;
use crate::input::Action;
use crate::input::KeyInput;
use crate::input::Tab;
use crate::input::check_control_char;
use crate::input::check_whitespace_char;
use crate::list::ListState;
use crate::search::match_indices;
use crate::search::lemma_match_indices_in_bounds;
use crate::search::compute_matches;
use crate::search::DirEntry;
use crate::session::check_sessions_fit;
use crate::session::lemma_line_offset_monotonic;
use crate::session::sessions_fit;
use crate::session::SessionTreeState;
use crate::session::TmuxSession;
use vstd::prelude::*;

verus! {

/// The mathematical shadow of the interface state: text as character
/// sequences, collections as sequences, everything else as itself.
#[verifier::ext_equal]
pub struct AppView {
    pub show_help: bool,
    pub selected_tab: Tab,
    pub show_hidden: bool,
    pub searching: bool,
    pub query: Seq<char>,
    pub matches: Seq<usize>,
    pub cursor: Option<usize>,
    pub help_tab: int,
    pub help_list: ListState,
    pub dir_list: ListState,
    pub tree: SessionTreeState,
    pub entries: Seq<DirEntry>,
    pub sessions: Seq<TmuxSession>,
    pub exit: bool,
}

/// Every index of `matches` addresses one of the `n` listing entries.
pub open spec fn matches_in_bounds(matches: Seq<usize>, n: int) -> bool {
    forall|k: int| 0 <= k < matches.len() ==> (matches[k] as int) < n
}

impl AppView {
    /// Well-formedness: the overlay and list states address the data they
    /// are views of.
    pub open spec fn wf(self) -> bool {
        &&& 0 <= self.help_tab < 4
        &&& self.help_list.wf()
        &&& self.dir_list.wf()
        &&& self.dir_list.total == self.entries.len()
        &&& self.tree.wf(self.sessions)
        &&& matches_in_bounds(self.matches, self.entries.len() as int)
        &&& (self.cursor matches Some(c) ==> (c as int) < self.matches.len())
    }
}

/// A list with the selection moved to `index`, before any scrolling.
pub open spec fn with_selected(l: ListState, index: usize) -> ListState {
    ListState { selected: index, ..l }
}

/// Select match `idx` of the match list: move the match cursor, jump the
/// directory selection to that entry, and scroll it into view.
pub open spec fn jump_v(v: AppView, idx: usize) -> AppView {
    AppView {
        cursor: Some(idx),
        dir_list: with_selected(v.dir_list, v.matches[idx as int]).ensure_visible_s(
            v.matches[idx as int],
        ),
        ..v
    }
}

/// The match cursor one step forward, cyclically; with no cursor yet, the
/// first match.
pub open spec fn next_cursor(cur: Option<usize>, len: int) -> usize {
    match cur {
        Some(i) => if i + 1 == len {
            0
        } else {
            (i + 1) as usize
        },
        None => 0,
    }
}

/// The match cursor one step back, cyclically; with no cursor yet, the
/// last match.
pub open spec fn prev_cursor(cur: Option<usize>, len: int) -> usize {
    match cur {
        Some(i) => if i == 0 {
            (len - 1) as usize
        } else {
            (i - 1) as usize
        },
        None => (len - 1) as usize,
    }
}

/// What advancing to the next search match does; nothing without matches.
pub open spec fn jump_next_v(v: AppView) -> AppView {
    if v.matches.len() == 0 {
        v
    } else {
        jump_v(v, next_cursor(v.cursor, v.matches.len() as int))
    }
}

/// What retreating to the previous search match does; nothing without
/// matches.
pub open spec fn jump_prev_v(v: AppView) -> AppView {
    if v.matches.len() == 0 {
        v
    } else {
        jump_v(v, prev_cursor(v.cursor, v.matches.len() as int))
    }
}

/// What recomputing the search does: an empty query clears the match list
/// and touches nothing else; otherwise the matches are exactly the
/// entries containing the case-folded query, and when there are any, the
/// selection jumps to the first.
pub open spec fn recompute_v(v: AppView) -> AppView {
    if v.query.len() == 0 {
        AppView { matches: Seq::empty(), cursor: None, ..v }
    } else {
        let ms = match_indices(v.entries, v.query);
        if ms.len() > 0 {
            AppView {
                matches: ms,
                cursor: Some(0),
                dir_list: with_selected(v.dir_list, ms[0]).ensure_visible_s(ms[0]),
                ..v
            }
        } else {
            AppView { matches: ms, cursor: None, ..v }
        }
    }
}

/// The request that the open key produces: enter the selected entry when
/// it is a directory, nothing otherwise.
pub open spec fn enter_action_v(v: AppView) -> Action {
    if v.entries.len() > 0 && v.entries[v.dir_list.selected as int].is_dir {
        Action::EnterDirectory(v.dir_list.selected)
    } else {
        Action::Idle
    }
}

/// One key on the directories tab.
pub open spec fn step_directories(v: AppView, key: KeyInput) -> (AppView, Action) {
    match key {
        KeyInput::Char(c) => if c == 'q' {
            (AppView { exit: true, ..v }, Action::Idle)
        } else if c == 'H' {
            (AppView { show_help: !v.show_help, ..v }, Action::Idle)
        } else if c == '2' {
            (AppView { selected_tab: Tab::Sessions, ..v }, Action::Idle)
        } else if c == '/' {
            (
                AppView {
                    searching: true,
                    query: Seq::empty(),
                    matches: Seq::empty(),
                    cursor: None,
                    ..v
                },
                Action::Idle,
            )
        } else if c == 'j' {
            (AppView { dir_list: v.dir_list.move_next_s(), ..v }, Action::Idle)
        } else if c == 'k' {
            (AppView { dir_list: v.dir_list.move_prev_s(), ..v }, Action::Idle)
        } else if c == 'n' {
            (jump_next_v(v), Action::Idle)
        } else if c == 'N' {
            (jump_prev_v(v), Action::Idle)
        } else if c == 'A' {
            (AppView { show_hidden: !v.show_hidden, ..v }, Action::ReloadListing)
        } else if c == 'h' {
            (v, Action::GoToParent)
        } else if c == 'l' {
            (v, enter_action_v(v))
        } else if c == 't' {
            (AppView { exit: true, ..v }, Action::AttachCurrentDirectory)
        } else {
            (v, Action::Idle)
        },
        KeyInput::Down => (AppView { dir_list: v.dir_list.move_next_s(), ..v }, Action::Idle),
        KeyInput::Up => (AppView { dir_list: v.dir_list.move_prev_s(), ..v }, Action::Idle),
        KeyInput::Left => (v, Action::GoToParent),
        KeyInput::Right => (v, enter_action_v(v)),
        _ => (v, Action::Idle),
    }
}

/// One key on the sessions tab.
pub open spec fn step_sessions(v: AppView, key: KeyInput) -> (AppView, Action) {
    match key {
        KeyInput::Char(c) => if c == 'q' {
            (AppView { exit: true, ..v }, Action::Idle)
        } else if c == 'H' {
            (AppView { show_help: !v.show_help, ..v }, Action::Idle)
        } else if c == '1' {
            (AppView { selected_tab: Tab::Directories, ..v }, Action::Idle)
        } else if c == 'j' {
            (AppView { tree: v.tree.move_next_s(v.sessions), ..v }, Action::Idle)
        } else if c == 'k' {
            (AppView { tree: v.tree.move_prev_s(v.sessions), ..v }, Action::Idle)
        } else if c == 't' {
            if v.sessions.len() > 0 {
                (AppView { exit: true, ..v }, Action::AttachSession(v.tree.selected))
            } else {
                (v, Action::Idle)
            }
        } else {
            (v, Action::Idle)
        },
        KeyInput::Down => (AppView { tree: v.tree.move_next_s(v.sessions), ..v }, Action::Idle),
        KeyInput::Up => (AppView { tree: v.tree.move_prev_s(v.sessions), ..v }, Action::Idle),
        _ => (v, Action::Idle),
    }
}

/// One key while the help overlay is open.
pub open spec fn step_help(v: AppView, key: KeyInput) -> (AppView, Action) {
    match key {
        KeyInput::Char(c) => if c == 'q' || c == 'H' {
            (AppView { show_help: !v.show_help, ..v }, Action::Idle)
        } else if c == 'j' {
            (AppView { help_list: v.help_list.move_next_s(), ..v }, Action::Idle)
        } else if c == 'k' {
            (AppView { help_list: v.help_list.move_prev_s(), ..v }, Action::Idle)
        } else if c == '1' {
            (AppView { help_tab: 0, ..v }, Action::Idle)
        } else if c == '2' {
            (AppView { help_tab: 1, ..v }, Action::Idle)
        } else if c == '3' {
            (AppView { help_tab: 2, ..v }, Action::Idle)
        } else if c == '4' {
            (AppView { help_tab: 3, ..v }, Action::Idle)
        } else if c == 'h' {
            (
                AppView {
                    help_tab: if v.help_tab == 0 {
                        3
                    } else {
                        v.help_tab - 1
                    },
                    ..v
                },
                Action::Idle,
            )
        } else if c == 'l' {
            (
                AppView {
                    help_tab: if v.help_tab == 3 {
                        0
                    } else {
                        v.help_tab + 1
                    },
                    ..v
                },
                Action::Idle,
            )
        } else {
            (v, Action::Idle)
        },
        KeyInput::Down => (AppView { help_list: v.help_list.move_next_s(), ..v }, Action::Idle),
        KeyInput::Up => (AppView { help_list: v.help_list.move_prev_s(), ..v }, Action::Idle),
        _ => (v, Action::Idle),
    }
}

/// One key while the search overlay is taking input.
pub open spec fn step_searching(v: AppView, key: KeyInput) -> (AppView, Action) {
    match key {
        KeyInput::Esc => (
            AppView {
                searching: false,
                query: Seq::empty(),
                matches: Seq::empty(),
                cursor: None,
                ..v
            },
            Action::Idle,
        ),
        KeyInput::Char(c) => if !is_control_char(c) && !whitespace_char(c) {
            (recompute_v(AppView { query: v.query.push(c), ..v }), Action::Idle)
        } else {
            (v, Action::Idle)
        },
        KeyInput::Backspace => (
            recompute_v(
                AppView {
                    query: if v.query.len() > 0 {
                        v.query.drop_last()
                    } else {
                        v.query
                    },
                    ..v
                },
            ),
            Action::Idle,
        ),
        KeyInput::Enter => (AppView { searching: false, ..v }, Action::Idle),
        _ => (v, Action::Idle),
    }
}

/// One key, routed by priority: the help overlay first, then search
/// input, then the active tab's engine.
pub open spec fn app_step(v: AppView, key: KeyInput) -> (AppView, Action) {
    if v.show_help {
        step_help(v, key)
    } else if v.searching {
        step_searching(v, key)
    } else {
        match v.selected_tab {
            Tab::Directories => step_directories(v, key),
            Tab::Sessions => step_sessions(v, key),
        }
    }
}

/// Replacing the listing — a directory change or a refetch — resets the
/// directory selection and scroll and discards any search state, so stale
/// match indices are never carried into the new listing.
pub open spec fn change_directory_v(v: AppView, entries: Seq<DirEntry>) -> AppView {
    AppView {
        entries: entries,
        dir_list: ListState {
            selected: 0,
            scroll: 0,
            total: entries.len() as usize,
            viewport: v.dir_list.viewport,
        },
        query: Seq::empty(),
        matches: Seq::empty(),
        cursor: None,
        ..v
    }
}

/// Replacing the session snapshot resets the session selection and
/// scroll.
pub open spec fn set_sessions_v(v: AppView, sessions: Seq<TmuxSession>) -> AppView {
    AppView {
        sessions: sessions,
        tree: SessionTreeState { selected: 0, scroll: 0, viewport: v.tree.viewport },
        ..v
    }
}

/// The state the interface starts in: the directories tab, nothing
/// loaded, no overlay open.
pub open spec fn init_view() -> AppView {
    AppView {
        show_help: false,
        selected_tab: Tab::Directories,
        show_hidden: false,
        searching: false,
        query: Seq::empty(),
        matches: Seq::empty(),
        cursor: None,
        help_tab: 0,
        help_list: ListState { selected: 0, scroll: 0, total: 0, viewport: 0 },
        dir_list: ListState { selected: 0, scroll: 0, total: 0, viewport: 0 },
        tree: SessionTreeState { selected: 0, scroll: 0, viewport: 0 },
        entries: Seq::empty(),
        sessions: Seq::empty(),
        exit: false,
    }
}

/// An empty query matches nothing: recomputing the search with query
/// `""` yields an empty match list and leaves the directory selection and
/// scroll exactly where they were.
pub proof fn lemma_recompute_empty_query(v: AppView)
    requires
        v.query.len() == 0,
    ensures
        recompute_v(v).matches.len() == 0,
        recompute_v(v).cursor is None,
        recompute_v(v).dir_list == v.dir_list,
        recompute_v(v).entries == v.entries,
{
}

/// Changing the directory discards the search: the query and the match
/// list come out empty, and until a new search starts, jumping to the
/// next or previous match moves nothing.
pub proof fn lemma_change_directory_clears_search(v: AppView, entries: Seq<DirEntry>)
    ensures
        change_directory_v(v, entries).query.len() == 0,
        change_directory_v(v, entries).matches.len() == 0,
        change_directory_v(v, entries).cursor is None,
        jump_next_v(change_directory_v(v, entries)) == change_directory_v(v, entries),
        jump_prev_v(change_directory_v(v, entries)) == change_directory_v(v, entries),
{
}

/// Relies on String::push: appends the one character to the text.
#[verifier::external_body]
fn push_char(s: &mut String, c: char)
    ensures
        final(s)@ == old(s)@.push(c),
{
    s.push(c);
}

/// Relies on String::pop: removes and returns the last character, and
/// neither from an empty text.
#[verifier::external_body]
fn pop_char(s: &mut String) -> (r: Option<char>)
    ensures
        old(s)@.len() == 0 ==> final(s)@ == old(s)@ && r is None,
        old(s)@.len() > 0 ==> final(s)@ == old(s)@.drop_last() && r == Some(old(s)@.last()),
{
    s.pop()
}

/// The whole interface state: both tabs' engines, the overlays, and the
/// cached provider snapshots they address.
pub struct App {
    pub show_help: bool,
    pub selected_tab: Tab,
    pub show_hidden: bool,
    pub searching: bool,
    pub searched_string: String,
    pub search_matches: Vec<usize>,
    pub search_match_index: Option<usize>,
    pub help_selected_tab: usize,
    pub help_list: ListState,
    pub directories_list: ListState,
    pub tmux_tree: SessionTreeState,
    pub current_directory_contents: Vec<DirEntry>,
    pub tmux_sessions: Vec<TmuxSession>,
    pub exit: bool,
}

impl View for App {
    type V = AppView;

    open spec fn view(&self) -> AppView {
        AppView {
            show_help: self.show_help,
            selected_tab: self.selected_tab,
            show_hidden: self.show_hidden,
            searching: self.searching,
            query: self.searched_string@,
            matches: self.search_matches@,
            cursor: self.search_match_index,
            help_tab: self.help_selected_tab as int,
            help_list: self.help_list,
            dir_list: self.directories_list,
            tree: self.tmux_tree,
            entries: self.current_directory_contents@,
            sessions: self.tmux_sessions@,
            exit: self.exit,
        }
    }
}

impl App {
    /// A fresh interface in its initial state.
    pub fn new() -> (r: App)
        ensures
            r@ == init_view(),
            r@.wf(),
    {
        let r = App {
            show_help: false,
            selected_tab: Tab::Directories,
            show_hidden: false,
            searching: false,
            searched_string: String::new(),
            search_matches: Vec::new(),
            search_match_index: None,
            help_selected_tab: 0,
            help_list: ListState::new(),
            directories_list: ListState::new(),
            tmux_tree: SessionTreeState::new(),
            current_directory_contents: Vec::new(),
            tmux_sessions: Vec::new(),
            exit: false,
        };
        proof {
            assert(r@ =~= init_view());
        }
        r
    }

    /// Recompute the search matches for the current query over the current
    /// listing, jumping to the first match when there is one; an empty
    /// query clears the match list and moves nothing.
    fn update_search_results(&mut self)
        requires
            old(self)@.wf(),
        ensures
            final(self)@ == recompute_v(old(self)@),
            final(self)@.wf(),
    {
        self.search_matches = Vec::new();
        self.search_match_index = None;
        if self.searched_string.as_str().is_empty() {
            proof {
                assert(self@ =~= recompute_v(old(self)@));
            }
            return;
        }
        let ms = compute_matches(&self.current_directory_contents, self.searched_string.as_str());
        proof {
            lemma_match_indices_in_bounds(
                self.current_directory_contents@,
                self.searched_string@,
            );
        }
        self.search_matches = ms;
        if self.search_matches.len() > 0 {
            let m0 = self.search_matches[0];
            self.directories_list.selected = m0;
            self.directories_list.ensure_visible(m0);
            self.search_match_index = Some(0);
        }
        proof {
            assert(self@ =~= recompute_v(old(self)@));
        }
    }

    /// Move the match cursor to the next match, cyclically, and jump the
    /// selection there; nothing happens without matches.
    fn jump_to_next_match(&mut self)
        requires
            old(self)@.wf(),
        ensures
            final(self)@ == jump_next_v(old(self)@),
            final(self)@.wf(),
    {
        if self.search_matches.len() == 0 {
            return;
        }
        let len = self.search_matches.len();
        let idx = match self.search_match_index {
            Some(i) => if i + 1 == len {
                0
            } else {
                i + 1
            },
            None => 0,
        };
        self.search_match_index = Some(idx);
        let m = self.search_matches[idx];
        self.directories_list.selected = m;
        self.directories_list.ensure_visible(m);
        proof {
            assert(self@ =~= jump_next_v(old(self)@));
        }
    }

    /// Move the match cursor to the previous match, cyclically, and jump
    /// the selection there; nothing happens without matches.
    fn jump_to_prev_match(&mut self)
        requires
            old(self)@.wf(),
        ensures
            final(self)@ == jump_prev_v(old(self)@),
            final(self)@.wf(),
    {
        if self.search_matches.len() == 0 {
            return;
        }
        let len = self.search_matches.len();
        let idx = match self.search_match_index {
            Some(i) => if i == 0 {
                len - 1
            } else {
                i - 1
            },
            None => len - 1,
        };
        self.search_match_index = Some(idx);
        let m = self.search_matches[idx];
        self.directories_list.selected = m;
        self.directories_list.ensure_visible(m);
        proof {
            assert(self@ =~= jump_prev_v(old(self)@));
        }
    }

    fn enter_selected(&self) -> (r: Action)
        requires
            self@.wf(),
        ensures
            r == enter_action_v(self@),
    {
        if self.current_directory_contents.len() > 0 {
            let sel = self.directories_list.selected;
            if self.current_directory_contents[sel].is_dir {
                return Action::EnterDirectory(sel);
            }
        }
        Action::Idle
    }

    /// One key on the directories tab: navigation, search entry and
    /// jumps, tab and overlay switches, and the directory requests.
    pub fn key_handler_directories(&mut self, key: KeyInput) -> (r: Action)
        requires
            old(self)@.wf(),
        ensures
            final(self)@.wf(),
            (final(self)@, r) == step_directories(old(self)@, key),
    {
        match key {
            KeyInput::Char(c) => {
                if c == 'q' {
                    self.exit = true;
                    Action::Idle
                } else if c == 'H' {
                    self.show_help = !self.show_help;
                    Action::Idle
                } else if c == '2' {
                    self.selected_tab = Tab::Sessions;
                    Action::Idle
                } else if c == '/' {
                    self.searching = true;
                    self.searched_string = String::new();
                    self.search_matches = Vec::new();
                    self.search_match_index = None;
                    Action::Idle
                } else if c == 'j' {
                    self.directories_list.move_next();
                    Action::Idle
                } else if c == 'k' {
                    self.directories_list.move_prev();
                    Action::Idle
                } else if c == 'n' {
                    self.jump_to_next_match();
                    Action::Idle
                } else if c == 'N' {
                    self.jump_to_prev_match();
                    Action::Idle
                } else if c == 'A' {
                    self.show_hidden = !self.show_hidden;
                    Action::ReloadListing
                } else if c == 'h' {
                    Action::GoToParent
                } else if c == 'l' {
                    self.enter_selected()
                } else if c == 't' {
                    self.exit = true;
                    Action::AttachCurrentDirectory
                } else {
                    Action::Idle
                }
            },
            KeyInput::Down => {
                self.directories_list.move_next();
                Action::Idle
            },
            KeyInput::Up => {
                self.directories_list.move_prev();
                Action::Idle
            },
            KeyInput::Left => Action::GoToParent,
            KeyInput::Right => self.enter_selected(),
            _ => Action::Idle,
        }
    }

    /// One key on the sessions tab: session navigation, tab and overlay
    /// switches, and the attach request.
    pub fn key_handler_tmux(&mut self, key: KeyInput) -> (r: Action)
        requires
            old(self)@.wf(),
        ensures
            final(self)@.wf(),
            (final(self)@, r) == step_sessions(old(self)@, key),
    {
        match key {
            KeyInput::Char(c) => {
                if c == 'q' {
                    self.exit = true;
                    Action::Idle
                } else if c == 'H' {
                    self.show_help = !self.show_help;
                    Action::Idle
                } else if c == '1' {
                    self.selected_tab = Tab::Directories;
                    Action::Idle
                } else if c == 'j' {
                    self.tmux_tree.move_next(&self.tmux_sessions);
                    Action::Idle
                } else if c == 'k' {
                    self.tmux_tree.move_prev(&self.tmux_sessions);
                    Action::Idle
                } else if c == 't' {
                    if self.tmux_sessions.len() > 0 {
                        self.exit = true;
                        Action::AttachSession(self.tmux_tree.selected)
                    } else {
                        Action::Idle
                    }
                } else {
                    Action::Idle
                }
            },
            KeyInput::Down => {
                self.tmux_tree.move_next(&self.tmux_sessions);
                Action::Idle
            },
            KeyInput::Up => {
                self.tmux_tree.move_prev(&self.tmux_sessions);
                Action::Idle
            },
            _ => Action::Idle,
        }
    }

    /// One key while the help overlay is open: scrolling the help lines,
    /// picking a category, or closing the overlay.
    pub fn key_handler_help(&mut self, key: KeyInput) -> (r: Action)
        requires
            old(self)@.wf(),
        ensures
            final(self)@.wf(),
            (final(self)@, r) == step_help(old(self)@, key),
    {
        match key {
            KeyInput::Char(c) => {
                if c == 'q' || c == 'H' {
                    self.show_help = !self.show_help;
                    Action::Idle
                } else if c == 'j' {
                    self.help_list.move_next();
                    Action::Idle
                } else if c == 'k' {
                    self.help_list.move_prev();
                    Action::Idle
                } else if c == '1' {
                    self.help_selected_tab = 0;
                    Action::Idle
                } else if c == '2' {
                    self.help_selected_tab = 1;
                    Action::Idle
                } else if c == '3' {
                    self.help_selected_tab = 2;
                    Action::Idle
                } else if c == '4' {
                    self.help_selected_tab = 3;
                    Action::Idle
                } else if c == 'h' {
                    self.help_selected_tab = if self.help_selected_tab == 0 {
                        3
                    } else {
                        self.help_selected_tab - 1
                    };
                    Action::Idle
                } else if c == 'l' {
                    self.help_selected_tab = if self.help_selected_tab == 3 {
                        0
                    } else {
                        self.help_selected_tab + 1
                    };
                    Action::Idle
                } else {
                    Action::Idle
                }
            },
            KeyInput::Down => {
                self.help_list.move_next();
                Action::Idle
            },
            KeyInput::Up => {
                self.help_list.move_prev();
                Action::Idle
            },
            _ => Action::Idle,
        }
    }

    /// One key while the search overlay is taking input: extend or trim
    /// the query and recompute, commit, or cancel.
    pub fn key_handler_searching(&mut self, key: KeyInput) -> (r: Action)
        requires
            old(self)@.wf(),
        ensures
            final(self)@.wf(),
            (final(self)@, r) == step_searching(old(self)@, key),
    {
        match key {
            KeyInput::Esc => {
                self.searching = false;
                self.searched_string = String::new();
                self.search_matches = Vec::new();
                self.search_match_index = None;
                Action::Idle
            },
            KeyInput::Char(c) => {
                if !check_control_char(c) && !check_whitespace_char(c) {
                    push_char(&mut self.searched_string, c);
                    self.update_search_results();
                }
                Action::Idle
            },
            KeyInput::Backspace => {
                pop_char(&mut self.searched_string);
                self.update_search_results();
                Action::Idle
            },
            KeyInput::Enter => {
                self.searching = false;
                Action::Idle
            },
            _ => Action::Idle,
        }
    }

    /// Handle one key wherever the interface stands: the help overlay
    /// sees it first, then search input, then the active tab's engine.
    pub fn handle_key(&mut self, key: KeyInput) -> (r: Action)
        requires
            old(self)@.wf(),
        ensures
            final(self)@.wf(),
            (final(self)@, r) == app_step(old(self)@, key),
    {
        if self.show_help {
            self.key_handler_help(key)
        } else if self.searching {
            self.key_handler_searching(key)
        } else {
            match self.selected_tab {
                Tab::Directories => self.key_handler_directories(key),
                Tab::Sessions => self.key_handler_tmux(key),
            }
        }
    }

    /// Install a new directory listing: selection and scroll restart at
    /// the top and any search state is discarded, so no stale match index
    /// ever addresses the new listing.
    pub fn change_directory(&mut self, entries: Vec<DirEntry>)
        requires
            old(self)@.wf(),
        ensures
            final(self)@.wf(),
            final(self)@ == change_directory_v(old(self)@, entries@),
    {
        let ghost es = entries@;
        let n = entries.len();
        self.current_directory_contents = entries;
        self.directories_list.selected = 0;
        self.directories_list.scroll = 0;
        self.directories_list.total = n;
        self.searched_string = String::new();
        self.search_matches = Vec::new();
        self.search_match_index = None;
        proof {
            assert(self@ =~= change_directory_v(old(self)@, es));
        }
    }

    /// Install a new session snapshot, with selection and scroll restarted
    /// at the top. A snapshot whose rendered lines could not be counted in
    /// a `usize` is refused and handed back unchanged.
    pub fn set_sessions(&mut self, sessions: Vec<TmuxSession>) -> (r: Result<
        (),
        Vec<TmuxSession>,
    >)
        requires
            old(self)@.wf(),
        ensures
            final(self)@.wf(),
            match r {
                Ok(_) => final(self)@ == set_sessions_v(old(self)@, sessions@) && sessions_fit(
                    sessions@,
                ),
                Err(s) => *final(self) == *old(self) && s == sessions && !sessions_fit(sessions@),
            },
    {
        let ghost ss = sessions@;
        if check_sessions_fit(&sessions) {
            self.tmux_sessions = sessions;
            self.tmux_tree.selected = 0;
            self.tmux_tree.scroll = 0;
            proof {
                lemma_line_offset_monotonic(ss, 0, ss.len() as int);
                assert(self@ =~= set_sessions_v(old(self)@, ss));
            }
            Ok(())
        } else {
            Err(sessions)
        }
    }
}

} // verus!
