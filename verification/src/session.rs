//! The session tab's data and its selection state.
//!
//! Each session renders as a header line, one line per window, and a blank
//! separator, so rows have varying heights: the selection moves in sessions
//! while the scroll offset is measured in rendered lines. Every move
//! recomputes the selected session's line offset as a prefix sum of the
//! preceding sessions' heights and scrolls just far enough to show it whole.

use vstd::prelude::*;

verus! {

/// One window of a multiplexer session, as the session provider reports it.
#[derive(Debug)]
pub struct TmuxWindow {
    pub index: String,
    pub name: String,
    pub active: bool,
}

/// One multiplexer session: a name, a creation timestamp already formatted
/// for display, and the session's windows in provider order.
#[derive(Debug)]
pub struct TmuxSession {
    pub name: String,
    pub date_created: String,
    pub windows: Vec<TmuxWindow>,
}

/// Rendered height of one session: header line, window lines, separator.
pub open spec fn session_height(s: TmuxSession) -> int {
    2 + s.windows@.len() as int
}

/// Line offset of session `i`: the prefix sum of the heights of all
/// preceding sessions.
pub open spec fn line_offset_of(sessions: Seq<TmuxSession>, i: int) -> int
    decreases i,
{
    if i <= 0 {
        0
    } else {
        line_offset_of(sessions, i - 1) + session_height(sessions[i - 1])
    }
}

/// Total number of rendered lines of the whole session list.
pub open spec fn total_lines(sessions: Seq<TmuxSession>) -> int {
    line_offset_of(sessions, sessions.len() as int)
}

/// A session list fits the machine when its rendered lines can be counted
/// in a `usize`.
pub open spec fn sessions_fit(sessions: Seq<TmuxSession>) -> bool {
    total_lines(sessions) <= usize::MAX
}

/// Prefix sums of positive heights grow with the index.
pub proof fn lemma_line_offset_monotonic(sessions: Seq<TmuxSession>, i: int, j: int)
    requires
        0 <= i <= j,
    ensures
        line_offset_of(sessions, i) <= line_offset_of(sessions, j),
        0 <= line_offset_of(sessions, i),
    decreases j,
{
    if j > 0 && i < j {
        lemma_line_offset_monotonic(sessions, i, j - 1);
    } else if j > 0 {
        lemma_line_offset_monotonic(sessions, 0, i - 1);
    }
}

/// Line offset of session `i`, computed by a linear scan.
pub fn line_offset(sessions: &Vec<TmuxSession>, i: usize) -> (r: usize)
    requires
        i <= sessions@.len(),
        sessions_fit(sessions@),
    ensures
        r == line_offset_of(sessions@, i as int),
{
    let mut acc: usize = 0;
    let mut j: usize = 0;
    while j < i
        invariant
            j <= i <= sessions@.len(),
            sessions_fit(sessions@),
            acc == line_offset_of(sessions@, j as int),
        decreases i - j,
    {
        proof {
            lemma_line_offset_monotonic(sessions@, j + 1, sessions@.len() as int);
        }
        acc = acc + 2 + sessions[j].windows.len();
        j = j + 1;
    }
    acc
}

/// Whether a session list's rendered lines can be counted in a `usize`,
/// decided without overflowing.
pub fn check_sessions_fit(sessions: &Vec<TmuxSession>) -> (r: bool)
    ensures
        r == sessions_fit(sessions@),
{
    let mut acc: usize = 0;
    let mut j: usize = 0;
    while j < sessions.len()
        invariant
            j <= sessions@.len(),
            acc == line_offset_of(sessions@, j as int),
        decreases sessions@.len() - j,
    {
        let wl = sessions[j].windows.len();
        if acc > usize::MAX - 2 || usize::MAX - 2 - acc < wl {
            proof {
                lemma_line_offset_monotonic(sessions@, j + 1, sessions@.len() as int);
            }
            return false;
        }
        acc = acc + 2 + wl;
        j = j + 1;
    }
    true
}

/// Selection plus viewport scroll state for the session list; the selection
/// counts sessions, the scroll offset and viewport count rendered lines.
#[derive(Clone, Copy, Debug, PartialEq, Eq, Structural)]
pub struct SessionTreeState {
    pub selected: usize,
    pub scroll: usize,
    pub viewport: usize,
}

impl SessionTreeState {
    /// Well-formedness against the session list the state addresses: the
    /// selection names a session whenever there is one, the scroll offset
    /// stays within the rendered lines, and the line count fits the machine.
    pub open spec fn wf(self, sessions: Seq<TmuxSession>) -> bool {
        &&& sessions.len() > 0 ==> self.selected < sessions.len()
        &&& sessions.len() == 0 ==> self.selected == 0 && self.scroll == 0
        &&& self.scroll <= total_lines(sessions)
        &&& sessions_fit(sessions)
    }

    /// The scroll offset that brings the block of `height` lines starting
    /// at line `target` fully into the viewport, moving minimally.
    pub open spec fn scroll_to(self, target: int, height: int) -> int {
        if target < self.scroll {
            target
        } else if target + height > self.scroll + self.viewport {
            target + height - self.viewport
        } else {
            self.scroll as int
        }
    }

    /// What `move_next` computes: advance the selection cyclically over the
    /// sessions, then scroll so the selected session is fully visible.
    pub open spec fn move_next_s(self, sessions: Seq<TmuxSession>) -> SessionTreeState {
        if sessions.len() == 0 {
            self
        } else {
            let next = if self.selected + 1 == sessions.len() {
                0
            } else {
                (self.selected + 1) as usize
            };
            let target = line_offset_of(sessions, next as int);
            let height = session_height(sessions[next as int]);
            SessionTreeState { selected: next, scroll: self.scroll_to(target, height) as usize, ..self }
        }
    }

    /// What `move_prev` computes: retreat the selection cyclically over the
    /// sessions, then scroll so the selected session is fully visible.
    pub open spec fn move_prev_s(self, sessions: Seq<TmuxSession>) -> SessionTreeState {
        if sessions.len() == 0 {
            self
        } else {
            let prev = if self.selected == 0 {
                (sessions.len() - 1) as usize
            } else {
                (self.selected - 1) as usize
            };
            let target = line_offset_of(sessions, prev as int);
            let height = session_height(sessions[prev as int]);
            SessionTreeState { selected: prev, scroll: self.scroll_to(target, height) as usize, ..self }
        }
    }

    /// A fresh state with nothing selected and the viewport at the top.
    pub fn new() -> (r: SessionTreeState)
        ensures
            r == (SessionTreeState { selected: 0, scroll: 0, viewport: 0 }),
    {
        SessionTreeState { selected: 0, scroll: 0, viewport: 0 }
    }

    /// Record the viewport height, in rendered lines.
    pub fn set_viewport(&mut self, h: usize)
        ensures
            *final(self) == (SessionTreeState { viewport: h, ..*old(self) }),
    {
        self.viewport = h;
    }

    /// Scroll so that the block of `height` lines at line `target` is fully
    /// visible, moving as little as possible.
    fn adjust_scroll(&mut self, target: usize, height: usize, ghost_limit: Ghost<int>)
        requires
            target + height <= ghost_limit@,
            ghost_limit@ <= usize::MAX,
            old(self).scroll <= ghost_limit@,
        ensures
            *final(self) == (SessionTreeState {
                scroll: old(self).scroll_to(target as int, height as int) as usize,
                ..*old(self)
            }),
            final(self).scroll <= ghost_limit@,
    {
        if target < self.scroll {
            self.scroll = target;
        } else {
            let block_end = target + height;
            if block_end > self.scroll && block_end - self.scroll > self.viewport {
                self.scroll = block_end - self.viewport;
            }
        }
    }

    /// Advance the selection to the next session, wrapping to the first
    /// after the last, and bring it fully into view.
    pub fn move_next(&mut self, sessions: &Vec<TmuxSession>)
        requires
            old(self).wf(sessions@),
        ensures
            *final(self) == old(self).move_next_s(sessions@),
            final(self).wf(sessions@),
    {
        if sessions.len() == 0 {
            return;
        }
        let next = if self.selected + 1 == sessions.len() {
            0
        } else {
            self.selected + 1
        };
        let target = line_offset(sessions, next);
        proof {
            lemma_line_offset_monotonic(sessions@, next + 1, sessions@.len() as int);
        }
        let height = 2 + sessions[next].windows.len();
        self.adjust_scroll(target, height, Ghost(total_lines(sessions@)));
        self.selected = next;
    }

    /// Retreat the selection to the previous session, wrapping to the last
    /// before the first, and bring it fully into view.
    pub fn move_prev(&mut self, sessions: &Vec<TmuxSession>)
        requires
            old(self).wf(sessions@),
        ensures
            *final(self) == old(self).move_prev_s(sessions@),
            final(self).wf(sessions@),
    {
        if sessions.len() == 0 {
            return;
        }
        let prev = if self.selected == 0 {
            sessions.len() - 1
        } else {
            self.selected - 1
        };
        let target = line_offset(sessions, prev);
        proof {
            lemma_line_offset_monotonic(sessions@, prev + 1, sessions@.len() as int);
        }
        let height = 2 + sessions[prev].windows.len();
        self.adjust_scroll(target, height, Ghost(total_lines(sessions@)));
        self.selected = prev;
    }
}

} // verus!
