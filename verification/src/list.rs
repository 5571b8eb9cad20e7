//! Selection and viewport scrolling over a list of uniformly sized rows.
//!
//! The viewport shows `viewport` consecutive rows starting at row `scroll`.
//! Navigation moves the selection cyclically and scrolls minimally: one row
//! at a time, except on wraparound, where the viewport snaps to the top or
//! bottom because the selection itself jumps discontinuously.

use vstd::prelude::*;

verus! {

/// Selection plus viewport scroll state for a list of `total` rows of equal
/// height, of which `viewport` are visible at once starting at row `scroll`.
#[derive(Clone, Copy, Debug, PartialEq, Eq, Structural)]
pub struct ListState {
    pub selected: usize,
    pub scroll: usize,
    pub total: usize,
    pub viewport: usize,
}

/// The largest scroll offset that still fills the viewport as far as the
/// content allows.
pub open spec fn max_scroll(total: int, viewport: int) -> int {
    if total >= viewport {
        total - viewport
    } else {
        0
    }
}

impl ListState {
    /// Well-formedness: the selection addresses a row whenever there is one,
    /// and the viewport never scrolls past the end of the content.
    pub open spec fn wf(self) -> bool {
        &&& self.total > 0 ==> self.selected < self.total
        &&& self.total == 0 ==> self.selected == 0
        &&& self.scroll <= max_scroll(self.total as int, self.viewport as int)
    }

    /// What `set_total` computes: clamp the selection and the scroll offset
    /// into the bounds given by the new row count.
    pub open spec fn set_total_s(self, n: usize) -> ListState {
        ListState {
            total: n,
            selected: if n == 0 {
                0
            } else if self.selected >= n {
                (n - 1) as usize
            } else {
                self.selected
            },
            scroll: if self.scroll > max_scroll(n as int, self.viewport as int) {
                max_scroll(n as int, self.viewport as int) as usize
            } else {
                self.scroll
            },
            ..self
        }
    }

    /// What `set_viewport` computes: record the new viewport height and
    /// re-clamp the scroll offset.
    pub open spec fn set_viewport_s(self, h: usize) -> ListState {
        ListState {
            viewport: h,
            scroll: if self.scroll > max_scroll(self.total as int, h as int) {
                max_scroll(self.total as int, h as int) as usize
            } else {
                self.scroll
            },
            ..self
        }
    }

    /// What `move_next` computes: advance the selection cyclically; on a
    /// wrap from the last row to row 0 snap the viewport to the top, else
    /// scroll down by at most one row.
    pub open spec fn move_next_s(self) -> ListState {
        if self.total == 0 {
            self
        } else {
            let next = if self.selected + 1 == self.total {
                0
            } else {
                (self.selected + 1) as usize
            };
            ListState {
                selected: next,
                scroll: if next == 0 {
                    0
                } else if next >= self.scroll + self.viewport {
                    (self.scroll + 1) as usize
                } else {
                    self.scroll
                },
                ..self
            }
        }
    }

    /// What `move_prev` computes: retreat the selection cyclically; on a
    /// wrap from row 0 to the last row snap the viewport to the bottom, else
    /// scroll up by at most one row.
    pub open spec fn move_prev_s(self) -> ListState {
        if self.total == 0 {
            self
        } else if self.selected == 0 {
            ListState {
                selected: (self.total - 1) as usize,
                scroll: max_scroll(self.total as int, self.viewport as int) as usize,
                ..self
            }
        } else {
            let prev = (self.selected - 1) as usize;
            ListState {
                selected: prev,
                scroll: if prev < self.scroll {
                    (self.scroll - 1) as usize
                } else {
                    self.scroll
                },
                ..self
            }
        }
    }

    /// What `ensure_visible` computes: the minimal scroll adjustment that
    /// brings row `index` into the viewport.
    pub open spec fn ensure_visible_s(self, index: usize) -> ListState {
        if index < self.scroll {
            ListState { scroll: index, ..self }
        } else if index >= self.scroll + self.viewport {
            ListState { scroll: (index + 1 - self.viewport) as usize, ..self }
        } else {
            self
        }
    }

    /// A fresh list with no rows and no viewport.
    pub fn new() -> (r: ListState)
        ensures
            r == (ListState { selected: 0, scroll: 0, total: 0, viewport: 0 }),
    {
        ListState { selected: 0, scroll: 0, total: 0, viewport: 0 }
    }

    /// Set the row count, clamping selection and scroll into bounds.
    pub fn set_total(&mut self, n: usize)
        ensures
            *final(self) == old(self).set_total_s(n),
            final(self).wf(),
    {
        self.total = n;
        if n == 0 {
            self.selected = 0;
        } else if self.selected >= n {
            self.selected = n - 1;
        }
        let ms = if n >= self.viewport {
            n - self.viewport
        } else {
            0
        };
        if self.scroll > ms {
            self.scroll = ms;
        }
    }

    /// Set the viewport height, re-clamping the scroll offset.
    pub fn set_viewport(&mut self, h: usize)
        ensures
            *final(self) == old(self).set_viewport_s(h),
            old(self).wf() ==> final(self).wf(),
    {
        self.viewport = h;
        let ms = if self.total >= h {
            self.total - h
        } else {
            0
        };
        if self.scroll > ms {
            self.scroll = ms;
        }
    }

    /// Advance the selection by one row, wrapping from the last row to the
    /// first; the wrap snaps the viewport to the top, any other step scrolls
    /// down by at most one row.
    pub fn move_next(&mut self)
        requires
            old(self).wf(),
        ensures
            *final(self) == old(self).move_next_s(),
            final(self).wf(),
    {
        if self.total == 0 {
            return;
        }
        let next = if self.selected + 1 == self.total {
            0
        } else {
            self.selected + 1
        };
        if next == 0 {
            self.scroll = 0;
        } else if next >= self.scroll && next - self.scroll >= self.viewport {
            self.scroll = self.scroll + 1;
        }
        self.selected = next;
    }

    /// Retreat the selection by one row, wrapping from the first row to the
    /// last; the wrap snaps the viewport to the bottom, any other step
    /// scrolls up by at most one row.
    pub fn move_prev(&mut self)
        requires
            old(self).wf(),
        ensures
            *final(self) == old(self).move_prev_s(),
            final(self).wf(),
    {
        if self.total == 0 {
            return;
        }
        if self.selected == 0 {
            self.selected = self.total - 1;
            self.scroll = if self.total >= self.viewport {
                self.total - self.viewport
            } else {
                0
            };
        } else {
            self.selected = self.selected - 1;
            if self.selected < self.scroll {
                self.scroll = self.scroll - 1;
            }
        }
    }

    /// Scroll just far enough that row `index` is inside the viewport.
    pub fn ensure_visible(&mut self, index: usize)
        requires
            old(self).wf(),
            index < old(self).total,
        ensures
            *final(self) == old(self).ensure_visible_s(index),
            final(self).wf(),
    {
        if index < self.scroll {
            self.scroll = index;
        } else if index - self.scroll >= self.viewport {
            self.scroll = index - self.viewport + 1;
        }
    }
}

/// The state after `k` successive `move_next` steps.
pub open spec fn iter_next(s: ListState, k: nat) -> ListState
    decreases k,
{
    if k == 0 {
        s
    } else {
        iter_next(s, (k - 1) as nat).move_next_s()
    }
}

/// The scroll offset that a full cycle of `move_next` steps leaves behind:
/// the wrap snaps the viewport to the top and the climb back to row
/// `selected` then scrolls down one row at a time.
pub open spec fn cycle_scroll(selected: int, viewport: int) -> int {
    if viewport == 0 {
        selected
    } else if selected >= viewport {
        selected + 1 - viewport
    } else {
        0
    }
}

proof fn lemma_iter_next_add(s: ListState, a: nat, b: nat)
    ensures
        iter_next(s, a + b) == iter_next(iter_next(s, a), b),
    decreases b,
{
    if b > 0 {
        lemma_iter_next_add(s, a, (b - 1) as nat);
    }
}

proof fn lemma_iter_next_wf(s: ListState, k: nat)
    requires
        s.wf(),
    ensures
        iter_next(s, k).wf(),
        iter_next(s, k).total == s.total,
        iter_next(s, k).viewport == s.viewport,
    decreases k,
{
    if k > 0 {
        lemma_iter_next_wf(s, (k - 1) as nat);
    }
}

/// Stepping `total - selected` times reaches the wrap: the selection lands
/// on row 0 and the viewport snaps to the top.
proof fn lemma_reach_wrap(s: ListState)
    requires
        s.wf(),
        s.total > 0,
    ensures
        iter_next(s, (s.total - s.selected) as nat) == (ListState {
            selected: 0,
            scroll: 0,
            ..s
        }),
    decreases s.total - s.selected,
{
    let step = s.move_next_s();
    assert(iter_next(s, 0) == s);
    if s.selected + 1 == s.total {
        assert(iter_next(s, 1) == step);
    } else {
        lemma_reach_wrap(step);
        lemma_iter_next_add(s, 1, (s.total - step.selected) as nat);
        assert(iter_next(s, 1) == step);
    }
}

/// Climbing `k` rows up from a freshly wrapped state scrolls deterministically:
/// the scroll offset depends only on the row reached and the viewport height.
proof fn lemma_climb(s: ListState, k: nat)
    requires
        s.wf(),
        s.total > 0,
        s.selected == 0,
        s.scroll == 0,
        k < s.total,
    ensures
        iter_next(s, k) == (ListState {
            selected: k as usize,
            scroll: cycle_scroll(k as int, s.viewport as int) as usize,
            ..s
        }),
    decreases k,
{
    if k > 0 {
        lemma_climb(s, (k - 1) as nat);
    }
}

/// Wraparound idempotence: from any well-formed state, `total` successive
/// `move_next` steps return the selection to where it started, and leave the
/// scroll offset at the value determined by the wrap snap alone — whatever
/// the scroll offset was at the start.
pub proof fn lemma_move_next_cycle(s: ListState)
    requires
        s.wf(),
    ensures
        iter_next(s, s.total as nat).selected == s.selected,
        iter_next(s, s.total as nat).total == s.total,
        iter_next(s, s.total as nat).viewport == s.viewport,
        s.total > 0 ==> iter_next(s, s.total as nat).scroll == cycle_scroll(
            s.selected as int,
            s.viewport as int,
        ),
        s.total == 0 ==> iter_next(s, s.total as nat) == s,
{
    if s.total > 0 {
        let a = (s.total - s.selected) as nat;
        let b = s.selected as nat;
        lemma_reach_wrap(s);
        let wrapped = iter_next(s, a);
        lemma_climb(wrapped, b);
        lemma_iter_next_add(s, a, b);
    }
}

/// An interior step down is undone by a step up: when neither move wraps,
/// `move_prev` restores the selection that `move_next` changed.
pub proof fn lemma_move_prev_undoes_move_next(s: ListState)
    requires
        s.wf(),
        s.selected + 1 < s.total,
    ensures
        s.move_next_s().move_prev_s().selected == s.selected,
{
}

/// `ensure_visible` is idempotent for any viewport that can show a row:
/// once the row is in view, asking again moves nothing.
pub proof fn lemma_ensure_visible_idempotent(s: ListState, index: usize)
    requires
        s.wf(),
        index < s.total,
        s.viewport >= 1,
    ensures
        s.ensure_visible_s(index).ensure_visible_s(index) == s.ensure_visible_s(index),
{
}

} // verus!
