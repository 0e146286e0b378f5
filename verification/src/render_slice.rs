//! The windowing engine: scroll and resize intents recorded as they arrive,
//! a synced copy of the latest frame, and the computation of the visible
//! window the render thread draws from.

use vstd::prelude::*;

use crate::view_data::{same_view_data, same_view_line, ViewData, ViewLine};

verus! {

/// A recorded scroll or resize intent, applied in order when the next frame
/// is synced.
#[derive(Clone, Copy, Debug, PartialEq, Eq, Structural)]
pub enum RenderAction {
    ScrollTop,
    ScrollBottom,
    ScrollUp,
    ScrollDown,
    ScrollLeft,
    ScrollRight,
    PageUp,
    PageDown,
    Resize(usize, usize),
}

/// The highest vertical offset that still shows a full window: the body
/// length beyond the window height, or zero.
pub open spec fn spec_max_vertical(body_len: int, height: int) -> int {
    if body_len > height {
        body_len - height
    } else {
        0
    }
}

/// Scroll offsets and terminal size after one intent: (vertical, horizontal,
/// width, height). Vertical motion clamps to the scrollable range of a body
/// of `body_len` lines; horizontal motion clamps at zero.
pub open spec fn spec_apply_action(
    off: (int, int, int, int),
    body_len: int,
    action: RenderAction,
) -> (int, int, int, int) {
    let (v, h, w, ht) = off;
    match action {
        RenderAction::ScrollTop => (0, h, w, ht),
        RenderAction::ScrollBottom => (spec_max_vertical(body_len, ht), h, w, ht),
        RenderAction::ScrollUp => (if v > 0 { v - 1 } else { 0 }, h, w, ht),
        RenderAction::ScrollDown => (
            if v + 1 < spec_max_vertical(body_len, ht) { v + 1 } else {
                spec_max_vertical(body_len, ht)
            },
            h,
            w,
            ht,
        ),
        RenderAction::ScrollLeft => (v, if h > 0 { h - 1 } else { 0 }, w, ht),
        RenderAction::ScrollRight => (v, if h < usize::MAX { h + 1 } else { h }, w, ht),
        RenderAction::PageUp => (if v > ht { v - ht } else { 0 }, h, w, ht),
        RenderAction::PageDown => (
            if v + ht < spec_max_vertical(body_len, ht) { v + ht } else {
                spec_max_vertical(body_len, ht)
            },
            h,
            w,
            ht,
        ),
        RenderAction::Resize(wn, hn) => (
            if v < spec_max_vertical(body_len, hn as int) { v } else {
                spec_max_vertical(body_len, hn as int)
            },
            h,
            wn as int,
            hn as int,
        ),
    }
}

/// Offsets and size after a queue of intents, applied first to last.
pub open spec fn spec_apply_all(
    off: (int, int, int, int),
    body_len: int,
    actions: Seq<RenderAction>,
) -> (int, int, int, int)
    decreases actions.len(),
{
    if actions.len() == 0 {
        off
    } else {
        spec_apply_action(spec_apply_all(off, body_len, actions.drop_last()), body_len, actions.last())
    }
}

/// Intents are applied in the order they were recorded: a queue split
/// anywhere applies its earlier part in full before its later part.
pub proof fn lemma_apply_all_in_order(
    off: (int, int, int, int),
    body_len: int,
    first: Seq<RenderAction>,
    second: Seq<RenderAction>,
)
    ensures
        spec_apply_all(off, body_len, first + second) == spec_apply_all(
            spec_apply_all(off, body_len, first),
            body_len,
            second,
        ),
    decreases second.len(),
{
    if second.len() == 0 {
        assert(first + second =~= first);
    } else {
        lemma_apply_all_in_order(off, body_len, first, second.drop_last());
        assert((first + second).drop_last() =~= first + second.drop_last());
        assert((first + second).last() == second.last());
    }
}

/// The derived render state: pending intents, current offsets and terminal
/// size, and the synced copy of the latest frame. It never feeds anything
/// back into the authoritative state.
pub struct RenderSlice {
    pub actions: Vec<RenderAction>,
    pub scroll_vertical: usize,
    pub scroll_horizontal: usize,
    pub width: usize,
    pub height: usize,
    pub view: ViewData,
}

impl RenderSlice {
    /// The current offsets and size as one mathematical tuple.
    pub open spec fn spec_offsets(&self) -> (int, int, int, int) {
        (
            self.scroll_vertical as int,
            self.scroll_horizontal as int,
            self.width as int,
            self.height as int,
        )
    }

    /// An empty slice: no pending intents, origin offsets, zero size, an
    /// empty frame.
    pub fn new() -> (r: RenderSlice)
        ensures
            r.actions@ == Seq::<RenderAction>::empty(),
            r.spec_offsets() == (0int, 0int, 0int, 0int),
            r.view.body@.len() == 0,
            r.view.leading@.len() == 0,
            r.view.trailing@.len() == 0,
            !r.view.show_title,
            !r.view.show_help,
    {
        let r = RenderSlice {
            actions: Vec::new(),
            scroll_vertical: 0,
            scroll_horizontal: 0,
            width: 0,
            height: 0,
            view: ViewData::new(),
        };
        proof {
            assert(r.actions@ =~= Seq::<RenderAction>::empty());
        }
        r
    }

    /// Record one intent at the back of the queue; nothing else changes
    /// until the next sync applies the queue in order.
    pub fn record(&mut self, action: RenderAction)
        ensures
            final(self).actions@ == old(self).actions@.push(action),
            final(self).spec_offsets() == old(self).spec_offsets(),
            final(self).view == old(self).view,
    {
        self.actions.push(action);
    }

    /// Apply one intent to the offsets against the current body length.
    fn apply_action(&mut self, action: RenderAction)
        ensures
            final(self).spec_offsets() == spec_apply_action(
                old(self).spec_offsets(),
                old(self).view.body@.len() as int,
                action,
            ),
            final(self).actions == old(self).actions,
            final(self).view == old(self).view,
    {
        let body_len = self.view.body.len();
        let max_vertical = if body_len > self.height {
            body_len - self.height
        } else {
            0
        };
        match action {
            RenderAction::ScrollTop => {
                self.scroll_vertical = 0;
            },
            RenderAction::ScrollBottom => {
                self.scroll_vertical = max_vertical;
            },
            RenderAction::ScrollUp => {
                if self.scroll_vertical > 0 {
                    self.scroll_vertical = self.scroll_vertical - 1;
                }
            },
            RenderAction::ScrollDown => {
                if self.scroll_vertical < max_vertical {
                    self.scroll_vertical = self.scroll_vertical + 1;
                } else {
                    self.scroll_vertical = max_vertical;
                }
            },
            RenderAction::ScrollLeft => {
                if self.scroll_horizontal > 0 {
                    self.scroll_horizontal = self.scroll_horizontal - 1;
                }
            },
            RenderAction::ScrollRight => {
                if self.scroll_horizontal < usize::MAX {
                    self.scroll_horizontal = self.scroll_horizontal + 1;
                }
            },
            RenderAction::PageUp => {
                if self.scroll_vertical > self.height {
                    self.scroll_vertical = self.scroll_vertical - self.height;
                } else {
                    self.scroll_vertical = 0;
                }
            },
            RenderAction::PageDown => {
                if self.scroll_vertical < max_vertical && self.height < max_vertical
                    - self.scroll_vertical {
                    self.scroll_vertical = self.scroll_vertical + self.height;
                } else {
                    self.scroll_vertical = max_vertical;
                }
            },
            RenderAction::Resize(new_width, new_height) => {
                self.width = new_width;
                self.height = new_height;
                let new_max = if body_len > new_height {
                    body_len - new_height
                } else {
                    0
                };
                if self.scroll_vertical > new_max {
                    self.scroll_vertical = new_max;
                }
            },
        }
    }

    /// Replace the stored frame with a copy of `view`, then apply every
    /// pending intent, first to last, against the new frame, and empty the
    /// queue.
    pub fn sync_view_data(&mut self, view: &ViewData)
        ensures
            same_view_data(final(self).view, *view),
            final(self).actions@ == Seq::<RenderAction>::empty(),
            final(self).spec_offsets() == spec_apply_all(
                old(self).spec_offsets(),
                view.body@.len() as int,
                old(self).actions@,
            ),
    {
        self.view = view.clone();
        let n = self.actions.len();
        let mut i: usize = 0;
        while i < n
            invariant
                i <= n,
                n == self.actions@.len(),
                self.actions == old(self).actions,
                same_view_data(self.view, *view),
                self.view.body@.len() == view.body@.len(),
                self.spec_offsets() == spec_apply_all(
                    old(self).spec_offsets(),
                    view.body@.len() as int,
                    old(self).actions@.subrange(0, i as int),
                ),
            decreases n - i,
        {
            let action = self.actions[i];
            self.apply_action(action);
            proof {
                let done = old(self).actions@.subrange(0, i + 1);
                assert(done.drop_last() =~= old(self).actions@.subrange(0, i as int));
                assert(done.last() == old(self).actions@[i as int]);
            }
            i += 1;
        }
        self.actions.clear();
        proof {
            assert(old(self).actions@.subrange(0, n as int) =~= old(self).actions@);
            assert(self.actions@ =~= Seq::<RenderAction>::empty());
        }
    }

    /// The visible window: the body rows from the vertical offset down to
    /// the window height, both clamped to the body.
    pub fn get_lines(&self) -> (r: Vec<ViewLine>)
        ensures
            ({
                let body = self.view.body@;
                let start = if self.scroll_vertical as int <= body.len() as int {
                    self.scroll_vertical as int
                } else {
                    body.len() as int
                };
                let take = if self.height as int <= body.len() - start {
                    self.height as int
                } else {
                    body.len() - start
                };
                &&& r@.len() == take
                &&& forall|k: int|
                    0 <= k < take ==> same_view_line(#[trigger] r@[k], body[start + k])
            }),
    {
        let body_len = self.view.body.len();
        let start = if self.scroll_vertical <= body_len {
            self.scroll_vertical
        } else {
            body_len
        };
        let take = if self.height <= body_len - start {
            self.height
        } else {
            body_len - start
        };
        let mut r: Vec<ViewLine> = Vec::new();
        let mut k: usize = 0;
        while k < take
            invariant
                k <= take,
                body_len == self.view.body@.len(),
                start + take <= body_len,
                r@.len() == k,
                forall|j: int|
                    0 <= j < k ==> same_view_line(#[trigger] r@[j], self.view.body@[start + j]),
            decreases take - k,
        {
            r.push(self.view.body[start + k].clone());
            k += 1;
        }
        r
    }
}

} // verus!
