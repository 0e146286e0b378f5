//! The List mode: cursor navigation over the todo lines, a visual range
//! selection anchored where it was toggled on, and range deletion.

use vstd::prelude::*;

use crate::events::{Artifact, Event, MetaEvent, State};
use crate::line_type::{token_of, LineType};
use crate::todo_file::{spec_clamp, spec_remove_range, TodoFile, TodoLine};
use crate::view_data::{segment_model, DisplayColor, LineSegment, ViewData, ViewLine};

verus! {

broadcast use vstd::string::group_string_axioms;

/// `n` spaces.
pub open spec fn spaces(n: nat) -> Seq<char> {
    Seq::new(n, |i: int| ' ')
}

/// `s` padded with spaces on the right to at least `width` characters.
pub open spec fn padded_to(s: Seq<char>, width: int) -> Seq<char> {
    if s.len() >= width {
        s
    } else {
        s + spaces((width - s.len()) as nat)
    }
}

/// The text of one list row: a cursor mark for the selected row, the token,
/// and the content; a pick row pads its hash to a column and appends the
/// comment.
pub open spec fn list_row_text(line: TodoLine, row_selected: bool) -> Seq<char> {
    let prefix = if row_selected { " > "@ } else { "   "@ };
    if line.line_type == LineType::Pick {
        prefix + token_of(line.line_type) + " "@ + padded_to(line.content@, 8) + " "@
            + line.comment@
    } else {
        prefix + token_of(line.line_type) + " "@ + line.content@
    }
}

/// The anchor as a mathematical value.
pub open spec fn anchor_model(anchor: Option<usize>) -> Option<int> {
    match anchor {
        Some(a) => Some(a as int),
        None => None,
    }
}

/// Whether row `i` is drawn as selected: within the visual range between the
/// anchor and the cursor, or the cursor row alone outside visual mode.
pub open spec fn spec_row_selected(sel: int, anchor: Option<int>, i: int) -> bool {
    match anchor {
        Some(a) => {
            let lo = if a <= sel { a } else { sel };
            let hi = if a <= sel { sel } else { a };
            lo <= i <= hi
        },
        None => i == sel,
    }
}

/// The lines, selection and anchor after the List mode handles `event`.
pub open spec fn spec_list_next(
    lines: Seq<TodoLine>,
    sel: int,
    anchor: Option<int>,
    event: Event,
) -> (Seq<TodoLine>, int, Option<int>) {
    match event {
        Event::Meta(MetaEvent::MoveCursorUp) => (
            lines,
            if sel > 0 { sel - 1 } else { 0 },
            anchor,
        ),
        Event::Meta(MetaEvent::MoveCursorDown) => (
            lines,
            spec_clamp(sel + 1, lines.len() as int),
            anchor,
        ),
        Event::Meta(MetaEvent::ToggleVisualMode) => (
            lines,
            sel,
            if anchor is Some { None } else { Some(sel) },
        ),
        Event::Meta(MetaEvent::Delete) => {
            let a = match anchor {
                Some(a) => a,
                None => sel,
            };
            let lo = if a <= sel { a } else { sel };
            let after = spec_remove_range(lines, a, sel);
            (after, spec_clamp(lo, after.len() as int), None)
        },
        _ => (lines, sel, anchor),
    }
}

/// Deleting the visual range between anchor `a` and cursor `b` removes the
/// same lines, and leaves the same selection, as deleting between anchor `b`
/// and cursor `a`: the range is order-independent.
pub proof fn lemma_visual_delete_symmetry(lines: Seq<TodoLine>, a: int, b: int)
    ensures
        spec_list_next(lines, b, Some(a), Event::Meta(MetaEvent::Delete)) == spec_list_next(
            lines,
            a,
            Some(b),
            Event::Meta(MetaEvent::Delete),
        ),
{
}

/// Whether row `i` of `body` shows line `i` of `lines` correctly: a single
/// normal segment with the row text, the selection mark, and padding on the
/// selected rows.
pub open spec fn list_row_ok(
    body: Seq<ViewLine>,
    lines: Seq<TodoLine>,
    sel: int,
    anchor: Option<int>,
    i: int,
) -> bool {
    let row_selected = spec_row_selected(sel, anchor, i);
    &&& body[i].segments@.len() == 1
    &&& segment_model(body[i].segments@[0]) == (
        list_row_text(lines[i], row_selected),
        DisplayColor::Normal,
        false,
        false,
    )
    &&& body[i].selected == row_selected
    &&& body[i].padding == (if row_selected {
        Some(' ')
    } else {
        Option::<char>::None
    })
}

/// The List mode: the todo file and the visual-selection anchor, present
/// exactly while visual mode is on.
pub struct List {
    pub todo_file: TodoFile,
    pub visual_index_start: Option<usize>,
}

/// The List mode over `todo_file`, not in visual mode.
pub fn create_list(todo_file: TodoFile) -> (r: List)
    ensures
        r.todo_file == todo_file,
        r.visual_index_start is None,
{
    List { todo_file, visual_index_start: None }
}

/// `s` padded with spaces on the right to at least eight characters.
fn padded_content(s: &String) -> (r: String)
    ensures
        r@ == padded_to(s@, 8),
{
    let mut r = s.clone();
    let mut n = s.as_str().unicode_len();
    proof {
        assert(r@ =~= s@ + spaces(0));
    }
    while n < 8
        invariant
            n == r@.len(),
            n >= s@.len(),
            n <= 8 || n == s@.len(),
            r@ == s@ + spaces((n - s@.len()) as nat),
        decreases 8 - n,
    {
        r.append(" ");
        n += 1;
        proof {
            reveal_strlit(" ");
            assert(r@ =~= s@ + spaces((n - s@.len()) as nat));
        }
    }
    proof {
        if s@.len() >= 8 {
            assert(r@ =~= padded_to(s@, 8));
        }
    }
    r
}

impl List {
    /// Enter the mode: visual selection off, the file untouched. Produces no
    /// outcomes.
    pub fn activate(&mut self, _previous: State) -> (r: Vec<Artifact>)
        ensures
            final(self).todo_file == old(self).todo_file,
            final(self).visual_index_start is None,
            r@ == Seq::<Artifact>::empty(),
    {
        self.visual_index_start = None;
        let r = Vec::new();
        proof {
            assert(r@ =~= Seq::<Artifact>::empty());
        }
        r
    }

    /// Leave the mode; nothing to clean up beyond what `activate` resets.
    pub fn deactivate(&mut self)
        ensures
            *final(self) == *old(self),
    {
    }

    /// Handle one input event: move the cursor with clamping, toggle the
    /// visual anchor, or delete the selected range and re-select the row
    /// that now occupies its place. Every event is echoed.
    pub fn handle_event(&mut self, event: Event) -> (r: Vec<Artifact>)
        requires
            old(self).todo_file.well_formed(),
        ensures
            final(self).todo_file.well_formed(),
            r@ == seq![Artifact::Event(event)],
            ({
                let (nl, ns, na) = spec_list_next(
                    old(self).todo_file.spec_lines(),
                    old(self).todo_file.spec_selected(),
                    anchor_model(old(self).visual_index_start),
                    event,
                );
                &&& final(self).todo_file.spec_lines() == nl
                &&& final(self).todo_file.spec_selected() == ns
                &&& anchor_model(final(self).visual_index_start) == na
            }),
    {
        match event {
            Event::Meta(MetaEvent::MoveCursorUp) => {
                let sel = self.todo_file.get_selected_line_index();
                if sel > 0 {
                    self.todo_file.set_selected_index(sel - 1);
                }
            },
            Event::Meta(MetaEvent::MoveCursorDown) => {
                let sel = self.todo_file.get_selected_line_index();
                let len = self.todo_file.len();
                if sel < len {
                    self.todo_file.set_selected_index(sel + 1);
                }
            },
            Event::Meta(MetaEvent::ToggleVisualMode) => {
                match self.visual_index_start {
                    Some(_) => {
                        self.visual_index_start = None;
                    },
                    None => {
                        self.visual_index_start = Some(
                            self.todo_file.get_selected_line_index(),
                        );
                    },
                }
            },
            Event::Meta(MetaEvent::Delete) => {
                let sel = self.todo_file.get_selected_line_index();
                let a = match self.visual_index_start {
                    Some(anchor) => anchor,
                    None => sel,
                };
                let lo = if a <= sel {
                    a
                } else {
                    sel
                };
                self.todo_file.remove_line_range(a, sel);
                self.todo_file.set_selected_index(lo);
                self.visual_index_start = None;
            },
            _ => {},
        }
        let mut out: Vec<Artifact> = Vec::new();
        out.push(Artifact::Event(event));
        proof {
            assert(out@ =~= seq![Artifact::Event(event)]);
        }
        out
    }

    /// Build the frame: one row per todo line under the title and help, the
    /// selected range marked with a cursor and padded to the full width.
    pub fn build_view_data(&self) -> (vd: ViewData)
        requires
            self.todo_file.well_formed(),
        ensures
            vd.show_title,
            vd.show_help,
            vd.leading@.len() == 0,
            vd.trailing@.len() == 0,
            vd.body@.len() == self.todo_file.spec_len(),
            forall|i: int|
                0 <= i < vd.body@.len() ==> #[trigger] list_row_ok(
                    vd.body@,
                    self.todo_file.spec_lines(),
                    self.todo_file.spec_selected(),
                    anchor_model(self.visual_index_start),
                    i,
                ),
    {
        let mut vd = ViewData::new();
        vd.set_show_title(true);
        vd.set_show_help(true);
        let len = self.todo_file.len();
        let sel = self.todo_file.get_selected_line_index();
        let mut i: usize = 0;
        while i < len
            invariant
                self.todo_file.well_formed(),
                len == self.todo_file.spec_len(),
                sel == self.todo_file.spec_selected(),
                i <= len,
                vd.show_title,
                vd.show_help,
                vd.leading@.len() == 0,
                vd.trailing@.len() == 0,
                vd.body@.len() == i,
                forall|j: int|
                    0 <= j < i ==> #[trigger] list_row_ok(
                        vd.body@,
                        self.todo_file.spec_lines(),
                        self.todo_file.spec_selected(),
                        anchor_model(self.visual_index_start),
                        j,
                    ),
            decreases len - i,
        {
            let row_selected = match self.visual_index_start {
                Some(a) => {
                    let lo = if a <= sel {
                        a
                    } else {
                        sel
                    };
                    let hi = if a <= sel {
                        sel
                    } else {
                        a
                    };
                    lo <= i && i <= hi
                },
                None => i == sel,
            };
            let line = match self.todo_file.get_line(i) {
                Some(line) => line,
                None => unreached(),
            };
            let mut text = String::from_str(
                if row_selected {
                    " > "
                } else {
                    "   "
                },
            );
            let token = line.line_type.to_string();
            text.append(token.as_str());
            text.append(" ");
            if let LineType::Pick = line.line_type {
                let padded = padded_content(&line.content);
                text.append(padded.as_str());
                text.append(" ");
                text.append(line.comment.as_str());
            } else {
                text.append(line.content.as_str());
            }
            let mut segments: Vec<LineSegment> = Vec::new();
            segments.push(LineSegment::new(text, DisplayColor::Normal, false, false));
            let ghost prev_body = vd.body@;
            vd.push_line(
                ViewLine {
                    segments,
                    selected: row_selected,
                    padding: if row_selected {
                        Some(' ')
                    } else {
                        None
                    },
                },
            );
            proof {
                let sel_model = self.todo_file.spec_selected();
                let anchor = anchor_model(self.visual_index_start);
                let lines = self.todo_file.spec_lines();
                assert(row_selected == spec_row_selected(sel_model, anchor, i as int));
                assert(list_row_ok(vd.body@, lines, sel_model, anchor, i as int));
                assert forall|j: int| 0 <= j < i + 1 implies #[trigger] list_row_ok(
                    vd.body@,
                    lines,
                    sel_model,
                    anchor,
                    j,
                ) by {
                    if j < i {
                        assert(vd.body@[j] == prev_body[j]);
                        assert(list_row_ok(prev_body, lines, sel_model, anchor, j));
                    }
                }
            }
            i += 1;
        }
        vd
    }
}

} // verus!
