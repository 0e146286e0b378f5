//! The Insert mode: a two-phase automaton that first lets the user choose a
//! line type from a menu, then accumulates the content of the new line, and
//! on commit places the line right after the current selection.

use vstd::prelude::*;

use crate::events::{Artifact, Event, State};
use crate::line_type::{token_of, LineType};
use crate::todo_file::{spec_clamp, line_model, TodoFile, TodoLine};
use crate::view_data::{
    is_plain_line, segment_model, DisplayColor, LineSegment, ViewData, ViewLine,
};

verus! {

/// The phase the Insert mode is in.
#[derive(Clone, Copy, Debug, PartialEq, Eq, Structural)]
pub enum InsertState {
    ChoosingType,
    EnteringContent,
}

/// Relies on `String::push`: appends the given character to the string.
#[verifier::external_body]
fn push_char(s: &mut String, c: char)
    ensures
        final(s)@ == old(s)@.push(c),
{
    s.push(c);
}

/// The line type offered under a one-letter menu choice; `Cancel` under `q`
/// aborts the insertion.
pub open spec fn spec_choice_of(c: char) -> Option<LineType> {
    if c == 'e' {
        Some(LineType::Exec)
    } else if c == 'p' {
        Some(LineType::Pick)
    } else if c == 'l' {
        Some(LineType::Label)
    } else if c == 'r' {
        Some(LineType::Reset)
    } else if c == 'm' {
        Some(LineType::Merge)
    } else if c == 'u' {
        Some(LineType::UpdateRef)
    } else if c == 'q' {
        Some(LineType::Cancel)
    } else {
        None
    }
}

/// The mode state after handling `event`: the next phase, chosen type and
/// buffer. The todo file's change is stated separately.
pub open spec fn spec_insert_next(
    m: (InsertState, LineType, Seq<char>, State),
    event: Event,
) -> (InsertState, LineType, Seq<char>, State) {
    let (state, line_type, content, previous) = m;
    match state {
        InsertState::ChoosingType => match event {
            Event::Char(c) => match spec_choice_of(c) {
                Some(LineType::Cancel) => m,
                Some(choice) => (InsertState::EnteringContent, choice, Seq::empty(), previous),
                None => m,
            },
            _ => m,
        },
        InsertState::EnteringContent => match event {
            Event::Char(c) => (state, line_type, content.push(c), previous),
            _ => m,
        },
    }
}

/// The outcomes of handling `event`: the event is always echoed, and a
/// request to restore the previous mode follows when the insertion is
/// aborted or committed.
pub open spec fn spec_insert_artifacts(
    m: (InsertState, LineType, Seq<char>, State),
    event: Event,
) -> Seq<Artifact> {
    let (state, line_type, content, previous) = m;
    let leaves = match state {
        InsertState::ChoosingType => event matches Event::Char(c) && spec_choice_of(c) == Some(
            LineType::Cancel,
        ),
        InsertState::EnteringContent => event == Event::Enter,
    };
    if leaves {
        seq![Artifact::Event(event), Artifact::ChangeState(previous)]
    } else {
        seq![Artifact::Event(event)]
    }
}

/// Whether handling `event` in mode state `m` commits a new line: a commit
/// needs the entry phase, the commit key, a non-empty buffer, and a chosen
/// persisted type — the `Cancel` sentinel is never written into the file.
pub open spec fn spec_insert_commits(
    m: (InsertState, LineType, Seq<char>, State),
    event: Event,
) -> bool {
    &&& m.0 == InsertState::EnteringContent
    &&& event == Event::Enter
    &&& m.2.len() > 0
    &&& m.1 != LineType::Cancel
}

/// Whether `vd` is the type-choice menu frame.
pub open spec fn is_prompt_frame(vd: ViewData) -> bool {
    &&& vd.show_title
    &&& !vd.show_help
    &&& vd.leading@.len() == 2
    &&& is_plain_line(vd.leading@[0], "Select the type of line to insert:"@, DisplayColor::Normal)
    &&& crate::view_data::is_blank_line(vd.leading@[1])
    &&& vd.body@.len() == 9
    &&& is_plain_line(vd.body@[0], "e) exec <command>"@, DisplayColor::Normal)
    &&& is_plain_line(vd.body@[1], "p) pick <hash>"@, DisplayColor::Normal)
    &&& is_plain_line(vd.body@[2], "l) label <label>"@, DisplayColor::Normal)
    &&& is_plain_line(vd.body@[3], "r) reset <label>"@, DisplayColor::Normal)
    &&& is_plain_line(
        vd.body@[4],
        "m) merge [-C <commit> | -c <commit>] <label> [# <oneline>]"@,
        DisplayColor::Normal,
    )
    &&& is_plain_line(vd.body@[5], "u) update-ref <reference>"@, DisplayColor::Normal)
    &&& is_plain_line(vd.body@[6], "q) Cancel add line"@, DisplayColor::Normal)
    &&& crate::view_data::is_blank_line(vd.body@[7])
    &&& is_plain_line(vd.body@[8], "Please choose an option."@, DisplayColor::IndicatorColor)
    &&& vd.trailing@.len() == 0
}

/// Whether `vd` is the content-entry frame for the chosen `line_type` and
/// the buffer so far: the dimmed token, the buffer, and an underlined cursor
/// mark, with the entry hints above and below.
pub open spec fn is_edit_frame(vd: ViewData, line_type: LineType, content: Seq<char>) -> bool {
    &&& vd.show_title
    &&& !vd.show_help
    &&& vd.leading@.len() == 2
    &&& is_plain_line(
        vd.leading@[0],
        "Enter contents of the new line. Empty content cancels creation of a new line."@,
        DisplayColor::IndicatorColor,
    )
    &&& crate::view_data::is_blank_line(vd.leading@[1])
    &&& vd.body@.len() == 1
    &&& vd.body@[0].segments@.len() == 3
    &&& segment_model(vd.body@[0].segments@[0]) == (
        token_of(line_type) + " "@,
        DisplayColor::Normal,
        true,
        false,
    )
    &&& segment_model(vd.body@[0].segments@[1]) == (
        content,
        DisplayColor::Normal,
        false,
        false,
    )
    &&& segment_model(vd.body@[0].segments@[2]) == (
        Seq::<char>::empty(),
        DisplayColor::Normal,
        false,
        true,
    )
    &&& !vd.body@[0].selected
    &&& vd.body@[0].padding is None
    &&& vd.trailing@.len() == 1
    &&& is_plain_line(vd.trailing@[0], "Enter to finish"@, DisplayColor::IndicatorColor)
}

/// The Insert mode and the todo file it inserts into.
pub struct Insert {
    pub todo_file: TodoFile,
    pub state: InsertState,
    pub line_type: LineType,
    pub content: String,
    pub previous_state: State,
}

/// The Insert mode over `todo_file`.
pub fn create_insert(todo_file: TodoFile) -> (r: Insert)
    ensures
        r.todo_file == todo_file,
        r.model() == (InsertState::ChoosingType, LineType::Cancel, Seq::<char>::empty(), State::List),
{
    Insert::new(todo_file)
}

impl Insert {
    /// The phase the mode is in.
    pub open spec fn spec_state(&self) -> InsertState {
        self.state
    }

    /// The chosen line type; `Cancel` while none is chosen.
    pub open spec fn spec_line_type(&self) -> LineType {
        self.line_type
    }

    /// The accumulated content buffer.
    pub open spec fn spec_content(&self) -> Seq<char> {
        self.content@
    }

    /// The mode to return to on exit.
    pub open spec fn spec_previous_state(&self) -> State {
        self.previous_state
    }

    /// The abstract state of the mode.
    pub open spec fn model(&self) -> (InsertState, LineType, Seq<char>, State) {
        (self.spec_state(), self.spec_line_type(), self.spec_content(), self.spec_previous_state())
    }

    /// A fresh Insert mode over `todo_file`, still choosing a type.
    pub fn new(todo_file: TodoFile) -> (r: Insert)
        ensures
            r.todo_file == todo_file,
            r.model() == (
                InsertState::ChoosingType,
                LineType::Cancel,
                Seq::<char>::empty(),
                State::List,
            ),
    {
        Insert {
            todo_file,
            state: InsertState::ChoosingType,
            line_type: LineType::Cancel,
            content: String::new(),
            previous_state: State::List,
        }
    }

    /// Enter the mode from `previous`: clears any stale buffer and remembers
    /// where to return. Produces no outcomes.
    pub fn activate(&mut self, previous: State) -> (r: Vec<Artifact>)
        ensures
            final(self).todo_file == old(self).todo_file,
            final(self).model() == (
                InsertState::ChoosingType,
                LineType::Cancel,
                Seq::<char>::empty(),
                previous,
            ),
            r@ == Seq::<Artifact>::empty(),
    {
        self.state = InsertState::ChoosingType;
        self.line_type = LineType::Cancel;
        self.content = String::new();
        self.previous_state = previous;
        let r = Vec::new();
        proof {
            assert(r@ =~= Seq::<Artifact>::empty());
        }
        r
    }

    /// Leave the mode; nothing to clean up beyond what `activate` resets.
    pub fn deactivate(&mut self)
        ensures
            *final(self) == *old(self),
    {
    }

    /// Handle one input event. The event is echoed; a menu choice moves to
    /// content entry; `q` aborts back to the previous mode; a printable key
    /// appends to the buffer; commit with a non-empty buffer and a chosen
    /// persisted type inserts the new line right after the selected line and
    /// selects it, and commit with an empty buffer — or with no type chosen —
    /// restores the previous mode with the file unchanged.
    pub fn handle_event(&mut self, event: Event) -> (r: Vec<Artifact>)
        requires
            old(self).todo_file.well_formed(),
        ensures
            final(self).todo_file.well_formed(),
            r@ == spec_insert_artifacts(old(self).model(), event),
            final(self).model() == spec_insert_next(old(self).model(), event),
            spec_insert_commits(old(self).model(), event) ==> {
                let at = spec_clamp(
                    old(self).todo_file.spec_selected() + 1,
                    old(self).todo_file.spec_len() + 1,
                );
                &&& final(self).todo_file.spec_lines() == old(self).todo_file.spec_lines().insert(
                    at,
                    final(self).todo_file.spec_lines()[at],
                )
                &&& line_model(final(self).todo_file.spec_lines()[at]) == (
                    old(self).spec_line_type(),
                    old(self).spec_content(),
                    Seq::<char>::empty(),
                )
                &&& final(self).todo_file.spec_selected() == at
            },
            !spec_insert_commits(old(self).model(), event) ==> final(self).todo_file == old(
                self,
            ).todo_file,
    {
        let mut out: Vec<Artifact> = Vec::new();
        out.push(Artifact::Event(event));
        match self.state {
            InsertState::ChoosingType => {
                if let Event::Char(c) = event {
                    match Self::choice_of(c) {
                        Some(LineType::Cancel) => {
                            out.push(Artifact::ChangeState(self.previous_state));
                        },
                        Some(choice) => {
                            self.state = InsertState::EnteringContent;
                            self.line_type = choice;
                            self.content = String::new();
                        },
                        None => {},
                    }
                }
            },
            InsertState::EnteringContent => {
                match event {
                    Event::Char(c) => {
                        push_char(&mut self.content, c);
                    },
                    Event::Enter => {
                        let chose_persisted = match self.line_type {
                            LineType::Cancel => false,
                            _ => true,
                        };
                        if !self.content.as_str().is_empty() && chose_persisted {
                            let line = TodoLine::new(self.line_type, self.content.clone());
                            let len = self.todo_file.len();
                            let selected = self.todo_file.get_selected_line_index();
                            let at = if selected < len {
                                selected + 1
                            } else {
                                len
                            };
                            self.todo_file.insert_line(at, line);
                            self.todo_file.set_selected_index(at);
                        }
                        out.push(Artifact::ChangeState(self.previous_state));
                    },
                    _ => {},
                }
            },
        }
        proof {
            assert(out@ =~= spec_insert_artifacts(old(self).model(), event));
        }
        out
    }

    /// Build the frame for the current phase: the type-choice menu, or the
    /// content-entry preview of the line being written.
    pub fn build_view_data(&self) -> (vd: ViewData)
        ensures
            match self.spec_state() {
                InsertState::ChoosingType => is_prompt_frame(vd),
                InsertState::EnteringContent => is_edit_frame(
                    vd,
                    self.spec_line_type(),
                    self.spec_content(),
                ),
            },
    {
        let mut vd = ViewData::new();
        vd.set_show_title(true);
        match self.state {
            InsertState::ChoosingType => {
                vd.push_leading_line(
                    ViewLine::from_text("Select the type of line to insert:"),
                );
                vd.push_leading_line(ViewLine::blank());
                vd.push_line(ViewLine::from_text("e) exec <command>"));
                vd.push_line(ViewLine::from_text("p) pick <hash>"));
                vd.push_line(ViewLine::from_text("l) label <label>"));
                vd.push_line(ViewLine::from_text("r) reset <label>"));
                vd.push_line(
                    ViewLine::from_text(
                        "m) merge [-C <commit> | -c <commit>] <label> [# <oneline>]",
                    ),
                );
                vd.push_line(ViewLine::from_text("u) update-ref <reference>"));
                vd.push_line(ViewLine::from_text("q) Cancel add line"));
                vd.push_line(ViewLine::blank());
                vd.push_line(
                    ViewLine::colored("Please choose an option.", DisplayColor::IndicatorColor),
                );
            },
            InsertState::EnteringContent => {
                vd.push_leading_line(
                    ViewLine::colored(
                        "Enter contents of the new line. Empty content cancels creation of a new line.",
                        DisplayColor::IndicatorColor,
                    ),
                );
                vd.push_leading_line(ViewLine::blank());
                let mut token = self.line_type.to_string();
                token.append(" ");
                let mut segments: Vec<LineSegment> = Vec::new();
                segments.push(LineSegment::new(token, DisplayColor::Normal, true, false));
                segments.push(
                    LineSegment::new(self.content.clone(), DisplayColor::Normal, false, false),
                );
                segments.push(
                    LineSegment::new(String::new(), DisplayColor::Normal, false, true),
                );
                vd.push_line(ViewLine::from_segments(segments));
                vd.push_trailing_line(
                    ViewLine::colored("Enter to finish", DisplayColor::IndicatorColor),
                );
            },
        }
        vd
    }

    /// The executable mirror of [`spec_choice_of`].
    fn choice_of(c: char) -> (r: Option<LineType>)
        ensures
            r == spec_choice_of(c),
    {
        if c == 'e' {
            Some(LineType::Exec)
        } else if c == 'p' {
            Some(LineType::Pick)
        } else if c == 'l' {
            Some(LineType::Label)
        } else if c == 'r' {
            Some(LineType::Reset)
        } else if c == 'm' {
            Some(LineType::Merge)
        } else if c == 'u' {
            Some(LineType::UpdateRef)
        } else if c == 'q' {
            Some(LineType::Cancel)
        } else {
            None
        }
    }
}

} // verus!
