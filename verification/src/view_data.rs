//! The abstract, style-annotated description of one frame: a title flag, a
//! leading region, a scrollable body and a trailing region. A frame is
//! rebuilt whole on every render, never patched.

use vstd::prelude::*;

verus! {

/// The color a segment is drawn in.
#[derive(Clone, Copy, Debug, PartialEq, Eq, Structural)]
pub enum DisplayColor {
    Normal,
    IndicatorColor,
}

/// A run of text drawn in one style.
pub struct LineSegment {
    pub text: String,
    pub color: DisplayColor,
    pub dimmed: bool,
    pub underlined: bool,
}

/// One drawable line: its styled segments, whether it is the selected row,
/// and an optional character the renderer pads the row with to the full
/// terminal width.
pub struct ViewLine {
    pub segments: Vec<LineSegment>,
    pub selected: bool,
    pub padding: Option<char>,
}

/// One frame: the title flags and the three line regions.
pub struct ViewData {
    pub show_title: bool,
    pub show_help: bool,
    pub leading: Vec<ViewLine>,
    pub body: Vec<ViewLine>,
    pub trailing: Vec<ViewLine>,
}

/// The mathematical shape of a segment: its text and style.
pub open spec fn segment_model(seg: LineSegment) -> (Seq<char>, DisplayColor, bool, bool) {
    (seg.text@, seg.color, seg.dimmed, seg.underlined)
}

/// Whether two drawable lines show the same thing: segmentwise equal text
/// and style, and the same selection and padding marks.
pub open spec fn same_view_line(a: ViewLine, b: ViewLine) -> bool {
    &&& a.segments@.len() == b.segments@.len()
    &&& forall|i: int|
        0 <= i < a.segments@.len() ==> segment_model(a.segments@[i]) == segment_model(
            b.segments@[i],
        )
    &&& a.selected == b.selected
    &&& a.padding == b.padding
}

/// Whether two line sequences show the same thing, linewise.
pub open spec fn same_view_lines(a: Seq<ViewLine>, b: Seq<ViewLine>) -> bool {
    &&& a.len() == b.len()
    &&& forall|i: int| 0 <= i < a.len() ==> same_view_line(a[i], b[i])
}

/// Whether two frames show the same thing.
pub open spec fn same_view_data(a: ViewData, b: ViewData) -> bool {
    &&& a.show_title == b.show_title
    &&& a.show_help == b.show_help
    &&& same_view_lines(a.leading@, b.leading@)
    &&& same_view_lines(a.body@, b.body@)
    &&& same_view_lines(a.trailing@, b.trailing@)
}

impl Clone for LineSegment {
    fn clone(&self) -> (r: Self)
        ensures
            r == *self,
    {
        LineSegment {
            text: self.text.clone(),
            color: self.color,
            dimmed: self.dimmed,
            underlined: self.underlined,
        }
    }
}

impl Clone for ViewLine {
    fn clone(&self) -> (r: Self)
        ensures
            same_view_line(r, *self),
    {
        let segments = self.segments.clone();
        ViewLine { segments, selected: self.selected, padding: self.padding }
    }
}

impl Clone for ViewData {
    fn clone(&self) -> (r: Self)
        ensures
            same_view_data(r, *self),
    {
        let leading = self.leading.clone();
        let body = self.body.clone();
        let trailing = self.trailing.clone();
        ViewData {
            show_title: self.show_title,
            show_help: self.show_help,
            leading,
            body,
            trailing,
        }
    }
}

impl LineSegment {
    /// A segment of `text` in `color`, with the given modifiers.
    pub fn new(text: String, color: DisplayColor, dimmed: bool, underlined: bool) -> (r: Self)
        ensures
            r.text == text,
            r.color == color,
            r.dimmed == dimmed,
            r.underlined == underlined,
    {
        LineSegment { text, color, dimmed, underlined }
    }
}

/// Whether `line` is a plain unselected, unpadded line whose single segment
/// shows `text` in `color` with no modifiers.
pub open spec fn is_plain_line(line: ViewLine, text: Seq<char>, color: DisplayColor) -> bool {
    &&& line.segments@.len() == 1
    &&& line.segments@[0].text@ == text
    &&& line.segments@[0].color == color
    &&& !line.segments@[0].dimmed
    &&& !line.segments@[0].underlined
    &&& !line.selected
    &&& line.padding is None
}

/// Whether `line` is an empty spacer line.
pub open spec fn is_blank_line(line: ViewLine) -> bool {
    &&& line.segments@.len() == 0
    &&& !line.selected
    &&& line.padding is None
}

impl ViewLine {
    /// An empty spacer line.
    pub fn blank() -> (r: Self)
        ensures
            is_blank_line(r),
    {
        ViewLine { segments: Vec::new(), selected: false, padding: None }
    }

    /// A line of the given segments, unselected and unpadded.
    pub fn from_segments(segments: Vec<LineSegment>) -> (r: Self)
        ensures
            r.segments == segments,
            !r.selected,
            r.padding is None,
    {
        ViewLine { segments, selected: false, padding: None }
    }

    /// A plain line showing `text` in the normal color.
    pub fn from_text(text: &str) -> (r: Self)
        ensures
            is_plain_line(r, text@, DisplayColor::Normal),
    {
        ViewLine::colored(text, DisplayColor::Normal)
    }

    /// A plain line showing `text` in `color`.
    pub fn colored(text: &str, color: DisplayColor) -> (r: Self)
        ensures
            is_plain_line(r, text@, color),
    {
        let mut segments: Vec<LineSegment> = Vec::new();
        segments.push(LineSegment::new(String::from_str(text), color, false, false));
        ViewLine { segments, selected: false, padding: None }
    }
}

impl ViewData {
    /// An empty frame with no title.
    pub fn new() -> (r: Self)
        ensures
            !r.show_title,
            !r.show_help,
            r.leading@ == Seq::<ViewLine>::empty(),
            r.body@ == Seq::<ViewLine>::empty(),
            r.trailing@ == Seq::<ViewLine>::empty(),
    {
        let r = ViewData {
            show_title: false,
            show_help: false,
            leading: Vec::new(),
            body: Vec::new(),
            trailing: Vec::new(),
        };
        proof {
            assert(r.leading@ =~= Seq::<ViewLine>::empty());
            assert(r.body@ =~= Seq::<ViewLine>::empty());
            assert(r.trailing@ =~= Seq::<ViewLine>::empty());
        }
        r
    }

    /// Show or hide the title region.
    pub fn set_show_title(&mut self, show: bool)
        ensures
            *final(self) == (ViewData { show_title: show, ..*old(self) }),
    {
        self.show_title = show;
    }

    /// Show or hide the help hint beside the title.
    pub fn set_show_help(&mut self, show: bool)
        ensures
            *final(self) == (ViewData { show_help: show, ..*old(self) }),
    {
        self.show_help = show;
    }

    /// Append a line to the leading region.
    pub fn push_leading_line(&mut self, line: ViewLine)
        ensures
            *final(self) == (ViewData { leading: final(self).leading, ..*old(self) }),
            final(self).leading@ == old(self).leading@.push(line),
    {
        self.leading.push(line);
    }

    /// Append a line to the scrollable body.
    pub fn push_line(&mut self, line: ViewLine)
        ensures
            *final(self) == (ViewData { body: final(self).body, ..*old(self) }),
            final(self).body@ == old(self).body@.push(line),
    {
        self.body.push(line);
    }

    /// Append a line to the trailing region.
    pub fn push_trailing_line(&mut self, line: ViewLine)
        ensures
            *final(self) == (ViewData { trailing: final(self).trailing, ..*old(self) }),
            final(self).trailing@ == old(self).trailing@.push(line),
    {
        self.trailing.push(line);
    }
}

} // verus!
