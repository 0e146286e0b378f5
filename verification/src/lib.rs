//! Core engine of an interactive editor for a rebase todo file: the typed
//! action lines, the file model with its selection invariant, the List and
//! Insert input modes, and the view/render pipeline that hands frames to a
//! drawing thread.

pub mod events;
pub mod insert;
pub mod line_type;
pub mod list;
pub mod render_slice;
pub mod sender;
pub mod todo_file;
pub mod view_data;

pub use events::{Artifact, Event, MetaEvent, State};
pub use insert::{create_insert, Insert, InsertState};
pub use line_type::LineType;
pub use list::{create_list, List};
pub use render_slice::{RenderAction, RenderSlice};
pub use sender::{SenderError, ViewAction, ViewSender};
pub use todo_file::{TodoFile, TodoLine};
pub use view_data::{DisplayColor, LineSegment, ViewData, ViewLine};
