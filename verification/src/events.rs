//! Input events fed to the active mode, and the outcomes a mode hands back.

use vstd::prelude::*;

verus! {

/// A navigation or editing intent decoded from the raw key stream.
#[derive(Clone, Copy, Debug, PartialEq, Eq, Structural)]
pub enum MetaEvent {
    MoveCursorUp,
    MoveCursorDown,
    ToggleVisualMode,
    Delete,
}

/// One input event. A printable key arrives as `Char`, the commit key as
/// `Enter`, and decoded intents as `Meta`.
#[derive(Clone, Copy, Debug, PartialEq, Eq, Structural)]
pub enum Event {
    Char(char),
    Enter,
    Meta(MetaEvent),
}

/// The mode the dispatcher should activate next.
#[derive(Clone, Copy, Debug, PartialEq, Eq, Structural)]
pub enum State {
    List,
    Insert,
}

/// One outcome of handling an event: the event echoed for outer layers, or a
/// request to change the active mode. An unrecognized event is still echoed,
/// never dropped.
#[derive(Clone, Copy, Debug, PartialEq, Eq, Structural)]
pub enum Artifact {
    Event(Event),
    ChangeState(State),
}

} // verus!
