//! The cross-thread handle that queues lifecycle and redraw command tokens
//! for the render thread, and records scroll and resize intents in the
//! shared [`RenderSlice`]. Command tokens carry no payload: the frame to
//! draw travels through the separately locked render slice, so a slow
//! consumer never blocks the recording of the latest intent.

use std::sync::atomic::{AtomicBool, Ordering};
use std::sync::Arc;

use vstd::prelude::*;
use vstd::rwlock::{RwLock, RwLockPredicate};

use crate::render_slice::{RenderAction, RenderSlice};
use crate::view_data::ViewData;

verus! {

/// A lifecycle or redraw command token for the render thread. `Stop`
/// suspends redrawing, `End` terminates the thread; callers send `Stop`
/// before `End`.
#[derive(Clone, Copy, Debug, PartialEq, Eq, Structural)]
pub enum ViewAction {
    Start,
    Stop,
    End,
    Render,
}

/// The recoverable failure of a queueing operation: the render thread's
/// receiving end is gone.
#[derive(Clone, Copy, Debug, PartialEq, Eq, Structural)]
pub enum SenderError {
    Closed,
}

impl SenderError {
    /// The message shown for this failure.
    pub fn message(&self) -> (r: String)
        ensures
            r@ == "Unable to send data"@,
    {
        String::from_str("Unable to send data")
    }
}

/// What the render slice lock guarantees of its contents. Every slice value
/// is acceptable: the windowing operations keep their own offsets in range,
/// and a stale offset is clamped when the window is computed.
pub struct SliceInv;

impl RwLockPredicate<RenderSlice> for SliceInv {
    open spec fn inv(self, slice: RenderSlice) -> bool {
        true
    }
}

#[verifier::external_type_specification]
#[verifier::external_body]
#[verifier::reject_recursive_types(T)]
pub struct ExChannelSender<T>(crossbeam_channel::Sender<T>);

/// Relies on crossbeam_channel's `Sender::send`: the message is queued for
/// the receiver, or comes back as an error exactly when the receiving end
/// has been dropped; it never panics.
#[verifier::external_body]
fn send_view_action(sender: &crossbeam_channel::Sender<ViewAction>, action: ViewAction) -> (r:
    Result<(), SenderError>)
{
    sender.send(action).map_err(|_| SenderError::Closed)
}

/// Relies on crossbeam_channel's `Sender::clone`: the clone is another
/// handle that sends to the same channel.
#[verifier::external_body]
fn clone_channel_sender(sender: &crossbeam_channel::Sender<ViewAction>) -> (r:
    crossbeam_channel::Sender<ViewAction>)
    ensures
        r == *sender,
{
    sender.clone()
}

/// Relies on `Arc::clone`: the clone is a handle to the same shared value.
#[verifier::external_body]
fn clone_arc<T>(arc: &Arc<T>) -> (r: Arc<T>)
    ensures
        r == *arc,
{
    Arc::clone(arc)
}

/// The cloneable handle the input side drives the render thread with.
pub struct ViewSender {
    poisoned: Arc<AtomicBool>,
    paused: Arc<AtomicBool>,
    sender: crossbeam_channel::Sender<ViewAction>,
    render_slice: Arc<RwLock<RenderSlice, SliceInv>>,
}

impl Clone for ViewSender {
    fn clone(&self) -> (r: Self)
        ensures
            r == *self,
    {
        ViewSender {
            poisoned: clone_arc(&self.poisoned),
            paused: clone_arc(&self.paused),
            sender: clone_channel_sender(&self.sender),
            render_slice: clone_arc(&self.render_slice),
        }
    }
}

impl ViewSender {
    /// The shared poisoned flag.
    pub closed spec fn spec_poisoned(&self) -> Arc<AtomicBool> {
        self.poisoned
    }

    /// The shared paused flag.
    pub closed spec fn spec_paused(&self) -> Arc<AtomicBool> {
        self.paused
    }

    /// The shared render slice.
    pub closed spec fn spec_render_slice(&self) -> Arc<RwLock<RenderSlice, SliceInv>> {
        self.render_slice
    }

    /// The channel handle every queueing operation sends on.
    pub closed spec fn spec_sender(&self) -> crossbeam_channel::Sender<ViewAction> {
        self.sender
    }

    /// A handle that queues onto `sender`, with fresh flags and an empty
    /// render slice.
    pub fn new(sender: crossbeam_channel::Sender<ViewAction>) -> (r: ViewSender)
        ensures
            r.spec_sender() == sender,
    {
        ViewSender {
            poisoned: Arc::new(AtomicBool::new(false)),
            paused: Arc::new(AtomicBool::new(false)),
            sender,
            render_slice: Arc::new(RwLock::new(RenderSlice::new(), Ghost(SliceInv))),
        }
    }

    /// A handle to the shared poisoned flag.
    pub fn clone_poisoned(&self) -> (r: Arc<AtomicBool>)
        ensures
            r == self.spec_poisoned(),
    {
        clone_arc(&self.poisoned)
    }

    /// Whether the system is poisoned and no longer accepting actions.
    pub fn is_poisoned(&self) -> bool {
        self.poisoned.load(Ordering::Acquire)
    }

    /// Whether redrawing is paused.
    pub fn is_paused(&self) -> bool {
        self.paused.load(Ordering::Relaxed)
    }

    /// A handle to the shared render slice.
    pub fn clone_render_slice(&self) -> (r: Arc<RwLock<RenderSlice, SliceInv>>)
        ensures
            r == self.spec_render_slice(),
    {
        clone_arc(&self.render_slice)
    }

    /// Append one intent to the slice's queue, under the write lock for the
    /// duration of the push alone.
    fn record_intent(&self, action: RenderAction) {
        let (mut slice, handle) = self.render_slice.acquire_write();
        slice.record(action);
        handle.release_write(slice);
    }

    /// Clear the paused flag and queue a `Start` token. Fails exactly when
    /// the receiving end is gone.
    pub fn start(&self) -> (r: Result<(), SenderError>)
        ensures
            r matches Err(e) ==> e == SenderError::Closed,
    {
        self.paused.store(false, Ordering::Relaxed);
        send_view_action(&self.sender, ViewAction::Start)
    }

    /// Set the paused flag and queue a `Stop` token. Fails exactly when the
    /// receiving end is gone.
    pub fn stop(&self) -> (r: Result<(), SenderError>)
        ensures
            r matches Err(e) ==> e == SenderError::Closed,
    {
        self.paused.store(true, Ordering::Relaxed);
        send_view_action(&self.sender, ViewAction::Stop)
    }

    /// Stop, then queue an `End` token: the `Stop` always goes out first.
    /// Fails exactly when the receiving end is gone.
    pub fn end(&self) -> (r: Result<(), SenderError>)
        ensures
            r matches Err(e) ==> e == SenderError::Closed,
    {
        match self.stop() {
            Ok(_) => send_view_action(&self.sender, ViewAction::End),
            Err(e) => Err(e),
        }
    }

    /// Record a scroll-to-top intent.
    pub fn scroll_top(&self) {
        self.record_intent(RenderAction::ScrollTop);
    }

    /// Record a scroll-to-bottom intent.
    pub fn scroll_bottom(&self) {
        self.record_intent(RenderAction::ScrollBottom);
    }

    /// Record a scroll-up intent.
    pub fn scroll_up(&self) {
        self.record_intent(RenderAction::ScrollUp);
    }

    /// Record a scroll-down intent.
    pub fn scroll_down(&self) {
        self.record_intent(RenderAction::ScrollDown);
    }

    /// Record a scroll-left intent.
    pub fn scroll_left(&self) {
        self.record_intent(RenderAction::ScrollLeft);
    }

    /// Record a scroll-right intent.
    pub fn scroll_right(&self) {
        self.record_intent(RenderAction::ScrollRight);
    }

    /// Record a page-up intent.
    pub fn scroll_page_up(&self) {
        self.record_intent(RenderAction::PageUp);
    }

    /// Record a page-down intent.
    pub fn scroll_page_down(&self) {
        self.record_intent(RenderAction::PageDown);
    }

    /// Record the new terminal size.
    pub fn resize(&self, width: u16, height: u16) {
        self.record_intent(RenderAction::Resize(width as usize, height as usize));
    }

    /// Sync `view_data` into the render slice, then queue a `Render` token,
    /// in that order: the synced frame is in place before the token is
    /// consumed. Fails exactly when the receiving end is gone.
    pub fn render(&self, view_data: &ViewData) -> (r: Result<(), SenderError>)
        ensures
            r matches Err(e) ==> e == SenderError::Closed,
    {
        let (mut slice, handle) = self.render_slice.acquire_write();
        slice.sync_view_data(view_data);
        handle.release_write(slice);
        send_view_action(&self.sender, ViewAction::Render)
    }
}

} // verus!
