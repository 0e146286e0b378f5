use std::sync::atomic::Ordering;

use rebase_todo::render_slice::{RenderAction, RenderSlice};
use rebase_todo::sender::{ViewAction, ViewSender};
use rebase_todo::view_data::{DisplayColor, LineSegment, ViewData, ViewLine};

fn new_sender() -> (
    ViewSender,
    crossbeam_channel::Receiver<ViewAction>,
) {
    let (tx, rx) = crossbeam_channel::unbounded();
    (ViewSender::new(tx), rx)
}

fn sent_messages(rx: &crossbeam_channel::Receiver<ViewAction>) -> Vec<String> {
    let mut out: Vec<String> = Vec::new();
    while let Ok(action) = rx.try_recv() {
        out.push(format!("{:?}", action));
    }
    out
}

fn recorded_actions(sender: &ViewSender) -> Vec<String> {
    let lock = sender.clone_render_slice();
    let handle = lock.acquire_read();
    let mut out: Vec<String> = Vec::new();
    for action in &handle.borrow().actions {
        out.push(format!("{:?}", action));
    }
    handle.release_read();
    out
}

fn render_view_line(line: &ViewLine) -> String {
    let mut out = String::new();
    for seg in &line.segments {
        let mut name = String::new();
        name.push_str(match seg.color {
            DisplayColor::Normal => "Normal",
            DisplayColor::IndicatorColor => "IndicatorColor",
        });
        if seg.dimmed {
            name.push_str(",Dimmed");
        }
        if seg.underlined {
            name.push_str(",Underline");
        }
        out.push_str(&format!("{{{}}}", name));
        out.push_str(&seg.text);
    }
    out
}

#[test]
fn poisoned() {
    let (sender, _rx) = new_sender();
    sender.clone_poisoned().store(true, Ordering::Release);
    assert!(sender.is_poisoned());
}

#[test]
fn start_success() {
    let (sender, rx) = new_sender();
    sender.start().unwrap();
    assert_eq!(sent_messages(&rx), vec!["Start".to_string()]);
    assert!(!sender.is_paused());
}

#[test]
fn start_error() {
    let (sender, rx) = new_sender();
    drop(rx);
    assert_eq!(
        sender.start().unwrap_err().message(),
        "Unable to send data".to_string()
    );
}

#[test]
fn stop_success() {
    let (sender, rx) = new_sender();
    sender.stop().unwrap();
    assert_eq!(sent_messages(&rx), vec!["Stop".to_string()]);
    assert!(sender.is_paused());
}

#[test]
fn stop_error() {
    let (sender, rx) = new_sender();
    drop(rx);
    assert_eq!(
        sender.stop().unwrap_err().message(),
        "Unable to send data".to_string()
    );
}

#[test]
fn end_success() {
    let (sender, rx) = new_sender();
    sender.end().unwrap();
    assert_eq!(
        sent_messages(&rx),
        vec!["Stop".to_string(), "End".to_string()]
    );
}

#[test]
fn end_error() {
    let (sender, rx) = new_sender();
    drop(rx);
    assert_eq!(
        sender.end().unwrap_err().message(),
        "Unable to send data".to_string()
    );
}

#[test]
fn scroll_top() {
    let (sender, _rx) = new_sender();
    sender.scroll_top();
    assert_eq!(recorded_actions(&sender), vec!["ScrollTop".to_string()]);
}

#[test]
fn scroll_bottom() {
    let (sender, _rx) = new_sender();
    sender.scroll_bottom();
    assert_eq!(recorded_actions(&sender), vec!["ScrollBottom".to_string()]);
}

#[test]
fn scroll_up() {
    let (sender, _rx) = new_sender();
    sender.scroll_up();
    assert_eq!(recorded_actions(&sender), vec!["ScrollUp".to_string()]);
}

#[test]
fn scroll_down() {
    let (sender, _rx) = new_sender();
    sender.scroll_down();
    assert_eq!(recorded_actions(&sender), vec!["ScrollDown".to_string()]);
}

#[test]
fn scroll_left() {
    let (sender, _rx) = new_sender();
    sender.scroll_left();
    assert_eq!(recorded_actions(&sender), vec!["ScrollLeft".to_string()]);
}

#[test]
fn scroll_right() {
    let (sender, _rx) = new_sender();
    sender.scroll_right();
    assert_eq!(recorded_actions(&sender), vec!["ScrollRight".to_string()]);
}

#[test]
fn scroll_page_up() {
    let (sender, _rx) = new_sender();
    sender.scroll_page_up();
    assert_eq!(recorded_actions(&sender), vec!["PageUp".to_string()]);
}

#[test]
fn scroll_page_down() {
    let (sender, _rx) = new_sender();
    sender.scroll_page_down();
    assert_eq!(recorded_actions(&sender), vec!["PageDown".to_string()]);
}

#[test]
fn resize() {
    let (sender, _rx) = new_sender();
    sender.resize(10, 20);
    assert_eq!(recorded_actions(&sender), vec!["Resize(10, 20)".to_string()]);
}

#[test]
fn render() {
    let (sender, _rx) = new_sender();
    sender.resize(300, 100);
    let mut view_data = ViewData::new();
    view_data.push_line(ViewLine::from_text("Foo"));
    sender.render(&view_data).unwrap();
    let lock = sender.clone_render_slice();
    let handle = lock.acquire_read();
    let lines = handle.borrow().get_lines();
    handle.release_read();
    assert_eq!(render_view_line(lines.first().unwrap()), "{Normal}Foo");
}

#[test]
fn resize_applies_before_later_render() {
    let (sender, rx) = new_sender();
    sender.resize(80, 2);
    let mut view_data = ViewData::new();
    for text in ["one", "two", "three", "four"] {
        view_data.push_line(ViewLine::from_text(text));
    }
    sender.render(&view_data).unwrap();
    assert_eq!(sent_messages(&rx), vec!["Render".to_string()]);
    let lock = sender.clone_render_slice();
    let handle = lock.acquire_read();
    assert!(handle.borrow().actions.is_empty());
    let lines = handle.borrow().get_lines();
    handle.release_read();
    assert_eq!(lines.len(), 2);
    assert_eq!(render_view_line(&lines[0]), "{Normal}one");
    assert_eq!(render_view_line(&lines[1]), "{Normal}two");
}

#[test]
fn send_after_close_never_panics_and_always_errors() {
    let (sender, rx) = new_sender();
    drop(rx);
    for _ in 0..3 {
        assert_eq!(
            sender.start().unwrap_err().message(),
            "Unable to send data".to_string()
        );
        assert_eq!(
            sender.stop().unwrap_err().message(),
            "Unable to send data".to_string()
        );
        assert_eq!(
            sender.end().unwrap_err().message(),
            "Unable to send data".to_string()
        );
        let view_data = ViewData::new();
        assert_eq!(
            sender.render(&view_data).unwrap_err().message(),
            "Unable to send data".to_string()
        );
    }
}

#[test]
fn cloned_sender_shares_flags_and_slice() {
    let (sender, rx) = new_sender();
    let other = sender.clone();
    other.stop().unwrap();
    assert!(sender.is_paused());
    other.scroll_top();
    assert_eq!(recorded_actions(&sender), vec!["ScrollTop".to_string()]);
    assert_eq!(sent_messages(&rx), vec!["Stop".to_string()]);
}

#[test]
fn scroll_intents_apply_in_recorded_order() {
    let mut slice = RenderSlice::new();
    slice.record(RenderAction::Resize(80, 2));
    slice.record(RenderAction::ScrollDown);
    slice.record(RenderAction::ScrollDown);
    slice.record(RenderAction::ScrollUp);
    let mut view_data = ViewData::new();
    for text in ["one", "two", "three", "four"] {
        view_data.push_line(ViewLine::from_text(text));
    }
    slice.sync_view_data(&view_data);
    assert_eq!(slice.scroll_vertical, 1);
    assert_eq!(slice.height, 2);
    assert_eq!(slice.width, 80);
    let lines = slice.get_lines();
    assert_eq!(render_view_line(&lines[0]), "{Normal}two");
    assert_eq!(render_view_line(&lines[1]), "{Normal}three");
}
