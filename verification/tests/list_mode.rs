use rebase_todo::events::{Event, MetaEvent, State};
use rebase_todo::list::create_list;
use rebase_todo::todo_file::TodoFile;
use rebase_todo::view_data::{DisplayColor, LineSegment, ViewData, ViewLine};

fn segment_styles(seg: &LineSegment) -> String {
    let mut name = String::new();
    name.push_str(match seg.color {
        DisplayColor::Normal => "Normal",
        DisplayColor::IndicatorColor => "IndicatorColor",
    });
    if seg.dimmed {
        name.push_str(",Dimmed");
    }
    if seg.underlined {
        name.push_str(",Underline");
    }
    format!("{{{}}}", name)
}

fn render_line(line: &ViewLine, exclude_style: bool) -> String {
    let mut out = String::new();
    if line.selected {
        out.push_str("{Selected}");
    }
    for seg in &line.segments {
        if !exclude_style {
            out.push_str(&segment_styles(seg));
        }
        out.push_str(&seg.text);
    }
    if let Some(pad) = line.padding {
        out.push_str(&format!("{{Pad({})}}", pad));
    }
    out
}

fn rendered(view_data: &ViewData, exclude_style: bool) -> Vec<String> {
    let mut out: Vec<String> = Vec::new();
    if view_data.show_title {
        if view_data.show_help {
            out.push("{TITLE}{HELP}".to_string());
        } else {
            out.push("{TITLE}".to_string());
        }
    }
    if !view_data.leading.is_empty() {
        out.push("{LEADING}".to_string());
        for line in &view_data.leading {
            out.push(render_line(line, exclude_style));
        }
    }
    if !view_data.body.is_empty() {
        out.push("{BODY}".to_string());
        for line in &view_data.body {
            out.push(render_line(line, exclude_style));
        }
    }
    if !view_data.trailing.is_empty() {
        out.push("{TRAILING}".to_string());
        for line in &view_data.trailing {
            out.push(render_line(line, exclude_style));
        }
    }
    out
}

fn five_picks() -> TodoFile {
    let raw: Vec<String> = vec![
        "pick aaa c1".to_string(),
        "pick bbb c2".to_string(),
        "pick ccc c3".to_string(),
        "pick ddd c4".to_string(),
        "pick eee c5".to_string(),
    ];
    TodoFile::from_text_lines(&raw)
}

#[test]
fn normal_mode_remove_line_first() {
    let mut module = create_list(five_picks());
    let _ = module.handle_event(Event::Meta(MetaEvent::Delete));
    assert_eq!(
        rendered(&module.build_view_data(), true),
        vec![
            "{TITLE}{HELP}".to_string(),
            "{BODY}".to_string(),
            "{Selected} > pick bbb      c2{Pad( )}".to_string(),
            "   pick ccc      c3".to_string(),
            "   pick ddd      c4".to_string(),
            "   pick eee      c5".to_string(),
        ]
    );
}

#[test]
fn normal_mode_remove_line_end() {
    let mut module = create_list(five_picks());
    for event in [
        Event::Meta(MetaEvent::MoveCursorDown),
        Event::Meta(MetaEvent::MoveCursorDown),
        Event::Meta(MetaEvent::MoveCursorDown),
        Event::Meta(MetaEvent::MoveCursorDown),
        Event::Meta(MetaEvent::Delete),
    ] {
        let _ = module.handle_event(event);
    }
    assert_eq!(
        rendered(&module.build_view_data(), true),
        vec![
            "{TITLE}{HELP}".to_string(),
            "{BODY}".to_string(),
            "   pick aaa      c1".to_string(),
            "   pick bbb      c2".to_string(),
            "   pick ccc      c3".to_string(),
            "{Selected} > pick ddd      c4{Pad( )}".to_string(),
        ]
    );
}

#[test]
fn visual_mode_remove_lines_start_index_first() {
    let mut module = create_list(five_picks());
    for event in [
        Event::Meta(MetaEvent::ToggleVisualMode),
        Event::Meta(MetaEvent::MoveCursorDown),
        Event::Meta(MetaEvent::MoveCursorDown),
        Event::Meta(MetaEvent::Delete),
    ] {
        let _ = module.handle_event(event);
    }
    assert_eq!(
        rendered(&module.build_view_data(), true),
        vec![
            "{TITLE}{HELP}".to_string(),
            "{BODY}".to_string(),
            "{Selected} > pick ddd      c4{Pad( )}".to_string(),
            "   pick eee      c5".to_string(),
        ]
    );
    assert!(module.visual_index_start.is_none());
}

#[test]
fn visual_mode_remove_lines_end_index_first() {
    let mut module = create_list(five_picks());
    for event in [
        Event::Meta(MetaEvent::MoveCursorDown),
        Event::Meta(MetaEvent::MoveCursorDown),
        Event::Meta(MetaEvent::ToggleVisualMode),
        Event::Meta(MetaEvent::MoveCursorUp),
        Event::Meta(MetaEvent::MoveCursorUp),
        Event::Meta(MetaEvent::Delete),
    ] {
        let _ = module.handle_event(event);
    }
    assert_eq!(
        rendered(&module.build_view_data(), true),
        vec![
            "{TITLE}{HELP}".to_string(),
            "{BODY}".to_string(),
            "{Selected} > pick ddd      c4{Pad( )}".to_string(),
            "   pick eee      c5".to_string(),
        ]
    );
    assert!(module.visual_index_start.is_none());
}

#[test]
fn visual_mode_remove_lines_start_index_last() {
    let mut module = create_list(five_picks());
    for event in [
        Event::Meta(MetaEvent::MoveCursorDown),
        Event::Meta(MetaEvent::MoveCursorDown),
        Event::Meta(MetaEvent::MoveCursorDown),
        Event::Meta(MetaEvent::MoveCursorDown),
        Event::Meta(MetaEvent::ToggleVisualMode),
        Event::Meta(MetaEvent::MoveCursorUp),
        Event::Meta(MetaEvent::MoveCursorUp),
        Event::Meta(MetaEvent::Delete),
    ] {
        let _ = module.handle_event(event);
    }
    assert_eq!(
        rendered(&module.build_view_data(), true),
        vec![
            "{TITLE}{HELP}".to_string(),
            "{BODY}".to_string(),
            "   pick aaa      c1".to_string(),
            "{Selected} > pick bbb      c2{Pad( )}".to_string(),
        ]
    );
    assert!(module.visual_index_start.is_none());
}

#[test]
fn visual_mode_remove_lines_end_index_last() {
    let mut module = create_list(five_picks());
    for event in [
        Event::Meta(MetaEvent::MoveCursorDown),
        Event::Meta(MetaEvent::MoveCursorDown),
        Event::Meta(MetaEvent::ToggleVisualMode),
        Event::Meta(MetaEvent::MoveCursorDown),
        Event::Meta(MetaEvent::MoveCursorDown),
        Event::Meta(MetaEvent::Delete),
    ] {
        let _ = module.handle_event(event);
    }
    assert_eq!(
        rendered(&module.build_view_data(), true),
        vec![
            "{TITLE}{HELP}".to_string(),
            "{BODY}".to_string(),
            "   pick aaa      c1".to_string(),
            "{Selected} > pick bbb      c2{Pad( )}".to_string(),
        ]
    );
    assert!(module.visual_index_start.is_none());
}

#[test]
fn visual_delete_scenario_leaves_tail_selected() {
    let mut module = create_list(five_picks());
    for event in [
        Event::Meta(MetaEvent::ToggleVisualMode),
        Event::Meta(MetaEvent::MoveCursorDown),
        Event::Meta(MetaEvent::MoveCursorDown),
        Event::Meta(MetaEvent::Delete),
    ] {
        let _ = module.handle_event(event);
    }
    assert_eq!(module.todo_file.len(), 2);
    assert_eq!(module.todo_file.get_line(0).unwrap().to_text(), "pick ddd c4");
    assert_eq!(module.todo_file.get_line(1).unwrap().to_text(), "pick eee c5");
    assert_eq!(module.todo_file.get_selected_line_index(), 0);
}

#[test]
fn delete_only_line_leaves_empty_file_safe() {
    let raw: Vec<String> = vec!["pick aaa c1".to_string()];
    let mut module = create_list(TodoFile::from_text_lines(&raw));
    let _ = module.handle_event(Event::Meta(MetaEvent::Delete));
    assert!(module.todo_file.is_empty());
    assert_eq!(module.todo_file.get_selected_line_index(), 0);
    assert!(module.todo_file.get_line(0).is_none());
    let _ = module.handle_event(Event::Meta(MetaEvent::Delete));
    assert!(module.todo_file.is_empty());
}

#[test]
fn cursor_clamps_at_both_ends() {
    let mut module = create_list(five_picks());
    let _ = module.handle_event(Event::Meta(MetaEvent::MoveCursorUp));
    assert_eq!(module.todo_file.get_selected_line_index(), 0);
    for _ in 0..10 {
        let _ = module.handle_event(Event::Meta(MetaEvent::MoveCursorDown));
    }
    assert_eq!(module.todo_file.get_selected_line_index(), 4);
}

#[test]
fn unrecognized_event_is_echoed() {
    let mut module = create_list(five_picks());
    let artifacts = module.handle_event(Event::Char('x'));
    assert_eq!(
        artifacts,
        vec![rebase_todo::events::Artifact::Event(Event::Char('x'))]
    );
    assert_eq!(module.todo_file.len(), 5);
}

#[test]
fn activate_clears_visual_anchor() {
    let mut module = create_list(five_picks());
    let _ = module.handle_event(Event::Meta(MetaEvent::ToggleVisualMode));
    assert!(module.visual_index_start.is_some());
    let artifacts = module.activate(State::List);
    assert!(artifacts.is_empty());
    assert!(module.visual_index_start.is_none());
}
