use pdfce_gui::canvas::tool::{
    active, arm_markup, arm_measure, cursor_for, disarm_markup, disarm_measure, resolve,
    retire_forbidden, select, selected, space_held, toggle_hand, toggle_text, Capabilities,
    CanvasTool, CursorIcon, DragKind, Grip, MarkupKind, MarqueeIntent, MeasureKind, ToolMemory,
};

#[test]
fn space_borrows_the_hand_and_releasing_returns_the_previous_tool() {
    assert_eq!(resolve(CanvasTool::Select, false), CanvasTool::Select);
    assert_eq!(resolve(CanvasTool::Select, true), CanvasTool::Hand);
    assert_eq!(resolve(CanvasTool::Select, false), CanvasTool::Select);
}

#[test]
fn space_over_the_hand_tool_is_a_no_op_in_both_directions() {
    assert_eq!(resolve(CanvasTool::Hand, true), CanvasTool::Hand);
    assert_eq!(resolve(CanvasTool::Hand, false), CanvasTool::Hand);
}

#[test]
fn only_the_hand_pans_and_each_tool_paints_its_own_cursor() {
    assert!(!CanvasTool::Select.pans_with_primary());
    assert!(CanvasTool::Hand.pans_with_primary());
    assert_eq!(CanvasTool::Select.cursor(false), None);
    assert_eq!(CanvasTool::Select.cursor(true), None);
    assert_eq!(CanvasTool::Hand.cursor(false), Some(CursorIcon::Grab));
    assert_eq!(CanvasTool::Hand.cursor(true), Some(CursorIcon::Grabbing));
    for kind in MarkupKind::ALL {
        let tool = CanvasTool::Markup(kind);
        assert!(!tool.pans_with_primary(), "{kind:?} must not pan");
        assert_eq!(tool.cursor(false), Some(CursorIcon::Crosshair), "{kind:?}");
        assert_eq!(tool.cursor(true), Some(CursorIcon::Crosshair), "{kind:?}");
        assert_eq!(tool.markup_kind(), Some(kind));
    }
    assert_eq!(CanvasTool::Select.markup_kind(), None);
    assert_eq!(CanvasTool::Hand.markup_kind(), None);
}

#[test]
fn the_text_tool_sweeps_rather_than_pans_and_says_so_with_the_pointer() {
    let text = CanvasTool::Text;
    assert!(!text.pans_with_primary());
    assert_eq!(text.cursor(false), Some(CursorIcon::Text));
    assert_eq!(text.cursor(true), Some(CursorIcon::Text));
    assert!(text.is_text());
    assert_eq!(text.markup_kind(), None);
    assert_eq!(text.measure_kind(), None);
    for other in [
        CanvasTool::Select,
        CanvasTool::Hand,
        CanvasTool::Markup(MarkupKind::Rectangle),
        CanvasTool::Measure(MeasureKind::Linear),
    ] {
        assert!(!other.is_text(), "{other:?} is not the text tool");
    }
    assert_eq!(
        cursor_for(CanvasTool::Text, None, None, false, true),
        Some(CursorIcon::Text)
    );
    assert_eq!(
        cursor_for(CanvasTool::Text, None, Some(Grip::SouthEast), true, true),
        Some(CursorIcon::Text)
    );
    assert_eq!(cursor_for(CanvasTool::Text, None, None, false, false), None);
}

#[test]
fn toggling_the_text_tool_arms_it_retires_it_and_takes_it_from_another_tool() {
    let mut memory = ToolMemory::new();
    assert_eq!(selected(&memory), CanvasTool::Select);
    assert_eq!(toggle_text(&mut memory), CanvasTool::Text);
    assert_eq!(selected(&memory), CanvasTool::Text);
    assert_eq!(toggle_text(&mut memory), CanvasTool::Select, "a second press retires");
    arm_markup(&mut memory, MarkupKind::Ellipse);
    assert_eq!(toggle_text(&mut memory), CanvasTool::Text);
    assert_eq!(toggle_hand(&mut memory), CanvasTool::Hand);
    assert_eq!(toggle_hand(&mut memory), CanvasTool::Select);
}

#[test]
fn space_borrows_the_hand_out_of_the_text_tool_and_escape_leaves_it_alone() {
    assert_eq!(resolve(CanvasTool::Text, true), CanvasTool::Hand);
    assert_eq!(resolve(CanvasTool::Text, false), CanvasTool::Text);
    let mut memory = ToolMemory::new();
    select(&mut memory, CanvasTool::Text);
    assert!(!disarm_markup(&mut memory));
    assert!(!disarm_measure(&mut memory));
    assert_eq!(selected(&memory), CanvasTool::Text);
}

#[test]
fn the_text_tool_is_permitted_in_every_mode_where_a_pen_is_not() {
    for markup in [false, true] {
        for measure in [false, true] {
            for content in [false, true] {
                let caps = Capabilities {
                    edit_content: content,
                    author_markup: markup,
                    author_measure: measure,
                };
                let mut memory = ToolMemory::new();
                select(&mut memory, CanvasTool::Text);
                assert!(!retire_forbidden(&mut memory, caps), "{caps:?}");
                assert_eq!(selected(&memory), CanvasTool::Text);
                select(&mut memory, CanvasTool::Markup(MarkupKind::Rectangle));
                assert_eq!(retire_forbidden(&mut memory, caps), !markup, "{caps:?}");
            }
        }
    }
}

#[test]
fn the_cursor_precedence_runs_tool_then_gesture_then_grip() {
    assert_eq!(
        cursor_for(
            CanvasTool::Markup(MarkupKind::Arrow),
            Some(DragKind::Move),
            Some(Grip::SouthEast),
            true,
            true,
        ),
        Some(CursorIcon::Crosshair),
    );
    assert_eq!(
        cursor_for(CanvasTool::Hand, Some(DragKind::Move), None, true, true),
        Some(CursorIcon::Grabbing),
    );
    assert_eq!(cursor_for(CanvasTool::Hand, None, None, false, false), None);
    assert_eq!(
        cursor_for(
            CanvasTool::Select,
            Some(DragKind::Marquee(MarqueeIntent::Select)),
            Some(Grip::SouthEast),
            true,
            true,
        ),
        Some(CursorIcon::Crosshair),
    );
    assert_eq!(
        cursor_for(
            CanvasTool::Select,
            Some(DragKind::Resize(Grip::NorthWest)),
            Some(Grip::SouthEast),
            true,
            true,
        ),
        Some(Grip::NorthWest.cursor()),
    );
    assert_eq!(
        cursor_for(CanvasTool::Select, None, Some(Grip::East), false, true),
        Some(Grip::East.cursor()),
    );
    assert_eq!(cursor_for(CanvasTool::Select, None, None, false, true), None);
}

#[test]
fn arming_a_markup_kind_toggles_that_kind_and_switches_between_kinds() {
    let mut memory = ToolMemory::new();
    assert_eq!(selected(&memory), CanvasTool::Select);
    assert_eq!(
        arm_markup(&mut memory, MarkupKind::Rectangle),
        CanvasTool::Markup(MarkupKind::Rectangle)
    );
    assert_eq!(
        arm_markup(&mut memory, MarkupKind::Arrow),
        CanvasTool::Markup(MarkupKind::Arrow)
    );
    assert_eq!(selected(&memory), CanvasTool::Markup(MarkupKind::Arrow));
    assert_eq!(arm_markup(&mut memory, MarkupKind::Arrow), CanvasTool::Select);
    assert_eq!(selected(&memory), CanvasTool::Select);
}

#[test]
fn disarming_markup_reports_whether_there_was_anything_to_disarm() {
    let mut memory = ToolMemory::new();
    assert!(!disarm_markup(&mut memory), "nothing armed: the key is not ours");
    arm_markup(&mut memory, MarkupKind::Ellipse);
    assert!(disarm_markup(&mut memory));
    assert_eq!(selected(&memory), CanvasTool::Select);
    assert!(!disarm_markup(&mut memory), "and it is not claimed twice");
    select(&mut memory, CanvasTool::Hand);
    assert!(!disarm_markup(&mut memory));
    assert_eq!(selected(&memory), CanvasTool::Hand);
}

#[test]
fn space_borrows_the_hand_out_of_the_markup_tool_and_returns_the_kind() {
    let armed = CanvasTool::Markup(MarkupKind::Rectangle);
    assert_eq!(resolve(armed, true), CanvasTool::Hand);
    assert_eq!(resolve(armed, false), armed);
}

#[test]
fn the_chosen_tool_persists_and_the_toggle_alternates() {
    let mut memory = ToolMemory::new();
    assert_eq!(selected(&memory), CanvasTool::Select);
    assert_eq!(toggle_hand(&mut memory), CanvasTool::Hand);
    assert_eq!(selected(&memory), CanvasTool::Hand);
    assert_eq!(toggle_hand(&mut memory), CanvasTool::Select);
    select(&mut memory, CanvasTool::Hand);
    assert_eq!(selected(&memory), CanvasTool::Hand);
}

#[test]
fn a_focused_text_field_keeps_the_space_bar() {
    let memory = ToolMemory::new();
    let held = space_held(true, true);
    assert!(!held, "a focused text field must keep the space bar");
    assert_eq!(resolve(selected(&memory), held), CanvasTool::Select);
}

#[test]
fn a_held_space_bar_reaches_the_canvas_when_nothing_is_typing() {
    let memory = ToolMemory::new();
    let held = space_held(false, true);
    assert_eq!(active(&memory, held), CanvasTool::Hand);
}

#[test]
fn measure_tools_arm_toggle_and_disarm() {
    let mut memory = ToolMemory::new();
    assert_eq!(
        arm_measure(&mut memory, MeasureKind::Radial),
        CanvasTool::Measure(MeasureKind::Radial)
    );
    assert_eq!(CanvasTool::Measure(MeasureKind::Radial).measure_kind(), Some(MeasureKind::Radial));
    assert!(!disarm_markup(&mut memory), "a measure tool is not a markup pen");
    assert!(disarm_measure(&mut memory));
    assert_eq!(selected(&memory), CanvasTool::Select);
    assert_eq!(
        arm_measure(&mut memory, MeasureKind::Angular),
        CanvasTool::Measure(MeasureKind::Angular)
    );
    assert_eq!(arm_measure(&mut memory, MeasureKind::Angular), CanvasTool::Select);
}

#[test]
fn a_mode_without_measure_retires_an_armed_measure_tool() {
    let caps = Capabilities {
        edit_content: true,
        author_markup: true,
        author_measure: false,
    };
    let mut memory = ToolMemory::new();
    select(&mut memory, CanvasTool::Measure(MeasureKind::Linear));
    assert!(retire_forbidden(&mut memory, caps));
    assert_eq!(selected(&memory), CanvasTool::Select);
    select(&mut memory, CanvasTool::Hand);
    assert!(!retire_forbidden(&mut memory, caps), "the hand authors nothing");
}
