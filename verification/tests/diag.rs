use pdfce_gui::diag::{record_if_changed, reset_change_gates, ChangeGates, UiRegions};

#[test]
fn an_unchanged_line_is_emitted_once_and_then_suppressed() {
    let mut map = ChangeGates::new();
    assert!(
        record_if_changed(&mut map, "canvas-pointer", "canvas-pointer screen=(1.0,2.0)"),
        "the first sighting of a value is news and must be emitted"
    );
    for _ in 0..50 {
        assert!(!record_if_changed(
            &mut map,
            "canvas-pointer",
            "canvas-pointer screen=(1.0,2.0)"
        ));
    }
}

#[test]
fn a_changed_line_is_emitted_again() {
    let mut map = ChangeGates::new();
    assert!(record_if_changed(&mut map, "canvas", "canvas zoom=1.0"));
    assert!(record_if_changed(&mut map, "canvas", "canvas zoom=1.5"));
    assert!(!record_if_changed(&mut map, "canvas", "canvas zoom=1.5"));
    assert!(record_if_changed(&mut map, "canvas", "canvas zoom=1.0"));
}

#[test]
fn slots_are_independent() {
    let mut map = ChangeGates::new();
    assert!(record_if_changed(&mut map, "a", "same text"));
    assert!(record_if_changed(&mut map, "b", "same text"));
}

#[test]
fn a_reset_makes_every_slot_speak_again() {
    let mut map = ChangeGates::new();
    assert!(record_if_changed(&mut map, "canvas", "canvas zoom=1.0"));
    assert_eq!(map.last_line("canvas"), Some("canvas zoom=1.0"));
    let mut regions: UiRegions<u32> = UiRegions::new();
    regions.declare("page");
    regions.set_rect("page", 7);
    reset_change_gates(&mut map, &mut regions);
    assert_eq!(map.last_line("canvas"), None);
    assert_eq!(regions.rect_of("page"), None);
    assert!(regions.end_frame().is_empty(), "no region is reported gone after a reset");
    assert!(record_if_changed(&mut map, "canvas", "canvas zoom=1.0"));
}

#[test]
fn a_ui_rect_is_declared_once_per_layout_change() {
    let mut regions: UiRegions<(u32, u32)> = UiRegions::new();
    assert_eq!(regions.rect_of("page"), None);
    regions.declare("page");
    regions.set_rect("page", (100, 20));
    assert_eq!(regions.rect_of("page"), Some(&(100, 20)));
    regions.set_rect("page", (100, 21));
    assert_eq!(regions.rect_of("page"), Some(&(100, 21)));
    regions.declare("canvas-viewport");
    regions.set_rect("canvas-viewport", (100, 20));
    assert_eq!(regions.rect_of("page"), Some(&(100, 21)), "regions are keyed by name");
}

#[test]
fn a_region_not_drawn_again_is_reported_gone_once() {
    let mut regions: UiRegions<u8> = UiRegions::new();
    regions.declare("a");
    regions.set_rect("a", 1);
    regions.declare("b");
    regions.set_rect("b", 2);
    assert!(regions.end_frame().is_empty(), "nothing was drawn the frame before");
    regions.declare("b");
    regions.declare("b");
    let gone = regions.end_frame();
    assert_eq!(gone, vec!["a".to_owned()]);
    assert_eq!(regions.rect_of("a"), None, "a gone region forgets its rectangle");
    assert_eq!(regions.rect_of("b"), Some(&2));
    let gone = regions.end_frame();
    assert_eq!(gone, vec!["b".to_owned()]);
    assert!(regions.end_frame().is_empty());
}

#[test]
fn regions_gone_are_reported_in_name_order() {
    let mut regions: UiRegions<u8> = UiRegions::new();
    for name in ["tab.b", "Zoom", "tab.a", "é-mark", "tab"] {
        regions.declare(name);
    }
    assert!(regions.end_frame().is_empty());
    let gone = regions.end_frame();
    assert_eq!(gone, vec!["Zoom", "tab", "tab.a", "tab.b", "é-mark"]);
}
