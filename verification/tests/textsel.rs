use pdfce_gui::canvas::textsel::{
    click_ends_for, line_boxes, line_keys, ordered, select_all_ends, selected_text, TextPosition,
    TextSelection,
};

fn runs() -> Vec<String> {
    vec!["Hello ".to_owned(), "wörld".to_owned(), "!".to_owned()]
}

fn p(run: usize, byte_offset: usize) -> TextPosition {
    TextPosition::new(run, byte_offset)
}

fn sample(page: usize, epoch: u64) -> TextSelection<u32, u64> {
    TextSelection::assemble(page, p(0, 0), p(0, 5), epoch, &[10, 20], &[Some(1), Some(2)], "Hello".to_owned())
        .expect("it has boxes")
}

#[test]
fn positions_order_by_run_then_offset() {
    assert_eq!(ordered(p(1, 0), p(0, 9)), (p(0, 9), p(1, 0)));
    assert_eq!(ordered(p(0, 2), p(0, 1)), (p(0, 1), p(0, 2)));
    assert_eq!(ordered(p(0, 1), p(0, 1)), (p(0, 1), p(0, 1)));
}

#[test]
fn a_drag_selects_the_same_range_in_both_directions() {
    let forward = selected_text(&runs(), p(0, 2), p(1, 3));
    let backward = selected_text(&runs(), p(1, 3), p(0, 2));
    assert_eq!(forward, "llo wö");
    assert_eq!(forward, backward);
}

#[test]
fn a_degenerate_drag_selects_nothing() {
    assert_eq!(selected_text(&runs(), p(1, 1), p(1, 1)), "");
}

#[test]
fn a_cut_inside_a_character_copies_nothing_of_that_run() {
    assert_eq!(selected_text(&runs(), p(1, 2), p(1, 4)), "");
    assert_eq!(selected_text(&runs(), p(0, 0), p(9, 0)), "Hello wörld!");
}

#[test]
fn select_all_takes_every_character_on_the_page() {
    let (start, end) = select_all_ends(&runs()).expect("the page has runs");
    assert_eq!(start, p(0, 0));
    assert_eq!(end, p(2, 1));
    assert_eq!(selected_text(&runs(), start, end), "Hello wörld!");
    assert_eq!(select_all_ends(&[]), None);
}

#[test]
fn shift_click_extends_from_the_anchor_and_needs_one() {
    let current = sample(0, 4);
    let at = p(2, 0);
    let word = (p(1, 0), p(1, 6));
    assert_eq!(
        click_ends_for(at, true, false, false, Some(&current), 0, 4, None, word),
        Some((p(0, 0), at))
    );
    assert_eq!(
        click_ends_for::<u32, u64>(at, true, false, false, None, 0, 4, None, word),
        Some((at, at)),
        "with nothing to extend, a shift click is a caret"
    );
    assert_eq!(
        click_ends_for(at, true, false, false, Some(&current), 0, 5, None, word),
        Some((at, at)),
        "a stale selection is not extended"
    );
    assert_eq!(
        click_ends_for(at, true, false, false, Some(&current), 1, 4, None, word),
        Some((at, at)),
        "nor is one on another page"
    );
}

#[test]
fn a_double_click_takes_a_word_and_a_triple_click_takes_at_least_the_line() {
    let at = p(1, 2);
    let word = (p(1, 0), p(1, 6));
    let line = Some((p(0, 0), p(2, 1)));
    assert_eq!(click_ends_for::<u32, u64>(at, false, true, false, None, 0, 0, line, word), Some(word));
    assert_eq!(click_ends_for::<u32, u64>(at, false, true, true, None, 0, 0, line, word), line);
    assert_eq!(click_ends_for::<u32, u64>(at, false, false, true, None, 0, 0, None, word), None);
}

#[test]
fn a_plain_click_clears_the_selection() {
    let current = sample(0, 4);
    let at = p(0, 3);
    assert_eq!(
        click_ends_for(at, false, false, false, Some(&current), 0, 4, None, (at, at)),
        Some((at, at))
    );
    assert_eq!(selected_text(&runs(), at, at), "");
}

#[test]
fn a_selection_with_no_box_is_no_selection() {
    assert!(TextSelection::<u32, u64>::assemble(0, p(0, 0), p(0, 1), 0, &[], &[], "H".to_owned()).is_none());
    assert!(TextSelection::<u32, u64>::assemble(0, p(0, 0), p(0, 1), 0, &[10], &[None], "H".to_owned()).is_none());
}

#[test]
fn a_box_that_does_not_project_is_dropped_from_both_lists() {
    let s = TextSelection::<u32, u64>::assemble(
        2,
        p(0, 0),
        p(2, 1),
        4,
        &[10, 20, 30],
        &[Some(1), None, Some(3)],
        "Hello wörld!".to_owned(),
    )
    .expect("two boxes project");
    assert_eq!(s.quads, vec![1, 3]);
    assert_eq!(s.page_quads, vec![10, 30]);
    assert_eq!(s.quads.len(), s.page_quads.len());
    assert_eq!((s.page, s.epoch, s.text.as_str()), (2, 4, "Hello wörld!"));
}

#[test]
fn the_boxes_are_the_lines_of_the_covered_glyphs() {
    let lines = vec![vec![(0, 0), (0, 1)], vec![(1, 0)], vec![(2, 0)]];
    let covered = [(1, 0), (0, 0), (0, 1), (1, 0), (9, 9)];
    let keys = line_keys(&lines, &covered);
    assert_eq!(keys, vec![1, 0, 0, 1, usize::MAX]);
    let (boxes, slots) = line_boxes(&keys);
    assert_eq!(boxes, vec![1, 0, usize::MAX]);
    assert_eq!(slots, vec![0, 1, 1, 0, 2]);
    assert!(!boxes.contains(&2), "no covered glyph lies on the third line");
}

#[test]
fn an_edit_makes_a_selection_stale_and_stops_the_highlight() {
    let all = sample(0, 7);
    assert!(!all.highlights(0, 7).is_empty());
    assert!(!all.live(8), "one edit later");
    assert!(all.highlights(0, 8).is_empty());
    assert!(all.highlights(1, 7).is_empty(), "another page shows nothing");
    assert_eq!(all.marks(7), &[10, 20]);
    assert!(all.marks(8).is_empty());
    assert_eq!(all.len(), 5);
    assert!(!all.is_empty());
}

#[test]
fn glyphs_of_one_line_share_one_box_in_first_seen_order() {
    let keys = [2, 2, 0, usize::MAX, 2, usize::MAX, 0];
    let (boxes, slots) = line_boxes(&keys);
    assert_eq!(boxes, vec![2, 0, usize::MAX, usize::MAX]);
    assert_eq!(slots, vec![0, 0, 1, 2, 0, 3, 1]);
}

#[test]
fn a_glyph_belongs_to_the_last_line_that_lists_it() {
    let lines = vec![vec![(0, 0), (0, 1)], vec![(1, 0), (0, 1)]];
    let keys = line_keys(&lines, &[(0, 0), (0, 1), (1, 0), (5, 5)]);
    assert_eq!(keys, vec![0, 1, 1, usize::MAX]);
}
