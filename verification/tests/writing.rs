use pdfce_gui::canvas::writing::{GlyphRef, Walk};

fn g(run: usize, glyph: usize) -> GlyphRef {
    GlyphRef { run, glyph }
}

#[test]
fn glyphs_that_follow_one_direction_become_one_line() {
    let mut walk: Walk<i32, ()> = Walk::new();
    walk.push(g(0, 0), (), None);
    walk.push(g(0, 1), (), Some(90));
    walk.push(g(0, 2), (), Some(90));
    let rotated = walk.finish();
    assert_eq!(rotated.lines.len(), 1);
    assert_eq!(rotated.lines[0].dir, 90);
    assert_eq!(rotated.lines[0].glyphs, vec![g(0, 0), g(0, 1), g(0, 2)]);
    assert_eq!(rotated.line_of(g(0, 1)), Some(0));
    assert_eq!(rotated.line_of(g(5, 5)), None);
}

#[test]
fn a_lone_glyph_is_not_a_line() {
    let mut walk: Walk<i32, ()> = Walk::new();
    walk.push(g(0, 0), (), None);
    walk.push(g(1, 0), (), None);
    let rotated = walk.finish();
    assert!(rotated.is_empty());
}

#[test]
fn only_the_breaks_inside_a_line_are_artefacts() {
    let mut walk: Walk<i32, ()> = Walk::new();
    walk.push(g(0, 0), (), None);
    walk.line_break(1);
    walk.push(g(2, 0), (), Some(30));
    walk.line_break(3);
    walk.push(g(4, 0), (), None);
    walk.word_space();
    walk.push(g(4, 1), (), Some(-90));
    walk.interruption();
    walk.line_break(5);
    walk.push(g(6, 0), (), None);
    let rotated = walk.finish();
    assert_eq!(rotated.lines.len(), 2);
    assert!(rotated.is_artefact(1), "the break inside the 30° line");
    assert!(!rotated.is_artefact(3), "the break between two lines");
    assert!(!rotated.is_artefact(5));
    assert_eq!(rotated.line_of(g(4, 1)), Some(1));
    assert_eq!(rotated.line_of(g(6, 0)), None);
}
