use std::collections::{HashMap, HashSet};

use pdfce_gui::icons::catalog::{Asset, Icon};
use pdfce_gui::icons::markup::{attr, is_float_literal, tag_name};
use pdfce_gui::icons::path::{parse_path_data, Operand, PathLexer, PathParse, PathSegment};
use pdfce_gui::icons::svg::{scan_icon, IconArt, IconError, ScanEnd};

/// The segments of path data, or the refusal.
fn segments(d: &str) -> Result<Vec<PathSegment>, IconError> {
    match parse_path_data(d.as_bytes()) {
        PathParse::Parsed(segs) => Ok(segs),
        PathParse::Refused(e) => Err(e),
        PathParse::Diverges => panic!("{d:?} repeats a close implicitly"),
    }
}

/// How many drawing verbs path data makes, for data with no arcs: one per
/// segment.
fn verbs(d: &str) -> Result<usize, IconError> {
    let segs = segments(d)?;
    assert!(segs.iter().all(|s| s.command != b'A' && s.command != b'a'));
    Ok(segs.len())
}

/// Reads an icon whose every geometry is drawable.
fn parse(svg: &str) -> Result<IconArt, IconError> {
    let scan = scan_icon(svg);
    let drawable = vec![true; scan.geometry_count()];
    IconArt::assemble(scan, &drawable)
}

/// The value of attribute `name` in a tag body.
fn attr_value<'a>(body: &'a str, name: &str) -> Option<&'a str> {
    let pattern = format!("{name}=\"");
    attr(body.as_bytes(), pattern.as_bytes()).map(|(a, b)| &body[a..b])
}

fn flags(seg: &PathSegment) -> Vec<bool> {
    seg.operands
        .iter()
        .filter_map(|o| match o {
            Operand::Flag(f) => Some(*f),
            Operand::Number { .. } => None,
        })
        .collect()
}

#[test]
fn all_is_exhaustive_and_free_of_duplicates() {
    let unique: HashSet<Icon> = Icon::ALL.iter().copied().collect();
    assert_eq!(unique.len(), Icon::ALL.len(), "Icon::ALL contains a duplicate variant");
    assert_eq!(Icon::ALL.len(), 47);
}

#[test]
fn every_name_is_distinct() {
    let mut seen: HashSet<&str> = HashSet::new();
    for icon in Icon::ALL {
        assert!(seen.insert(icon.name()), "duplicate icon key '{}'", icon.name());
    }
}

#[test]
fn every_name_round_trips_through_from_key() {
    for icon in Icon::ALL {
        assert_eq!(Icon::from_key(icon.name()), Some(icon), "'{}' did not round-trip", icon.name());
    }
}

#[test]
fn an_unknown_key_resolves_to_nothing() {
    assert_eq!(Icon::from_key("no-such-icon"), None);
    assert_eq!(Icon::from_key(""), None);
    assert_eq!(Icon::from_key("Open"), None);
    assert_eq!(Icon::from_key("fit_page"), None);
}

#[test]
fn keys_are_lowercase_kebab_case() {
    for icon in Icon::ALL {
        let name = icon.name();
        assert!(!name.is_empty(), "{icon:?} has an empty key");
        assert!(
            name.bytes().all(|b| b.is_ascii_lowercase() || b.is_ascii_digit() || b == b'-'),
            "icon key '{name}' is not lowercase kebab-case"
        );
    }
}

#[test]
fn only_the_folder_asset_is_shared() {
    let mut by_source: HashMap<Asset, Vec<Icon>> = HashMap::new();
    for icon in Icon::ALL {
        by_source.entry(icon.source()).or_default().push(icon);
    }
    for (_, icons) in by_source {
        if icons.len() > 1 {
            let mut names: Vec<&str> = icons.iter().map(|i| i.name()).collect();
            names.sort_unstable();
            assert_eq!(names, vec!["font-folders", "open"]);
        }
    }
}

#[test]
fn the_open_and_font_folder_icons_draw_the_folder() {
    assert_eq!(Icon::from_key("open").map(Icon::source), Some(Asset::Folder));
    assert_eq!(Icon::from_key("font-folders").map(Icon::source), Some(Asset::Folder));
}

#[test]
fn parses_absolute_and_relative_move_and_line() {
    assert_eq!(verbs("M10 10L20 20").unwrap(), 2);
    assert_eq!(verbs("M10 10l10 10").unwrap(), 2);
    assert_eq!(verbs("M10 10 20 20 30 30").unwrap(), 3);
}

#[test]
fn the_implicit_repeat_after_a_moveto_is_a_lineto() {
    let segs = segments("M10 10 20 20 30 30").unwrap();
    let commands: Vec<u8> = segs.iter().map(|s| s.command).collect();
    assert_eq!(commands, vec![b'M', b'L', b'L']);
    let relative = segments("m1 1 2 2").unwrap();
    assert_eq!(relative.iter().map(|s| s.command).collect::<Vec<u8>>(), vec![b'm', b'l']);
}

#[test]
fn parses_horizontal_and_vertical() {
    assert_eq!(verbs("M6 14h12v22H6V14").unwrap(), 5);
}

#[test]
fn parses_cubic_and_smooth_cubic() {
    assert_eq!(verbs("M10 34C10 18 24 34 38 14").unwrap(), 2);
    assert_eq!(verbs("M0 0C1 1 2 2 3 3S4 4 5 5").unwrap(), 3);
}

#[test]
fn parses_quadratic_and_smooth_quadratic() {
    assert_eq!(verbs("M0 0Q1 1 2 2").unwrap(), 2);
    assert_eq!(verbs("M0 0Q1 1 2 2T4 4").unwrap(), 3);
}

#[test]
fn parses_close() {
    assert_eq!(verbs("M10 10L20 10L20 20Z").unwrap(), 4);
}

#[test]
fn parses_arc_as_cubics() {
    let segs = segments("M24 10A14 14 0 1 0 38 24").unwrap();
    assert_eq!(segs.len(), 2);
    assert_eq!(segs[1].command, b'A');
    assert_eq!(segs[1].operands.len(), 7);
    assert_eq!(flags(&segs[1]), vec![true, false]);
}

#[test]
fn parses_packed_arc_flags() {
    let packed = segments("M16 24l-4 4a6 6 0 008 8l4-4").expect("packed flags parse");
    assert_eq!(packed.len(), 4);
    let spaced = segments("M16 24l-4 4a6 6 0 0 0 8 8l4-4").expect("spaced flags parse");
    assert_eq!(packed.len(), spaced.len());
    assert_eq!(flags(&packed[2]), vec![false, false]);
    assert_eq!(flags(&packed[2]), flags(&spaced[2]));
}

#[test]
fn a_separator_after_a_flag_moves_only_the_spans_after_it() {
    let packed = "M16 24l-4 4a6 6 0 008 8l4-4";
    let spaced = "M16 24l-4 4a6 6 0 00 8 8l4-4";
    let k = packed.find("008").unwrap() + 2;
    let a = segments(packed).unwrap();
    let b = segments(spaced).unwrap();
    assert_eq!(a.len(), b.len());
    for (x, y) in a.iter().zip(b.iter()) {
        assert_eq!(x.command, y.command);
        assert_eq!(x.operands.len(), y.operands.len());
        for (o, p) in x.operands.iter().zip(y.operands.iter()) {
            match (o, p) {
                (Operand::Number { start: s0, end: e0 }, Operand::Number { start: s1, end: e1 }) => {
                    let moved = |v: usize| if v >= k { v + 1 } else { v };
                    assert_eq!((moved(*s0), moved(*e0)), (*s1, *e1));
                    assert_eq!(&packed[*s0..*e0], &spaced[*s1..*e1]);
                }
                (Operand::Flag(f0), Operand::Flag(f1)) => assert_eq!(f0, f1),
                _ => panic!("operand kinds differ"),
            }
        }
    }
}

#[test]
fn parses_negative_and_fractional_numbers_without_separators() {
    assert_eq!(verbs("M8 10l2-2l.5.5").unwrap(), 3);
    let segs = segments("M8 10l2-2l.5.5").unwrap();
    let d = "M8 10l2-2l.5.5";
    let spans: Vec<&str> = segs[2]
        .operands
        .iter()
        .map(|o| match o {
            Operand::Number { start, end } => &d[*start..*end],
            Operand::Flag(_) => panic!("no flags here"),
        })
        .collect();
    assert_eq!(spans, vec![".5", ".5"]);
}

#[test]
fn parses_exponent_numbers() {
    assert_eq!(verbs("M1e1 1E1L2e1 2e1").unwrap(), 2);
}

#[test]
fn refuses_unknown_path_command() {
    assert_eq!(verbs("M0 0 X10 10").unwrap_err(), IconError::UnsupportedPathCommand('X'));
}

#[test]
fn refuses_command_before_any_moveto() {
    assert_eq!(verbs("L10 10").unwrap_err(), IconError::NoCurrentPoint('L'));
}

#[test]
fn refuses_malformed_number() {
    assert!(matches!(verbs("M10 abc").unwrap_err(), IconError::MalformedNumber { .. }));
    assert!(matches!(verbs("M10 -").unwrap_err(), IconError::MalformedNumber { .. }));
}

#[test]
fn refuses_truncated_command() {
    assert!(matches!(
        verbs("M10 10L20").unwrap_err(),
        IconError::MalformedNumber { .. } | IconError::UnexpectedEnd
    ));
}

#[test]
fn refuses_bad_arc_flag() {
    assert!(matches!(
        segments("M0 0A6 6 0 2 0 8 8").unwrap_err(),
        IconError::MalformedFlag { .. }
    ));
}

#[test]
fn an_implicit_close_repeat_is_reported_rather_than_read_forever() {
    assert_eq!(parse_path_data(b"M0 0Z 5"), PathParse::Diverges);
    assert!(matches!(parse_path_data(b"M0 0Z"), PathParse::Parsed(_)));
}

#[test]
fn the_lexer_reads_commands_numbers_and_flags() {
    let mut lex = PathLexer::new(b" M10,-2.5e1 1");
    lex.skip_separators();
    assert!(!lex.at_end());
    assert_eq!(lex.peek(), Some(b'M'));
    assert_eq!(lex.take_command(), Some(b'M'));
    assert_eq!(lex.take_number(), Ok((2, 4)));
    assert_eq!(lex.take_number(), Ok((5, 11)));
    assert_eq!(lex.take_flag(), Ok(true));
    assert!(lex.at_end());
    let mut bad = PathLexer::new(b"2");
    assert_eq!(bad.take_flag(), Err(IconError::MalformedFlag { offset: 0 }));
}

#[test]
fn refuses_unsupported_element() {
    let svg = r#"<svg viewBox="0 0 48 48"><g transform="translate(4,4)"><path d="M0 0L1 1"/></g></svg>"#;
    assert_eq!(parse(svg).unwrap_err(), IconError::UnsupportedElement("g".to_owned()));
}

#[test]
fn refuses_unsupported_linecap() {
    let svg = r#"<svg><path d="M0 0L1 1" stroke="currentColor" stroke-linecap="flat"/></svg>"#;
    assert!(matches!(
        parse(svg).unwrap_err(),
        IconError::UnsupportedPaintValue { attribute: "stroke-linecap", .. }
    ));
}

#[test]
fn refuses_shape_missing_geometry() {
    let svg = r#"<svg><circle cx="4" cy="4" stroke="currentColor"/></svg>"#;
    assert_eq!(
        parse(svg).unwrap_err(),
        IconError::MissingAttribute { element: "circle", attribute: "r" }
    );
}

#[test]
fn refuses_unterminated_tag() {
    assert_eq!(parse("<svg><path d=\"M0 0\"").unwrap_err(), IconError::UnterminatedTag);
}

#[test]
fn a_geometry_that_draws_nothing_is_refused() {
    let svg = r#"<svg><path d="M0 0L1 1" stroke="currentColor"/></svg>"#;
    let scan = scan_icon(svg);
    assert_eq!(scan.geometry_count(), 1);
    assert_eq!(IconArt::assemble(scan, &[false]).unwrap_err(), IconError::DegeneratePath);
}

#[test]
fn stroke_none_is_not_drawn_but_fill_is() {
    let svg = r#"<svg><rect x="0" y="0" width="10" height="10" fill="currentColor" stroke="none"/></svg>"#;
    let art = parse(svg).expect("parses");
    assert!(art.has_fill());
    assert_eq!(art.shape_count(), 1);
}

#[test]
fn a_scan_reads_shapes_in_document_order() {
    let svg = r#"<svg><!-- <g> --><rect x="1" y="2" width="3" height="4" stroke="currentColor"/><circle cx="4" cy="4" r="2" fill="currentColor"/></svg>"#;
    let scan = scan_icon(svg);
    assert_eq!(scan.end, ScanEnd::Complete);
    assert_eq!(scan.shapes.len(), 2);
    let art = parse(svg).expect("parses");
    assert_eq!(art.shape_count(), 2);
    assert!(art.has_fill());
}

#[test]
fn every_error_renders_a_non_empty_message() {
    let all = [
        IconError::UnsupportedElement("g".to_owned()),
        IconError::UnsupportedPathCommand('X'),
        IconError::NoCurrentPoint('L'),
        IconError::MalformedNumber { offset: 7 },
        IconError::MalformedFlag { offset: 9 },
        IconError::UnexpectedEnd,
        IconError::MissingAttribute { element: "circle", attribute: "r" },
        IconError::UnsupportedPaintValue {
            attribute: "stroke-linecap",
            value: "flat".to_owned(),
        },
        IconError::UnterminatedTag,
        IconError::DegeneratePath,
    ];
    for e in all {
        let msg = e.message();
        assert!(!msg.is_empty(), "{e:?} rendered an empty message");
    }
    assert_eq!(
        IconError::MalformedNumber { offset: 7 }.message(),
        "malformed number in path data at byte 7"
    );
    assert_eq!(
        IconError::UnsupportedElement("g".to_owned()).message(),
        "unsupported SVG element <g> (icon subset: svg, path, rect, circle)"
    );
}

#[test]
fn attribute_lookup_is_not_a_substring_match() {
    let body = r#"rect x="10" y="4" width="28" rx="2" stroke="currentColor" stroke-width="2.5""#;
    assert_eq!(attr_value(body, "x"), Some("10"));
    assert_eq!(attr_value(body, "rx"), Some("2"));
    assert_eq!(attr_value(body, "stroke"), Some("currentColor"));
    assert_eq!(attr_value(body, "stroke-width"), Some("2.5"));
    assert_eq!(attr_value(body, "height"), None);
}

#[test]
fn a_tag_name_ends_at_the_first_space_or_slash() {
    assert_eq!(tag_name(b"rect x=\"1\""), 4);
    assert_eq!(tag_name(b"path/"), 4);
    assert_eq!(tag_name(b"svg"), 3);
}

#[test]
fn float_literals_follow_the_standard_grammar() {
    for ok in ["1", "-2.5", ".5", "1e3", "+4.", "inf", "NaN", "-Infinity"] {
        assert!(is_float_literal(ok.as_bytes()), "{ok}");
    }
    for bad in ["", "-", "1e", "abc", "1.2.3", "e5"] {
        assert!(!is_float_literal(bad.as_bytes()), "{bad}");
    }
}
