//! The SVG subset the icon set is written in, and why a given file is refused.

use vstd::prelude::*;
use vstd::string::StringSliceAdditionalSpecFns;
use vstd::utf8::{decode_utf8, encode_utf8, valid_utf8};

use vstd::string::StringExecFns;

use crate::strings::{decimal_text, str_from_utf8, str_trim, str_trimmed, string_push, usize_text};
use super::markup::{attr, attr_span, float_literal, is_float_literal, same_bytes, tag_name, tag_name_end};
use super::path::{parse_path_data, path_parse_matches, spec_parse_path, PathOutcome, PathParse, PathSegment, SpecSegment, segments_view};

verus! {

/// The attributes the reader looks up.
#[derive(Debug, Clone, Copy, PartialEq, Eq, Structural)]
pub enum Attr {
    D,
    X,
    Y,
    Width,
    Height,
    Rx,
    Cx,
    Cy,
    R,
    Stroke,
    StrokeWidth,
    StrokeLinecap,
    StrokeLinejoin,
    Fill,
}

/// What an attribute lookup searches for: the name, `=` and the opening quote.
pub open spec fn attr_pattern(a: Attr) -> Seq<u8> {
    match a {
        Attr::D => seq![100, 61, 34],
        Attr::X => seq![120, 61, 34],
        Attr::Y => seq![121, 61, 34],
        Attr::Width => seq![119, 105, 100, 116, 104, 61, 34],
        Attr::Height => seq![104, 101, 105, 103, 104, 116, 61, 34],
        Attr::Rx => seq![114, 120, 61, 34],
        Attr::Cx => seq![99, 120, 61, 34],
        Attr::Cy => seq![99, 121, 61, 34],
        Attr::R => seq![114, 61, 34],
        Attr::Stroke => seq![115, 116, 114, 111, 107, 101, 61, 34],
        Attr::StrokeWidth => seq![115, 116, 114, 111, 107, 101, 45, 119, 105, 100, 116, 104, 61, 34],
        Attr::StrokeLinecap => seq![115, 116, 114, 111, 107, 101, 45, 108, 105, 110, 101, 99, 97, 112, 61, 34],
        Attr::StrokeLinejoin => seq![115, 116, 114, 111, 107, 101, 45, 108, 105, 110, 101, 106, 111, 105, 110, 61, 34],
        Attr::Fill => seq![102, 105, 108, 108, 61, 34],
    }
}

/// The lookup pattern of an attribute, as bytes.
fn pattern_of(a: Attr) -> (v: Vec<u8>)
    ensures
        v@ == attr_pattern(a),
{
    let v = match a {
        Attr::D => vec![100u8, 61u8, 34u8],
        Attr::X => vec![120u8, 61u8, 34u8],
        Attr::Y => vec![121u8, 61u8, 34u8],
        Attr::Width => vec![119u8, 105u8, 100u8, 116u8, 104u8, 61u8, 34u8],
        Attr::Height => vec![104u8, 101u8, 105u8, 103u8, 104u8, 116u8, 61u8, 34u8],
        Attr::Rx => vec![114u8, 120u8, 61u8, 34u8],
        Attr::Cx => vec![99u8, 120u8, 61u8, 34u8],
        Attr::Cy => vec![99u8, 121u8, 61u8, 34u8],
        Attr::R => vec![114u8, 61u8, 34u8],
        Attr::Stroke => vec![115u8, 116u8, 114u8, 111u8, 107u8, 101u8, 61u8, 34u8],
        Attr::StrokeWidth => vec![115u8, 116u8, 114u8, 111u8, 107u8, 101u8, 45u8, 119u8, 105u8, 100u8, 116u8, 104u8, 61u8, 34u8],
        Attr::StrokeLinecap => vec![115u8, 116u8, 114u8, 111u8, 107u8, 101u8, 45u8, 108u8, 105u8, 110u8, 101u8, 99u8, 97u8, 112u8, 61u8, 34u8],
        Attr::StrokeLinejoin => vec![115u8, 116u8, 114u8, 111u8, 107u8, 101u8, 45u8, 108u8, 105u8, 110u8, 101u8, 106u8, 111u8, 105u8, 110u8, 61u8, 34u8],
        Attr::Fill => vec![102u8, 105u8, 108u8, 108u8, 61u8, 34u8],
    };
    assert(v@ =~= attr_pattern(a));
    v
}

/// The spelling of an attribute name.
pub open spec fn attr_text(a: Attr) -> Seq<char> {
    match a {
        Attr::D => seq!['d'],
        Attr::X => seq!['x'],
        Attr::Y => seq!['y'],
        Attr::Width => seq!['w', 'i', 'd', 't', 'h'],
        Attr::Height => seq!['h', 'e', 'i', 'g', 'h', 't'],
        Attr::Rx => seq!['r', 'x'],
        Attr::Cx => seq!['c', 'x'],
        Attr::Cy => seq!['c', 'y'],
        Attr::R => seq!['r'],
        Attr::Stroke => seq!['s', 't', 'r', 'o', 'k', 'e'],
        Attr::StrokeWidth => seq!['s', 't', 'r', 'o', 'k', 'e', '-', 'w', 'i', 'd', 't', 'h'],
        Attr::StrokeLinecap => seq!['s', 't', 'r', 'o', 'k', 'e', '-', 'l', 'i', 'n', 'e', 'c', 'a', 'p'],
        Attr::StrokeLinejoin => seq!['s', 't', 'r', 'o', 'k', 'e', '-', 'l', 'i', 'n', 'e', 'j', 'o', 'i', 'n'],
        Attr::Fill => seq!['f', 'i', 'l', 'l'],
    }
}

/// The name of an attribute, as the error that mentions it spells it.
fn attr_name(a: Attr) -> (s: &'static str)
    ensures
        s@ == attr_text(a),
{
    match a {
        Attr::D => {
            proof { reveal_strlit("d"); }
            "d"
        },
        Attr::X => {
            proof { reveal_strlit("x"); }
            "x"
        },
        Attr::Y => {
            proof { reveal_strlit("y"); }
            "y"
        },
        Attr::Width => {
            proof { reveal_strlit("width"); }
            "width"
        },
        Attr::Height => {
            proof { reveal_strlit("height"); }
            "height"
        },
        Attr::Rx => {
            proof { reveal_strlit("rx"); }
            "rx"
        },
        Attr::Cx => {
            proof { reveal_strlit("cx"); }
            "cx"
        },
        Attr::Cy => {
            proof { reveal_strlit("cy"); }
            "cy"
        },
        Attr::R => {
            proof { reveal_strlit("r"); }
            "r"
        },
        Attr::Stroke => {
            proof { reveal_strlit("stroke"); }
            "stroke"
        },
        Attr::StrokeWidth => {
            proof { reveal_strlit("stroke-width"); }
            "stroke-width"
        },
        Attr::StrokeLinecap => {
            proof { reveal_strlit("stroke-linecap"); }
            "stroke-linecap"
        },
        Attr::StrokeLinejoin => {
            proof { reveal_strlit("stroke-linejoin"); }
            "stroke-linejoin"
        },
        Attr::Fill => {
            proof { reveal_strlit("fill"); }
            "fill"
        },
    }
}


/// A refusal in the grammar's own terms.
pub enum SpecError {
    UnsupportedElement(Seq<char>),
    UnsupportedPathCommand(char),
    NoCurrentPoint(char),
    MalformedNumber(int),
    MalformedFlag(int),
    UnexpectedEnd,
    MissingAttribute(Seq<char>, Seq<char>),
    UnsupportedPaintValue(Seq<char>, Seq<char>),
    UnterminatedTag,
    DegeneratePath,
}

/// Why an icon's SVG source was refused.
///
/// The subset is deliberately small, and anything outside it is an error
/// rather than something silently skipped: an icon that renders half its
/// artwork is worse than one that refuses to load.
#[derive(Clone, PartialEq, Eq, Debug)]
pub enum IconError {
    /// An element outside `svg`, `path`, `rect` and `circle`.
    UnsupportedElement(String),
    /// A path command letter outside the supported set.
    UnsupportedPathCommand(char),
    /// A path command before any moveto.
    NoCurrentPoint(char),
    /// A number that does not parse; `offset` is its byte offset in the
    /// path data, or 0 for an attribute value.
    MalformedNumber { offset: usize },
    /// An arc flag that is not exactly `0` or `1`.
    MalformedFlag { offset: usize },
    /// Path data that ended mid-command.
    UnexpectedEnd,
    /// A shape without an attribute its geometry needs.
    MissingAttribute { element: &'static str, attribute: &'static str },
    /// A paint attribute with a value outside the subset.
    UnsupportedPaintValue { attribute: &'static str, value: String },
    /// A `<` without a closing `>`.
    UnterminatedTag,
    /// A shape that produced no drawable geometry.
    DegeneratePath,
}

impl IconError {
    /// The refusal in the grammar's terms.
    pub open spec fn view(&self) -> SpecError {
        match self {
            IconError::UnsupportedElement(s) => SpecError::UnsupportedElement(s@),
            IconError::UnsupportedPathCommand(c) => SpecError::UnsupportedPathCommand(*c),
            IconError::NoCurrentPoint(c) => SpecError::NoCurrentPoint(*c),
            IconError::MalformedNumber { offset } => SpecError::MalformedNumber(*offset as int),
            IconError::MalformedFlag { offset } => SpecError::MalformedFlag(*offset as int),
            IconError::UnexpectedEnd => SpecError::UnexpectedEnd,
            IconError::MissingAttribute { element, attribute } => SpecError::MissingAttribute(
                element@,
                attribute@,
            ),
            IconError::UnsupportedPaintValue { attribute, value } => SpecError::UnsupportedPaintValue(
                attribute@,
                value@,
            ),
            IconError::UnterminatedTag => SpecError::UnterminatedTag,
            IconError::DegeneratePath => SpecError::DegeneratePath,
        }
    }
}

/// The shapes the subset draws.
#[derive(Debug, Clone, Copy, PartialEq, Eq, Structural)]
pub enum ElementKind {
    Path,
    Rect,
    Circle,
}

/// The spelling of each shape element's name.
pub open spec fn element_text(e: ElementKind) -> Seq<char> {
    match e {
        ElementKind::Path => seq!['p', 'a', 't', 'h'],
        ElementKind::Rect => seq!['r', 'e', 'c', 't'],
        ElementKind::Circle => seq!['c', 'i', 'r', 'c', 'l', 'e'],
    }
}

/// The name of a shape element, as an error spells it.
fn element_name(e: ElementKind) -> (s: &'static str)
    ensures
        s@ == element_text(e),
{
    match e {
        ElementKind::Path => {
            proof {
                reveal_strlit("path");
            }
            "path"
        },
        ElementKind::Rect => {
            proof {
                reveal_strlit("rect");
            }
            "rect"
        },
        ElementKind::Circle => {
            proof {
                reveal_strlit("circle");
            }
            "circle"
        },
    }
}

/// The text of a byte span: its decoding when it is valid UTF-8. Spans cut
/// at ASCII delimiters of a string always are; the empty text stands for
/// the case that cannot arise.
pub open spec fn text_of(b: Seq<u8>) -> Seq<char> {
    if valid_utf8(b) {
        decode_utf8(b)
    } else {
        Seq::empty()
    }
}

/// The text of a byte span, as [`text_of`] describes it.
fn owned_text(b: &[u8]) -> (s: String)
    ensures
        s@ == text_of(b@),
{
    match str_from_utf8(b) {
        Some(t) => t.to_owned(),
        None => String::new(),
    }
}

/// A numeric attribute: absent, present but not a number, or present with
/// the trimmed text of a number.
pub enum SpecNumber {
    Absent,
    Malformed,
    Text(Seq<char>),
}

/// What a numeric attribute of a tag body holds. Its value, trimmed of
/// white space, must be a string the standard library reads as an `f32`.
pub open spec fn number_attr(body: Seq<u8>, a: Attr) -> SpecNumber {
    match attr_span(body, attr_pattern(a)) {
        None => SpecNumber::Absent,
        Some((st, en)) => {
            let v = body.subrange(st, en);
            if valid_utf8(v) && float_literal(encode_utf8(str_trimmed(decode_utf8(v)))) {
                SpecNumber::Text(str_trimmed(decode_utf8(v)))
            } else {
                SpecNumber::Malformed
            }
        },
    }
}

/// A numeric attribute as read.
#[derive(Debug, Clone, PartialEq, Eq)]
pub enum NumberAttr {
    Absent,
    Malformed,
    Text(String),
}

impl NumberAttr {
    pub open spec fn view(&self) -> SpecNumber {
        match self {
            NumberAttr::Absent => SpecNumber::Absent,
            NumberAttr::Malformed => SpecNumber::Malformed,
            NumberAttr::Text(t) => SpecNumber::Text(t@),
        }
    }
}

/// Reads a numeric attribute of a tag body.
pub fn number_attr_of(body: &[u8], a: Attr) -> (r: NumberAttr)
    ensures
        r.view() == number_attr(body@, a),
{
    let pattern = pattern_of(a);
    let (st, en) = match attr(body, pattern.as_slice()) {
        Some(span) => span,
        None => return NumberAttr::Absent,
    };
    let v = &body[st..en];
    match str_from_utf8(v) {
        None => NumberAttr::Malformed,
        Some(t) => {
            let trimmed = str_trim(t);
            if is_float_literal(trimmed.as_bytes()) {
                NumberAttr::Text(trimmed.to_owned())
            } else {
                NumberAttr::Malformed
            }
        },
    }
}

/// How a stroke is drawn: not at all, at the default width, or at the
/// width the attribute spells.
#[derive(Debug, Clone, PartialEq, Eq)]
pub enum Stroke {
    Unstroked,
    DefaultWidth,
    Width(String),
}

/// A stroke in the grammar's terms.
pub enum SpecStroke {
    Unstroked,
    DefaultWidth,
    Width(Seq<char>),
}

/// How stroke ends are drawn.
#[derive(Debug, Clone, Copy, PartialEq, Eq, Structural)]
pub enum LineCap {
    Butt,
    Round,
    Square,
}

/// How stroke corners are drawn.
#[derive(Debug, Clone, Copy, PartialEq, Eq, Structural)]
pub enum LineJoin {
    Miter,
    Round,
    Bevel,
}

/// How a shape is painted.
#[derive(Debug, Clone, PartialEq, Eq)]
pub struct Paint {
    pub stroke: Stroke,
    pub line_cap: LineCap,
    pub line_join: LineJoin,
    pub filled: bool,
}

/// Paint in the grammar's terms.
pub struct SpecPaint {
    pub stroke: SpecStroke,
    pub line_cap: LineCap,
    pub line_join: LineJoin,
    pub filled: bool,
}

impl Paint {
    pub open spec fn view(&self) -> SpecPaint {
        SpecPaint {
            stroke: match self.stroke {
                Stroke::Unstroked => SpecStroke::Unstroked,
                Stroke::DefaultWidth => SpecStroke::DefaultWidth,
                Stroke::Width(t) => SpecStroke::Width(t@),
            },
            line_cap: self.line_cap,
            line_join: self.line_join,
            filled: self.filled,
        }
    }
}

/// `none`, spelled in bytes.
pub open spec fn word_none() -> Seq<u8> {
    seq![0x6E, 0x6F, 0x6E, 0x65]
}

/// Whether an attribute is present with a value other than `none`.
pub open spec fn present_and_not_none(body: Seq<u8>, a: Attr) -> bool {
    match attr_span(body, attr_pattern(a)) {
        Some((x, y)) => body.subrange(x, y) != word_none(),
        None => false,
    }
}

/// The line cap a tag body asks for: butt by default, else `butt`,
/// `round` or `square`; any other value is refused.
pub open spec fn line_cap_of(body: Seq<u8>) -> Result<LineCap, SpecError> {
    match attr_span(body, attr_pattern(Attr::StrokeLinecap)) {
        None => Ok(LineCap::Butt),
        Some((x, y)) => {
            let v = body.subrange(x, y);
            if v == seq![0x62u8, 0x75, 0x74, 0x74] {
                Ok(LineCap::Butt)
            } else if v == seq![0x72u8, 0x6F, 0x75, 0x6E, 0x64] {
                Ok(LineCap::Round)
            } else if v == seq![0x73u8, 0x71, 0x75, 0x61, 0x72, 0x65] {
                Ok(LineCap::Square)
            } else {
                Err(SpecError::UnsupportedPaintValue(attr_text(Attr::StrokeLinecap), text_of(v)))
            }
        },
    }
}

/// The line join a tag body asks for: miter by default, else `miter`,
/// `round` or `bevel`; any other value is refused.
pub open spec fn line_join_of(body: Seq<u8>) -> Result<LineJoin, SpecError> {
    match attr_span(body, attr_pattern(Attr::StrokeLinejoin)) {
        None => Ok(LineJoin::Miter),
        Some((x, y)) => {
            let v = body.subrange(x, y);
            if v == seq![0x6Du8, 0x69, 0x74, 0x65, 0x72] {
                Ok(LineJoin::Miter)
            } else if v == seq![0x72u8, 0x6F, 0x75, 0x6E, 0x64] {
                Ok(LineJoin::Round)
            } else if v == seq![0x62u8, 0x65, 0x76, 0x65, 0x6C] {
                Ok(LineJoin::Bevel)
            } else {
                Err(SpecError::UnsupportedPaintValue(attr_text(Attr::StrokeLinejoin), text_of(v)))
            }
        },
    }
}

/// The stroke a tag body asks for. The width is read only for a shape that
/// is stroked, and a stroked shape without one gets the default width.
pub open spec fn stroke_of(body: Seq<u8>) -> Result<SpecStroke, SpecError> {
    if present_and_not_none(body, Attr::Stroke) {
        match number_attr(body, Attr::StrokeWidth) {
            SpecNumber::Absent => Ok(SpecStroke::DefaultWidth),
            SpecNumber::Malformed => Err(SpecError::MalformedNumber(0)),
            SpecNumber::Text(t) => Ok(SpecStroke::Width(t)),
        }
    } else {
        Ok(SpecStroke::Unstroked)
    }
}

/// The paint a tag body asks for; the stroke width is checked first, then
/// the line cap, then the line join.
pub open spec fn paint_of(body: Seq<u8>) -> Result<SpecPaint, SpecError> {
    match stroke_of(body) {
        Err(e) => Err(e),
        Ok(stroke) => match line_cap_of(body) {
            Err(e) => Err(e),
            Ok(cap) => match line_join_of(body) {
                Err(e) => Err(e),
                Ok(join) => Ok(
                    SpecPaint {
                        stroke,
                        line_cap: cap,
                        line_join: join,
                        filled: present_and_not_none(body, Attr::Fill),
                    },
                ),
            },
        },
    }
}

/// Whether a paint result is the one prescribed.
pub open spec fn paint_matches(r: Result<Paint, IconError>, s: Result<SpecPaint, SpecError>) -> bool {
    match r {
        Ok(p) => s is Ok && p.view() == s->Ok_0,
        Err(e) => s is Err && e.view() == s->Err_0,
    }
}

/// Whether a tag body has an attribute whose value is exactly `word`.
fn value_is(body: &[u8], span: (usize, usize), word: &[u8]) -> (r: bool)
    requires
        span.0 <= span.1 <= body@.len(),
    ensures
        r == (body@.subrange(span.0 as int, span.1 as int) == word@),
{
    same_bytes(&body[span.0..span.1], word)
}

/// Whether an attribute is present with a value other than `none`.
fn present_not_none(body: &[u8], a: Attr) -> (r: bool)
    ensures
        r == present_and_not_none(body@, a),
{
    let pattern = pattern_of(a);
    let none: Vec<u8> = vec![0x6E, 0x6F, 0x6E, 0x65];
    assert(none@ =~= word_none());
    match attr(body, pattern.as_slice()) {
        Some(span) => !value_is(body, span, none.as_slice()),
        None => false,
    }
}

/// Reads the paint of a tag body.
pub fn read_paint(body: &[u8]) -> (r: Result<Paint, IconError>)
    ensures
        paint_matches(r, paint_of(body@)),
{
    let stroke = if present_not_none(body, Attr::Stroke) {
        match number_attr_of(body, Attr::StrokeWidth) {
            NumberAttr::Absent => Stroke::DefaultWidth,
            NumberAttr::Malformed => return Err(IconError::MalformedNumber { offset: 0 }),
            NumberAttr::Text(t) => Stroke::Width(t),
        }
    } else {
        Stroke::Unstroked
    };
    let cap_pattern = pattern_of(Attr::StrokeLinecap);
    let line_cap = match attr(body, cap_pattern.as_slice()) {
        None => LineCap::Butt,
        Some(span) => {
            let butt: Vec<u8> = vec![0x62, 0x75, 0x74, 0x74];
            let round: Vec<u8> = vec![0x72, 0x6F, 0x75, 0x6E, 0x64];
            let square: Vec<u8> = vec![0x73, 0x71, 0x75, 0x61, 0x72, 0x65];
            assert(butt@ =~= seq![0x62u8, 0x75, 0x74, 0x74]);
            assert(round@ =~= seq![0x72u8, 0x6F, 0x75, 0x6E, 0x64]);
            assert(square@ =~= seq![0x73u8, 0x71, 0x75, 0x61, 0x72, 0x65]);
            if value_is(body, span, butt.as_slice()) {
                LineCap::Butt
            } else if value_is(body, span, round.as_slice()) {
                LineCap::Round
            } else if value_is(body, span, square.as_slice()) {
                LineCap::Square
            } else {
                return Err(
                    IconError::UnsupportedPaintValue {
                        attribute: attr_name(Attr::StrokeLinecap),
                        value: owned_text(&body[span.0..span.1]),
                    },
                );
            }
        },
    };
    let join_pattern = pattern_of(Attr::StrokeLinejoin);
    let line_join = match attr(body, join_pattern.as_slice()) {
        None => LineJoin::Miter,
        Some(span) => {
            let miter: Vec<u8> = vec![0x6D, 0x69, 0x74, 0x65, 0x72];
            let round: Vec<u8> = vec![0x72, 0x6F, 0x75, 0x6E, 0x64];
            let bevel: Vec<u8> = vec![0x62, 0x65, 0x76, 0x65, 0x6C];
            assert(miter@ =~= seq![0x6Du8, 0x69, 0x74, 0x65, 0x72]);
            assert(round@ =~= seq![0x72u8, 0x6F, 0x75, 0x6E, 0x64]);
            assert(bevel@ =~= seq![0x62u8, 0x65, 0x76, 0x65, 0x6C]);
            if value_is(body, span, miter.as_slice()) {
                LineJoin::Miter
            } else if value_is(body, span, round.as_slice()) {
                LineJoin::Round
            } else if value_is(body, span, bevel.as_slice()) {
                LineJoin::Bevel
            } else {
                return Err(
                    IconError::UnsupportedPaintValue {
                        attribute: attr_name(Attr::StrokeLinejoin),
                        value: owned_text(&body[span.0..span.1]),
                    },
                );
            }
        },
    };
    let filled = present_not_none(body, Attr::Fill);
    Ok(Paint { stroke, line_cap, line_join, filled })
}

/// A shape's geometry as the source spells it. Numbers stay text: they are
/// turned into coordinates where the path is built.
#[derive(Debug, Clone, PartialEq, Eq)]
pub enum Geometry {
    /// A `<path>`: its data and the segments read from it.
    Path { data: Vec<u8>, segments: Vec<PathSegment> },
    /// A `<rect>`, with an optional corner radius.
    Rect { x: String, y: String, width: String, height: String, rx: Option<String> },
    /// A `<circle>`.
    Circle { cx: String, cy: String, r: String },
}

/// Geometry in the grammar's terms.
pub enum SpecGeometry {
    Path(Seq<u8>, Seq<SpecSegment>),
    Rect(Seq<char>, Seq<char>, Seq<char>, Seq<char>, Option<Seq<char>>),
    Circle(Seq<char>, Seq<char>, Seq<char>),
}

impl Geometry {
    pub open spec fn view(&self) -> SpecGeometry {
        match self {
            Geometry::Path { data, segments } => SpecGeometry::Path(
                data@,
                segments_view(segments@),
            ),
            Geometry::Rect { x, y, width, height, rx } => SpecGeometry::Rect(
                x@,
                y@,
                width@,
                height@,
                match rx {
                    Some(t) => Some(t@),
                    None => None,
                },
            ),
            Geometry::Circle { cx, cy, r } => SpecGeometry::Circle(cx@, cy@, r@),
        }
    }
}

/// What reading a shape's geometry comes to.
pub enum GeometryOutcome {
    Built(SpecGeometry),
    Refused(SpecError),
    Diverges,
}

/// A required numeric attribute of an element.
pub open spec fn required_number(body: Seq<u8>, a: Attr, e: ElementKind) -> Result<
    Seq<char>,
    SpecError,
> {
    match number_attr(body, a) {
        SpecNumber::Absent => Err(SpecError::MissingAttribute(element_text(e), attr_text(a))),
        SpecNumber::Malformed => Err(SpecError::MalformedNumber(0)),
        SpecNumber::Text(t) => Ok(t),
    }
}

/// The geometry of a `<rect>`: `x`, `y`, `width` and `height` in that
/// order, then the optional `rx`.
pub open spec fn rect_geometry(body: Seq<u8>) -> GeometryOutcome {
    let e = ElementKind::Rect;
    match required_number(body, Attr::X, e) {
        Err(err) => GeometryOutcome::Refused(err),
        Ok(x) => match required_number(body, Attr::Y, e) {
            Err(err) => GeometryOutcome::Refused(err),
            Ok(y) => match required_number(body, Attr::Width, e) {
                Err(err) => GeometryOutcome::Refused(err),
                Ok(w) => match required_number(body, Attr::Height, e) {
                    Err(err) => GeometryOutcome::Refused(err),
                    Ok(h) => match number_attr(body, Attr::Rx) {
                        SpecNumber::Absent => GeometryOutcome::Built(
                            SpecGeometry::Rect(x, y, w, h, None),
                        ),
                        SpecNumber::Malformed => GeometryOutcome::Refused(
                            SpecError::MalformedNumber(0),
                        ),
                        SpecNumber::Text(rx) => GeometryOutcome::Built(
                            SpecGeometry::Rect(x, y, w, h, Some(rx)),
                        ),
                    },
                },
            },
        },
    }
}

/// The geometry of a `<circle>`: `cx`, `cy` and `r` in that order.
pub open spec fn circle_geometry(body: Seq<u8>) -> GeometryOutcome {
    let e = ElementKind::Circle;
    match required_number(body, Attr::Cx, e) {
        Err(err) => GeometryOutcome::Refused(err),
        Ok(cx) => match required_number(body, Attr::Cy, e) {
            Err(err) => GeometryOutcome::Refused(err),
            Ok(cy) => match required_number(body, Attr::R, e) {
                Err(err) => GeometryOutcome::Refused(err),
                Ok(r) => GeometryOutcome::Built(SpecGeometry::Circle(cx, cy, r)),
            },
        },
    }
}

/// The geometry of a `<path>`: its `d` attribute, read as path data.
pub open spec fn path_geometry(body: Seq<u8>) -> GeometryOutcome {
    match attr_span(body, attr_pattern(Attr::D)) {
        None => GeometryOutcome::Refused(
            SpecError::MissingAttribute(element_text(ElementKind::Path), attr_text(Attr::D)),
        ),
        Some((x, y)) => {
            let d = body.subrange(x, y);
            match spec_parse_path(d) {
                PathOutcome::Parsed(segs) => GeometryOutcome::Built(SpecGeometry::Path(d, segs)),
                PathOutcome::Refused(e) => GeometryOutcome::Refused(e),
                PathOutcome::Diverges => GeometryOutcome::Diverges,
            }
        },
    }
}

/// The geometry of a shape element.
pub open spec fn geometry_of(body: Seq<u8>, e: ElementKind) -> GeometryOutcome {
    match e {
        ElementKind::Path => path_geometry(body),
        ElementKind::Rect => rect_geometry(body),
        ElementKind::Circle => circle_geometry(body),
    }
}

/// What reading a shape's geometry came to.
pub enum GeometryRead {
    Built(Geometry),
    Refused(IconError),
    Diverges,
}

/// Whether a geometry read is the one prescribed.
pub open spec fn geometry_matches(r: GeometryRead, o: GeometryOutcome) -> bool {
    match r {
        GeometryRead::Built(g) => o is Built && g.view() == o->Built_0,
        GeometryRead::Refused(e) => o is Refused && e.view() == o->Refused_0,
        GeometryRead::Diverges => o is Diverges,
    }
}

/// Reads a required numeric attribute.
fn need_number(body: &[u8], a: Attr, e: ElementKind) -> (r: Result<String, IconError>)
    ensures
        match required_number(body@, a, e) {
            Ok(t) => r is Ok && r->Ok_0@ == t,
            Err(err) => r is Err && r->Err_0.view() == err,
        },
{
    match number_attr_of(body, a) {
        NumberAttr::Absent => Err(
            IconError::MissingAttribute { element: element_name(e), attribute: attr_name(a) },
        ),
        NumberAttr::Malformed => Err(IconError::MalformedNumber { offset: 0 }),
        NumberAttr::Text(t) => Ok(t),
    }
}

/// Reads the geometry of a shape element.
pub fn read_geometry(body: &[u8], e: ElementKind) -> (r: GeometryRead)
    ensures
        geometry_matches(r, geometry_of(body@, e)),
{
    match e {
        ElementKind::Path => {
            let pattern = pattern_of(Attr::D);
            let (x, y) = match attr(body, pattern.as_slice()) {
                Some(span) => span,
                None => {
                    return GeometryRead::Refused(
                        IconError::MissingAttribute {
                            element: element_name(ElementKind::Path),
                            attribute: attr_name(Attr::D),
                        },
                    );
                },
            };
            let d = &body[x..y];
            match parse_path_data(d) {
                PathParse::Parsed(segments) => GeometryRead::Built(
                    Geometry::Path { data: vstd::slice::slice_to_vec(d), segments },
                ),
                PathParse::Refused(err) => GeometryRead::Refused(err),
                PathParse::Diverges => GeometryRead::Diverges,
            }
        },
        ElementKind::Rect => {
            let x = match need_number(body, Attr::X, e) {
                Ok(t) => t,
                Err(err) => return GeometryRead::Refused(err),
            };
            let y = match need_number(body, Attr::Y, e) {
                Ok(t) => t,
                Err(err) => return GeometryRead::Refused(err),
            };
            let width = match need_number(body, Attr::Width, e) {
                Ok(t) => t,
                Err(err) => return GeometryRead::Refused(err),
            };
            let height = match need_number(body, Attr::Height, e) {
                Ok(t) => t,
                Err(err) => return GeometryRead::Refused(err),
            };
            let rx = match number_attr_of(body, Attr::Rx) {
                NumberAttr::Absent => None,
                NumberAttr::Malformed => {
                    return GeometryRead::Refused(IconError::MalformedNumber { offset: 0 });
                },
                NumberAttr::Text(t) => Some(t),
            };
            GeometryRead::Built(Geometry::Rect { x, y, width, height, rx })
        },
        ElementKind::Circle => {
            let cx = match need_number(body, Attr::Cx, e) {
                Ok(t) => t,
                Err(err) => return GeometryRead::Refused(err),
            };
            let cy = match need_number(body, Attr::Cy, e) {
                Ok(t) => t,
                Err(err) => return GeometryRead::Refused(err),
            };
            let r = match need_number(body, Attr::R, e) {
                Ok(t) => t,
                Err(err) => return GeometryRead::Refused(err),
            };
            GeometryRead::Built(Geometry::Circle { cx, cy, r })
        },
    }
}

/// A shape: its geometry and its paint.
#[derive(Debug, Clone, PartialEq, Eq)]
pub struct Shape {
    pub geometry: Geometry,
    pub paint: Paint,
}

/// A shape in the grammar's terms.
pub struct SpecShape {
    pub geometry: SpecGeometry,
    pub paint: SpecPaint,
}

impl Shape {
    pub open spec fn view(&self) -> SpecShape {
        SpecShape { geometry: self.geometry.view(), paint: self.paint.view() }
    }
}

/// The shapes of a sequence, each in the grammar's terms.
pub open spec fn shapes_view(shapes: Seq<Shape>) -> Seq<SpecShape> {
    Seq::new(shapes.len(), |i: int| shapes[i].view())
}

/// How a scan of a source ended, in the grammar's terms.
pub enum SpecEnd {
    /// Every tag was read.
    Complete,
    /// A tag was refused before its paint was read.
    Failed(SpecError),
    /// A shape's geometry was read and its paint refused. Whether the
    /// source is then refused for that paint, or for the geometry being
    /// undrawable, depends on the geometry.
    PaintFailed(SpecGeometry, SpecError),
    /// A path repeats a `Z` implicitly; a reader that consumes nothing on
    /// `Z` never returns on it.
    Diverges,
}

/// A scan in the grammar's terms: the shapes read, in document order, and
/// how the scan ended.
pub struct SpecScan {
    pub shapes: Seq<SpecShape>,
    pub end: SpecEnd,
}

/// Puts a shape in front of the rest of a scan.
pub open spec fn prepend_shape(shape: SpecShape, rest: SpecScan) -> SpecScan {
    SpecScan { shapes: seq![shape] + rest.shapes, end: rest.end }
}

/// A scan that stops with nothing more read.
pub open spec fn stop(end: SpecEnd) -> SpecScan {
    SpecScan { shapes: Seq::empty(), end }
}

/// `<!--` and `-->`.
pub open spec fn comment_open() -> Seq<u8> {
    seq![0x3C, 0x21, 0x2D, 0x2D]
}

pub open spec fn comment_close() -> Seq<u8> {
    seq![0x2D, 0x2D, 0x3E]
}

/// The shape element a tag name names, if it names one.
pub open spec fn element_named(name: Seq<u8>) -> Option<ElementKind> {
    if name == seq![0x70u8, 0x61, 0x74, 0x68] {
        Some(ElementKind::Path)
    } else if name == seq![0x72u8, 0x65, 0x63, 0x74] {
        Some(ElementKind::Rect)
    } else if name == seq![0x63u8, 0x69, 0x72, 0x63, 0x6C, 0x65] {
        Some(ElementKind::Circle)
    } else {
        None
    }
}

/// Whether a tag name is one the reader passes over: `svg` or `?xml`.
pub open spec fn is_container(name: Seq<u8>) -> bool {
    name == seq![0x73u8, 0x76, 0x67] || name == seq![0x3Fu8, 0x78, 0x6D, 0x6C]
}

/// What a source comes to from byte `i`: text outside tags is skipped,
/// comments are skipped to their `-->`, closing tags and the `svg` and
/// `?xml` tags are passed over, `path`, `rect` and `circle` are read as
/// shapes, and any other element is refused.
pub open spec fn scan_from(s: Seq<u8>, i: int) -> SpecScan
    decreases s.len() + 1 - i,
{
    if i < 0 || i >= s.len() {
        stop(SpecEnd::Complete)
    } else if s[i] != 0x3C {
        scan_from(s, i + 1)
    } else if s.len() >= i + 4 && s.subrange(i, i + 4) == comment_open() {
        match super::markup::find_from(s, i + 4, comment_close()) {
            None => stop(SpecEnd::Failed(SpecError::UnterminatedTag)),
            Some(end) => {
                proof {
                    super::markup::lemma_find_from(s, i + 4, comment_close());
                }
                if i < end && end + 3 <= s.len() {
                    scan_from(s, end + 3)
                } else {
                    stop(SpecEnd::Complete)
                }
            },
        }
    } else {
        match super::markup::find_byte(s, i, 0x3E) {
            None => stop(SpecEnd::Failed(SpecError::UnterminatedTag)),
            Some(t) => {
                proof {
                    super::markup::lemma_find_byte(s, i, 0x3E);
                }
                if !(i < t < s.len()) {
                    stop(SpecEnd::Complete)
                } else if !(vstd::utf8::is_char_boundary(s, i + 1) && vstd::utf8::is_char_boundary(
                    s,
                    t,
                )) {
                    stop(SpecEnd::Failed(SpecError::UnterminatedTag))
                } else {
                    let body = s.subrange(i + 1, t);
                    if body.len() > 0 && body[0] == 0x2F {
                        scan_from(s, t + 1)
                    } else {
                        let name = body.subrange(0, tag_name_end(body));
                        if is_container(name) {
                            scan_from(s, t + 1)
                        } else {
                            match element_named(name) {
                                None => stop(
                                    SpecEnd::Failed(SpecError::UnsupportedElement(text_of(name))),
                                ),
                                Some(e) => match geometry_of(body, e) {
                                    GeometryOutcome::Refused(err) => stop(SpecEnd::Failed(err)),
                                    GeometryOutcome::Diverges => stop(SpecEnd::Diverges),
                                    GeometryOutcome::Built(g) => match paint_of(body) {
                                        Err(err) => stop(SpecEnd::PaintFailed(g, err)),
                                        Ok(p) => prepend_shape(
                                            SpecShape { geometry: g, paint: p },
                                            scan_from(s, t + 1),
                                        ),
                                    },
                                },
                            }
                        }
                    }
                }
            },
        }
    }
}

/// What a whole source comes to.
pub open spec fn spec_scan(s: Seq<u8>) -> SpecScan {
    scan_from(s, 0)
}

/// How a scan ended.
#[derive(Debug, Clone, PartialEq, Eq)]
pub enum ScanEnd {
    Complete,
    Failed(IconError),
    PaintFailed(Geometry, IconError),
    Diverges,
}

impl ScanEnd {
    pub open spec fn view(&self) -> SpecEnd {
        match self {
            ScanEnd::Complete => SpecEnd::Complete,
            ScanEnd::Failed(e) => SpecEnd::Failed(e.view()),
            ScanEnd::PaintFailed(g, e) => SpecEnd::PaintFailed(g.view(), e.view()),
            ScanEnd::Diverges => SpecEnd::Diverges,
        }
    }
}

/// A scan of an icon source: the shapes read, in document order, and how
/// the scan ended.
#[derive(Debug, Clone, PartialEq, Eq)]
pub struct IconScan {
    pub shapes: Vec<Shape>,
    pub end: ScanEnd,
}

impl IconScan {
    pub open spec fn view(&self) -> SpecScan {
        SpecScan { shapes: shapes_view(self.shapes@), end: self.end.view() }
    }

    /// How many geometries the scan read: every shape, and the geometry
    /// whose paint was refused, if any.
    pub open spec fn spec_geometry_count(&self) -> int {
        self.shapes@.len() + if self.end is PaintFailed {
            1int
        } else {
            0int
        }
    }

    /// How many geometries the scan read.
    pub fn geometry_count(&self) -> (n: usize)
        requires
            self.shapes@.len() < usize::MAX,
        ensures
            n == self.spec_geometry_count(),
    {
        match self.end {
            ScanEnd::PaintFailed(_, _) => self.shapes.len() + 1,
            _ => self.shapes.len(),
        }
    }
}

/// Whether the scan has ended for good with what has been read so far.
pub open spec fn scan_continues(prefix: Seq<SpecShape>, rest: SpecScan) -> SpecScan {
    SpecScan { shapes: prefix + rest.shapes, end: rest.end }
}

/// Whether a tag name is `svg` or `?xml`.
fn is_container_name(name: &[u8]) -> (r: bool)
    ensures
        r == is_container(name@),
{
    let svg: Vec<u8> = vec![0x73, 0x76, 0x67];
    let xml: Vec<u8> = vec![0x3F, 0x78, 0x6D, 0x6C];
    assert(svg@ =~= seq![0x73u8, 0x76, 0x67]);
    assert(xml@ =~= seq![0x3Fu8, 0x78, 0x6D, 0x6C]);
    same_bytes(name, svg.as_slice()) || same_bytes(name, xml.as_slice())
}

/// The shape element a tag name names.
fn element_of_name(name: &[u8]) -> (r: Option<ElementKind>)
    ensures
        r == element_named(name@),
{
    let path: Vec<u8> = vec![0x70, 0x61, 0x74, 0x68];
    let rect: Vec<u8> = vec![0x72, 0x65, 0x63, 0x74];
    let circle: Vec<u8> = vec![0x63, 0x69, 0x72, 0x63, 0x6C, 0x65];
    assert(path@ =~= seq![0x70u8, 0x61, 0x74, 0x68]);
    assert(rect@ =~= seq![0x72u8, 0x65, 0x63, 0x74]);
    assert(circle@ =~= seq![0x63u8, 0x69, 0x72, 0x63, 0x6C, 0x65]);
    if same_bytes(name, path.as_slice()) {
        Some(ElementKind::Path)
    } else if same_bytes(name, rect.as_slice()) {
        Some(ElementKind::Rect)
    } else if same_bytes(name, circle.as_slice()) {
        Some(ElementKind::Circle)
    } else {
        None
    }
}

/// Reads an icon source, tag by tag, exactly as [`spec_scan`] prescribes.
#[verifier::spinoff_prover]
#[verifier::rlimit(40)]
pub fn scan_icon(source: &str) -> (r: IconScan)
    ensures
        r.view() == spec_scan(source.spec_bytes()),
{
    let bytes = source.as_bytes();
    let ghost s = bytes@;
    let n = bytes.len();
    let mut shapes: Vec<Shape> = Vec::new();
    let mut i: usize = 0;
    let open: Vec<u8> = vec![0x3C, 0x21, 0x2D, 0x2D];
    let close: Vec<u8> = vec![0x2D, 0x2D, 0x3E];
    assert(open@ =~= comment_open());
    assert(close@ =~= comment_close());
    while i < n
        invariant
            s == bytes@,
            s == source.spec_bytes(),
            n == s.len(),
            open@ == comment_open(),
            close@ == comment_close(),
            i <= n,
            spec_scan(s) == scan_continues(shapes_view(shapes@), scan_from(s, i as int)),
        decreases n - i,
    {
        let ghost before = shapes@;
        if bytes[i] != 0x3C {
            i += 1;
            continue;
        }
        if super::markup::occurs_at(bytes, i, open.as_slice()) {
            proof {
                super::markup::lemma_find_from(s, i + 4, comment_close());
            }
            match super::markup::find(bytes, i + 4, close.as_slice()) {
                Some(end) => {
                    i = end + 3;
                    continue;
                },
                None => {
                    return IconScan {
                        shapes,
                        end: ScanEnd::Failed(IconError::UnterminatedTag),
                    };
                },
            }
        }
        proof {
            super::markup::lemma_find_byte(s, i as int, 0x3E);
        }
        let t = match super::markup::find_byte_from(bytes, i, 0x3E) {
            Some(t) => t,
            None => {
                return IconScan { shapes, end: ScanEnd::Failed(IconError::UnterminatedTag) };
            },
        };
        if !(source.is_char_boundary(i + 1) && source.is_char_boundary(t)) {
            return IconScan { shapes, end: ScanEnd::Failed(IconError::UnterminatedTag) };
        }
        let body = &bytes[i + 1..t];
        if body.len() > 0 && body[0] == 0x2F {
            i = t + 1;
            continue;
        }
        let name_end = tag_name(body);
        let name = &body[0..name_end];
        if is_container_name(name) {
            i = t + 1;
            continue;
        }
        let kind = match element_of_name(name) {
            Some(kind) => kind,
            None => {
                return IconScan {
                    shapes,
                    end: ScanEnd::Failed(IconError::UnsupportedElement(owned_text(name))),
                };
            },
        };
        let geometry = match read_geometry(body, kind) {
            GeometryRead::Built(g) => g,
            GeometryRead::Refused(err) => {
                return IconScan { shapes, end: ScanEnd::Failed(err) };
            },
            GeometryRead::Diverges => {
                return IconScan { shapes, end: ScanEnd::Diverges };
            },
        };
        let paint = match read_paint(body) {
            Ok(p) => p,
            Err(err) => {
                return IconScan { shapes, end: ScanEnd::PaintFailed(geometry, err) };
            },
        };
        let shape = Shape { geometry, paint };
        let ghost sv = shape.view();
        shapes.push(shape);
        proof {
            assert(shapes_view(shapes@) =~= shapes_view(before) + seq![sv]);
            let rest = scan_from(s, t + 1);
            assert(shapes_view(before) + (seq![sv] + rest.shapes) =~= shapes_view(shapes@)
                + rest.shapes);
        }
        i = t + 1;
    }
    proof {
        assert(shapes_view(shapes@) + Seq::<SpecShape>::empty() =~= shapes_view(shapes@));
    }
    IconScan { shapes, end: ScanEnd::Complete }
}

/// Whether some shape of a scan is undrawable.
pub open spec fn some_undrawable(count: int, drawable: Seq<bool>) -> bool {
    exists|j: int| 0 <= j < count && !drawable[j]
}

/// What a scan comes to once each geometry it read is known to be drawable
/// or not (`drawable[j]` for the `j`-th, the refused-paint geometry last):
/// the first undrawable geometry refuses the source, and otherwise the
/// scan's own ending decides.
pub open spec fn assembled(scan: SpecScan, drawable: Seq<bool>) -> Result<
    Seq<SpecShape>,
    SpecError,
> {
    if some_undrawable(scan.shapes.len() as int, drawable) {
        Err(SpecError::DegeneratePath)
    } else {
        match scan.end {
            SpecEnd::Complete => Ok(scan.shapes),
            SpecEnd::Failed(e) => Err(e),
            SpecEnd::PaintFailed(_, e) => if !drawable[scan.shapes.len() as int] {
                Err(SpecError::DegeneratePath)
            } else {
                Err(e)
            },
            SpecEnd::Diverges => Err(SpecError::DegeneratePath),
        }
    }
}

/// Parsed icon artwork: a list of shapes, drawn in document order.
#[derive(Debug, Clone, PartialEq, Eq)]
pub struct IconArt {
    shapes: Vec<Shape>,
}

impl IconArt {
    /// The shapes, in the grammar's terms.
    pub closed spec fn view(&self) -> Seq<SpecShape> {
        shapes_view(self.shapes@)
    }

    /// Finishes reading a source from its scan and from whether each
    /// geometry the scan read is drawable, as [`assembled`] prescribes.
    pub fn assemble(scan: IconScan, drawable: &[bool]) -> (r: Result<IconArt, IconError>)
        requires
            !(scan.end is Diverges),
            drawable@.len() == scan.spec_geometry_count(),
        ensures
            match assembled(scan.view(), drawable@) {
                Ok(shapes) => r is Ok && r->Ok_0.view() == shapes,
                Err(e) => r is Err && r->Err_0.view() == e,
            },
    {
        let n = scan.shapes.len();
        let mut j: usize = 0;
        while j < n
            invariant
                n == scan.shapes@.len(),
                n <= drawable@.len(),
                0 <= j <= n,
                forall|k: int| 0 <= k < j ==> drawable@[k],
            decreases n - j,
        {
            if !drawable[j] {
                return Err(IconError::DegeneratePath);
            }
            j += 1;
        }
        match scan.end {
            ScanEnd::Complete => Ok(IconArt { shapes: scan.shapes }),
            ScanEnd::Failed(e) => Err(e),
            ScanEnd::PaintFailed(_, e) => if !drawable[n] {
                Err(IconError::DegeneratePath)
            } else {
                Err(e)
            },
            ScanEnd::Diverges => Err(IconError::DegeneratePath),
        }
    }

    /// How many shapes the art draws.
    pub fn shape_count(&self) -> (n: usize)
        ensures
            n == self.view().len(),
    {
        self.shapes.len()
    }

    /// Whether any shape is filled rather than only stroked.
    pub fn has_fill(&self) -> (r: bool)
        ensures
            r == exists|i: int| 0 <= i < self.view().len() && self.view()[i].paint.filled,
    {
        let mut i: usize = 0;
        while i < self.shapes.len()
            invariant
                0 <= i <= self.shapes@.len(),
                forall|k: int| 0 <= k < i ==> !self.view()[k].paint.filled,
            decreases self.shapes@.len() - i,
        {
            if self.shapes[i].paint.filled {
                assert(self.view()[i as int].paint.filled);
                return true;
            }
            i += 1;
        }
        false
    }

    /// The shapes, in document order.
    pub fn shapes(&self) -> (s: &[Shape])
        ensures
            shapes_view(s@) == self.view(),
    {
        self.shapes.as_slice()
    }
}

/// The sentence that explains a refusal.
pub open spec fn spec_message(e: SpecError) -> Seq<char> {
    match e {
        SpecError::UnsupportedElement(tag) => "unsupported SVG element <"@ + tag
            + "> (icon subset: svg, path, rect, circle)"@,
        SpecError::UnsupportedPathCommand(c) => "unsupported SVG path command '"@ + seq![c]
            + "'"@,
        SpecError::NoCurrentPoint(c) => "path command '"@ + seq![c]
            + "' issued with no current point (data must start with M/m)"@,
        SpecError::MalformedNumber(offset) => "malformed number in path data at byte "@
            + decimal_text(offset as usize),
        SpecError::MalformedFlag(offset) => "malformed arc flag at byte "@ + decimal_text(
            offset as usize,
        ) + " (must be exactly '0' or '1')"@,
        SpecError::UnexpectedEnd => "SVG data ended mid-command"@,
        SpecError::MissingAttribute(element, attribute) => "<"@ + element
            + "> is missing the required '"@ + attribute + "' attribute"@,
        SpecError::UnsupportedPaintValue(attribute, value) => "unsupported "@ + attribute
            + " value '"@ + value + "'"@,
        SpecError::UnterminatedTag => "unterminated SVG tag (no '>')"@,
        SpecError::DegeneratePath => "path produced no drawable geometry"@,
    }
}

impl IconError {
    /// The sentence that explains this refusal.
    pub fn message(&self) -> (m: String)
        ensures
            m@ == spec_message(self.view()),
    {
        let mut m = String::new();
        match self {
            IconError::UnsupportedElement(tag) => {
                m.append("unsupported SVG element <");
                m.append(tag.as_str());
                m.append("> (icon subset: svg, path, rect, circle)");
            },
            IconError::UnsupportedPathCommand(c) => {
                m.append("unsupported SVG path command '");
                string_push(&mut m, *c);
                m.append("'");
            },
            IconError::NoCurrentPoint(c) => {
                m.append("path command '");
                string_push(&mut m, *c);
                m.append("' issued with no current point (data must start with M/m)");
            },
            IconError::MalformedNumber { offset } => {
                m.append("malformed number in path data at byte ");
                let n = usize_text(*offset);
                m.append(n.as_str());
            },
            IconError::MalformedFlag { offset } => {
                m.append("malformed arc flag at byte ");
                let n = usize_text(*offset);
                m.append(n.as_str());
                m.append(" (must be exactly '0' or '1')");
            },
            IconError::UnexpectedEnd => {
                m.append("SVG data ended mid-command");
            },
            IconError::MissingAttribute { element, attribute } => {
                m.append("<");
                m.append(element);
                m.append("> is missing the required '");
                m.append(attribute);
                m.append("' attribute");
            },
            IconError::UnsupportedPaintValue { attribute, value } => {
                m.append("unsupported ");
                m.append(attribute);
                m.append(" value '");
                m.append(value.as_str());
                m.append("'");
            },
            IconError::UnterminatedTag => {
                m.append("unterminated SVG tag (no '>')");
            },
            IconError::DegeneratePath => {
                m.append("path produced no drawable geometry");
            },
        }
        assert(m@ =~= spec_message(self.view()));
        m
    }
}

/// The paint of a tag body is the one its attributes spell, whatever the
/// rest of the body holds:
/// - `stroke-linecap="butt"`, `"round"` and `"square"` give the butt, round
///   and square caps, an absent one the butt cap, and any other value is
///   refused;
/// - `stroke-linejoin="miter"`, `"round"` and `"bevel"` give the miter,
///   round and bevel joins, an absent one the miter join, and any other
///   value is refused;
/// - the shape is stroked exactly when it has a `stroke="..."` other than
///   `"none"`, and filled exactly when it has a `fill="..."` other than
///   `"none"`.
pub proof fn law_the_paint_is_the_one_spelled(body: Seq<u8>)
    ensures
        ({
            // `stroke-linecap="`
            let cap = attr_span(
                body,
                seq![115u8, 116, 114, 111, 107, 101, 45, 108, 105, 110, 101, 99, 97, 112, 61, 34],
            );
            // `stroke-linejoin="`
            let join = attr_span(
                body,
                seq![115u8, 116, 114, 111, 107, 101, 45, 108, 105, 110, 101, 106, 111, 105, 110, 61, 34],
            );
            // `stroke="` and `fill="`
            let stroke = attr_span(body, seq![115u8, 116, 114, 111, 107, 101, 61, 34]);
            let fill = attr_span(body, seq![102u8, 105, 108, 108, 61, 34]);
            let word_butt = seq![0x62u8, 0x75, 0x74, 0x74];
            let word_round = seq![0x72u8, 0x6F, 0x75, 0x6E, 0x64];
            let word_square = seq![0x73u8, 0x71, 0x75, 0x61, 0x72, 0x65];
            let word_miter = seq![0x6Du8, 0x69, 0x74, 0x65, 0x72];
            let word_bevel = seq![0x62u8, 0x65, 0x76, 0x65, 0x6C];
            let word_none = seq![0x6Eu8, 0x6F, 0x6E, 0x65];
            let value = |span: Option<(int, int)>| match span {
                Some((x, y)) => Some(body.subrange(x, y)),
                None => None,
            };
            let cap_ok = match cap {
                None => true,
                Some((x, y)) => body.subrange(x, y) == word_butt || body.subrange(x, y) == word_round
                    || body.subrange(x, y) == word_square,
            };
            let join_ok = match join {
                None => true,
                Some((x, y)) => body.subrange(x, y) == word_miter || body.subrange(x, y) == word_round
                    || body.subrange(x, y) == word_bevel,
            };
            &&& paint_of(body) matches Ok(p) ==> {
                &&& cap is None ==> p.line_cap == LineCap::Butt
                &&& value(cap) == Some(word_butt) ==> p.line_cap
                    == LineCap::Butt
                &&& value(cap) == Some(word_round) ==> p.line_cap
                    == LineCap::Round
                &&& value(cap) == Some(word_square) ==> p.line_cap
                    == LineCap::Square
                &&& join is None ==> p.line_join == LineJoin::Miter
                &&& value(join) == Some(word_miter) ==> p.line_join
                    == LineJoin::Miter
                &&& value(join) == Some(word_round) ==> p.line_join
                    == LineJoin::Round
                &&& value(join) == Some(word_bevel) ==> p.line_join
                    == LineJoin::Bevel
                &&& (p.stroke is Unstroked) == !(value(stroke) is Some && value(stroke) != Some(
                    word_none,
                ))
                &&& p.filled == (value(fill) is Some && value(fill) != Some(word_none))
                &&& p.stroke matches SpecStroke::Width(t) ==> number_attr(body, Attr::StrokeWidth)
                    == SpecNumber::Text(t)
                &&& p.stroke is DefaultWidth ==> number_attr(body, Attr::StrokeWidth) is Absent
            }
            &&& !cap_ok ==> paint_of(body) is Err
            &&& !join_ok ==> paint_of(body) is Err
            &&& stroke_of(body) is Ok && cap_ok && join_ok ==> paint_of(body) is Ok
        }),
{
}

/// The bytes that spell an ASCII text.
pub open spec fn ascii_bytes(t: Seq<char>) -> Seq<u8> {
    t.map_values(|c: char| c as u8)
}

/// Each attribute is looked up by its own name: the lookup pattern is the
/// name an error reports it by, then `="`.
pub proof fn law_attributes_are_found_by_their_own_names(a: Attr)
    ensures
        attr_pattern(a) == ascii_bytes(attr_text(a)) + seq![0x3Du8, 0x22],
{
    match a {
        Attr::D => {
            assert(attr_pattern(a) =~= ascii_bytes(attr_text(a)) + seq![0x3Du8, 0x22]);
        },
        Attr::X => {
            assert(attr_pattern(a) =~= ascii_bytes(attr_text(a)) + seq![0x3Du8, 0x22]);
        },
        Attr::Y => {
            assert(attr_pattern(a) =~= ascii_bytes(attr_text(a)) + seq![0x3Du8, 0x22]);
        },
        Attr::Width => {
            assert(attr_pattern(a) =~= ascii_bytes(attr_text(a)) + seq![0x3Du8, 0x22]);
        },
        Attr::Height => {
            assert(attr_pattern(a) =~= ascii_bytes(attr_text(a)) + seq![0x3Du8, 0x22]);
        },
        Attr::Rx => {
            assert(attr_pattern(a) =~= ascii_bytes(attr_text(a)) + seq![0x3Du8, 0x22]);
        },
        Attr::Cx => {
            assert(attr_pattern(a) =~= ascii_bytes(attr_text(a)) + seq![0x3Du8, 0x22]);
        },
        Attr::Cy => {
            assert(attr_pattern(a) =~= ascii_bytes(attr_text(a)) + seq![0x3Du8, 0x22]);
        },
        Attr::R => {
            assert(attr_pattern(a) =~= ascii_bytes(attr_text(a)) + seq![0x3Du8, 0x22]);
        },
        Attr::Stroke => {
            assert(attr_pattern(a) =~= ascii_bytes(attr_text(a)) + seq![0x3Du8, 0x22]);
        },
        Attr::StrokeWidth => {
            assert(attr_pattern(a) =~= ascii_bytes(attr_text(a)) + seq![0x3Du8, 0x22]);
        },
        Attr::StrokeLinecap => {
            assert(attr_pattern(a) =~= ascii_bytes(attr_text(a)) + seq![0x3Du8, 0x22]);
        },
        Attr::StrokeLinejoin => {
            assert(attr_pattern(a) =~= ascii_bytes(attr_text(a)) + seq![0x3Du8, 0x22]);
        },
        Attr::Fill => {
            assert(attr_pattern(a) =~= ascii_bytes(attr_text(a)) + seq![0x3Du8, 0x22]);
        },
    }
}

/// Each shape element is read under its own name: the tag named as an error
/// names the element is that element.
pub proof fn law_elements_are_read_by_their_own_names(e: ElementKind)
    ensures
        element_named(ascii_bytes(element_text(e))) == Some(e),
{
    match e {
        ElementKind::Path => {
            assert(ascii_bytes(element_text(e)) =~= seq![0x70u8, 0x61, 0x74, 0x68]);
        },
        ElementKind::Rect => {
            assert(ascii_bytes(element_text(e)) =~= seq![0x72u8, 0x65, 0x63, 0x74]);
        },
        ElementKind::Circle => {
            assert(ascii_bytes(element_text(e)) =~= seq![0x63u8, 0x69, 0x72, 0x63, 0x6C, 0x65]);
        },
    }
}

/// A shape's geometry takes each coordinate from the attribute of that
/// coordinate: a rectangle its `x`, `y`, `width`, `height` and optional `rx`
/// in that order, a circle its `cx`, `cy` and `r`, a path the data of its
/// `d` and the segments read from that data.
pub proof fn law_geometry_reads_its_own_attributes(body: Seq<u8>)
    ensures
        geometry_of(body, ElementKind::Rect) matches GeometryOutcome::Built(
            SpecGeometry::Rect(x, y, w, h, rx),
        ) ==> number_attr(body, Attr::X) == SpecNumber::Text(x) && number_attr(body, Attr::Y)
            == SpecNumber::Text(y) && number_attr(body, Attr::Width) == SpecNumber::Text(w)
            && number_attr(body, Attr::Height) == SpecNumber::Text(h) && (match rx {
            Some(t) => number_attr(body, Attr::Rx) == SpecNumber::Text(t),
            None => number_attr(body, Attr::Rx) is Absent,
        }),
        geometry_of(body, ElementKind::Circle) matches GeometryOutcome::Built(
            SpecGeometry::Circle(cx, cy, r),
        ) ==> number_attr(body, Attr::Cx) == SpecNumber::Text(cx) && number_attr(body, Attr::Cy)
            == SpecNumber::Text(cy) && number_attr(body, Attr::R) == SpecNumber::Text(r),
        geometry_of(body, ElementKind::Path) matches GeometryOutcome::Built(
            SpecGeometry::Path(d, segs),
        ) ==> (attr_span(body, attr_pattern(Attr::D)) matches Some((a, b)) && d == body.subrange(a, b)
            && spec_parse_path(d) == PathOutcome::Parsed(segs)),
        geometry_of(body, ElementKind::Rect) is Built || geometry_of(body, ElementKind::Rect) is Refused,
        geometry_of(body, ElementKind::Circle) is Built || geometry_of(body, ElementKind::Circle) is Refused,
        geometry_of(body, ElementKind::Rect) is Built ==> geometry_of(body, ElementKind::Rect)->Built_0 is Rect,
        geometry_of(body, ElementKind::Circle) is Built ==> geometry_of(body, ElementKind::Circle)->Built_0 is Circle,
        geometry_of(body, ElementKind::Path) is Built ==> geometry_of(body, ElementKind::Path)->Built_0 is Path,
{
}

} // verus!
