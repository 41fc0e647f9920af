//! Selecting text on the canvas: which positions a gesture selects, what
//! text that copies, and which highlight box each selected glyph belongs to.
//!
//! A selection is one pass over the page's text: the copied string and the
//! highlight boxes come from the same covered range, so the two cannot
//! disagree. A selection also remembers the edit it was made at; after any
//! edit it is stale, and it neither paints nor authors a markup, because the
//! glyphs it covered may have moved.
//!
//! The boxes themselves are geometry and are drawn by the shell; this module
//! decides which glyphs share a box (one per line, in the order the lines are
//! first met) and what text is copied.

use vstd::prelude::*;
use vstd::string::StringSliceAdditionalSpecFns;
use vstd::utf8::{decode_utf8, encode_utf8, is_char_boundary};

use vstd::string::StringExecFns;

verus! {

/// A caret position in a page's text: a run, and a byte offset into its text.
#[derive(Debug, Clone, Copy, PartialEq, Eq, Structural)]
pub struct TextPosition {
    pub run: usize,
    pub byte_offset: usize,
}

impl TextPosition {
    pub fn new(run: usize, byte_offset: usize) -> (p: TextPosition)
        ensures
            p == (TextPosition { run, byte_offset }),
    {
        TextPosition { run, byte_offset }
    }
}

/// Whether `a` comes no later than `b`: by run, then by offset.
pub open spec fn not_after(a: TextPosition, b: TextPosition) -> bool {
    a.run < b.run || (a.run == b.run && a.byte_offset <= b.byte_offset)
}

/// Two positions in reading order.
pub open spec fn in_order(a: TextPosition, b: TextPosition) -> (TextPosition, TextPosition) {
    if not_after(a, b) {
        (a, b)
    } else {
        (b, a)
    }
}

/// The two ends of a selection in reading order, whichever way it was
/// dragged.
pub fn ordered(a: TextPosition, b: TextPosition) -> (r: (TextPosition, TextPosition))
    ensures
        r == in_order(a, b),
{
    if a.run < b.run || (a.run == b.run && a.byte_offset <= b.byte_offset) {
        (a, b)
    } else {
        (b, a)
    }
}

/// The text `str::get` gives for the byte range `lo..hi` of `s`: the chars
/// those bytes encode, when both ends fall on character boundaries in order.
pub open spec fn slice_text(s: Seq<char>, lo: int, hi: int) -> Option<Seq<char>> {
    let bytes = encode_utf8(s);
    if lo <= hi && is_char_boundary(bytes, lo) && is_char_boundary(bytes, hi) {
        Some(decode_utf8(bytes.subrange(lo, hi)))
    } else {
        None
    }
}

/// `str::get` with a byte range: the sub-string when both ends are character
/// boundaries, in order and within the string, and nothing otherwise, as the
/// documentation states.
#[verifier::external_body]
fn str_slice(s: &str, lo: usize, hi: usize) -> (r: Option<&str>)
    ensures
        match r {
            Some(t) => slice_text(s@, lo as int, hi as int) == Some(t@),
            None => slice_text(s@, lo as int, hi as int) is None,
        },
{
    s.get(lo..hi)
}

/// The part of run `r` a selection from `start` to `end` covers: from the
/// start's offset on its own run (else the run's beginning) to the end's
/// offset on its own run (else the run's end); nothing when that range does
/// not cut the run's text at character boundaries.
pub open spec fn run_piece(runs: Seq<String>, r: int, start: TextPosition, end: TextPosition) -> Seq<
    char,
> {
    let s = runs[r]@;
    let lo = if r == start.run {
        start.byte_offset as int
    } else {
        0
    };
    let hi = if r == end.run {
        end.byte_offset as int
    } else {
        (encode_utf8(s).len() as usize) as int
    };
    match slice_text(s, lo, hi) {
        Some(t) => t,
        None => Seq::empty(),
    }
}

/// The pieces of runs `from` up to (not including) `to`, joined.
pub open spec fn pieces(runs: Seq<String>, start: TextPosition, end: TextPosition, from: int, to: int) -> Seq<
    char,
>
    decreases to - from,
{
    if to <= from {
        Seq::empty()
    } else {
        pieces(runs, start, end, from, to - 1) + run_piece(runs, to - 1, start, end)
    }
}

/// The text a selection between `a` and `b` copies: the covered part of
/// each run from the earlier end's run to the later end's run, stopping at
/// the page's last run.
pub open spec fn selected_text_of(runs: Seq<String>, a: TextPosition, b: TextPosition) -> Seq<char> {
    let (start, end) = in_order(a, b);
    if runs.len() == 0 {
        Seq::empty()
    } else {
        let last = if end.run < runs.len() {
            end.run as int
        } else {
            runs.len() - 1
        };
        pieces(runs, start, end, start.run as int, last + 1)
    }
}

/// The text a selection between `anchor` and `focus` copies from the page's
/// runs.
pub fn selected_text(runs: &[String], anchor: TextPosition, focus: TextPosition) -> (s: String)
    ensures
        s@ == selected_text_of(runs@, anchor, focus),
{
    let (start, end) = ordered(anchor, focus);
    let mut text = String::new();
    if runs.len() == 0 {
        return text;
    }
    let last = if end.run < runs.len() {
        end.run
    } else {
        runs.len() - 1
    };
    if start.run > last {
        return text;
    }
    let mut index = start.run;
    while index <= last
        invariant
            start.run <= index,
            last < runs@.len(),
            index <= last + 1,
            (start, end) == in_order(anchor, focus),
            text@ == pieces(runs@, start, end, start.run as int, index as int),
        decreases last + 1 - index,
    {
        let run = &runs[index];
        let lo = if index == start.run {
            start.byte_offset
        } else {
            0
        };
        let hi = if index == end.run {
            end.byte_offset
        } else {
            run.as_str().len()
        };
        let piece = str_slice(run.as_str(), lo, hi);
        proof {
            assert(run_piece(runs@, index as int, start, end) == (match piece {
                Some(t) => t@,
                None => Seq::<char>::empty(),
            }));
        }
        match piece {
            Some(t) => text.append(t),
            None => {},
        }
        proof {
            assert(pieces(runs@, start, end, start.run as int, index + 1) == pieces(
                runs@,
                start,
                end,
                start.run as int,
                index as int,
            ) + run_piece(runs@, index as int, start, end));
        }
        index += 1;
    }
    text
}

/// The boxes glyphs are gathered into, by the line each glyph belongs to
/// (`usize::MAX` for a glyph on no line): a glyph joins the box of its line
/// if one is already open, and starts a new one otherwise. A glyph on no
/// line always gets a box of its own.
pub open spec fn box_keys_of(keys: Seq<usize>) -> Seq<usize>
    decreases keys.len(),
{
    if keys.len() == 0 {
        Seq::empty()
    } else {
        let before = box_keys_of(keys.drop_last());
        let k = keys.last();
        if k != usize::MAX && before.contains(k) {
            before
        } else {
            before.push(k)
        }
    }
}

/// Where `k` first occurs in `s`.
pub open spec fn first_index(s: Seq<usize>, k: usize) -> int {
    choose|i: int| 0 <= i < s.len() && s[i] == k && forall|j: int| 0 <= j < i ==> s[j] != k
}

/// The box each glyph goes into, by position in [`box_keys_of`].
pub open spec fn box_slots_of(keys: Seq<usize>) -> Seq<usize>
    decreases keys.len(),
{
    if keys.len() == 0 {
        Seq::empty()
    } else {
        let before = box_keys_of(keys.drop_last());
        let k = keys.last();
        let slot = if k != usize::MAX && before.contains(k) {
            first_index(before, k)
        } else {
            before.len() as int
        };
        box_slots_of(keys.drop_last()).push(slot as usize)
    }
}

/// Where `k` first occurs in `s`, if it does.
fn find_key(s: &Vec<usize>, k: usize) -> (r: Option<usize>)
    ensures
        match r {
            Some(i) => i < s@.len() && s@[i as int] == k && forall|j: int|
                0 <= j < i ==> s@[j] != k,
            None => !s@.contains(k),
        },
{
    let mut i: usize = 0;
    while i < s.len()
        invariant
            0 <= i <= s@.len(),
            forall|j: int| 0 <= j < i ==> s@[j] != k,
        decreases s@.len() - i,
    {
        if s[i] == k {
            return Some(i);
        }
        i += 1;
    }
    None
}

/// Gather the covered glyphs into highlight boxes, one per line in the
/// order the lines are first met. `keys` holds each covered glyph's line
/// (`usize::MAX` for none); the result is each box's line, and the box each
/// glyph goes into.
pub fn line_boxes(keys: &[usize]) -> (r: (Vec<usize>, Vec<usize>))
    ensures
        r.0@ == box_keys_of(keys@),
        r.1@ == box_slots_of(keys@),
        r.1@.len() == keys@.len(),
        forall|i: int| 0 <= i < keys@.len() ==> (#[trigger] r.1@[i]) < r.0@.len() && r.0@[r.1@[i] as int]
            == keys@[i],
{
    let mut boxes: Vec<usize> = Vec::new();
    let mut slots: Vec<usize> = Vec::new();
    let mut i: usize = 0;
    while i < keys.len()
        invariant
            0 <= i <= keys@.len(),
            boxes@ == box_keys_of(keys@.take(i as int)),
            slots@ == box_slots_of(keys@.take(i as int)),
            slots@.len() == i,
            boxes@.len() <= i,
            forall|j: int| 0 <= j < i ==> (#[trigger] slots@[j]) < boxes@.len() && boxes@[slots@[j] as int]
                == keys@[j],
        decreases keys@.len() - i,
    {
        let k = keys[i];
        proof {
            assert(keys@.take(i + 1).drop_last() =~= keys@.take(i as int));
            assert(keys@.take(i + 1).last() == k);
        }
        let found = if k != usize::MAX {
            find_key(&boxes, k)
        } else {
            None
        };
        match found {
            Some(at) => {
                proof {
                    let c = first_index(boxes@, k);
                    assert(boxes@.contains(k));
                    assert(0 <= c < boxes@.len() && boxes@[c] == k && forall|j: int|
                        0 <= j < c ==> boxes@[j] != k);
                    if (at as int) < c {
                        assert(boxes@[at as int] != k);
                    }
                    if c < at {
                        assert(boxes@[c] != k);
                    }
                }
                slots.push(at);
            },
            None => {
                slots.push(boxes.len());
                boxes.push(k);
            },
        }
        i += 1;
    }
    assert(keys@.take(keys@.len() as int) =~= keys@);
    (boxes, slots)
}

/// The line a glyph belongs to: the last of `lines` that lists it, or
/// `usize::MAX` when none does.
pub open spec fn line_of_glyph(lines: Seq<Vec<(usize, usize)>>, glyph: (usize, usize)) -> usize {
    if exists|l: int| 0 <= l < lines.len() && lines[l]@.contains(glyph) {
        (choose|l: int|
            0 <= l < lines.len() && lines[l]@.contains(glyph) && forall|m: int|
                l < m < lines.len() ==> !lines[m]@.contains(glyph)) as usize
    } else {
        usize::MAX
    }
}

/// Whether `line` lists `glyph`.
fn lists(line: &Vec<(usize, usize)>, glyph: (usize, usize)) -> (r: bool)
    ensures
        r == line@.contains(glyph),
{
    let mut i: usize = 0;
    while i < line.len()
        invariant
            0 <= i <= line@.len(),
            forall|j: int| 0 <= j < i ==> line@[j] != glyph,
        decreases line@.len() - i,
    {
        if line[i].0 == glyph.0 && line[i].1 == glyph.1 {
            return true;
        }
        i += 1;
    }
    false
}

/// The last of `lines` that lists `glyph`, if any does.
fn last_line_listing(lines: &[Vec<(usize, usize)>], glyph: (usize, usize)) -> (r: Option<usize>)
    requires
        lines@.len() < usize::MAX,
    ensures
        match r {
            Some(l) => l < lines@.len() && lines@[l as int]@.contains(glyph) && forall|m: int|
                l < m < lines@.len() ==> !lines@[m]@.contains(glyph),
            None => forall|m: int| 0 <= m < lines@.len() ==> !lines@[m]@.contains(glyph),
        },
{
    let mut l: usize = lines.len();
    while l > 0
        invariant
            0 <= l <= lines@.len(),
            forall|m: int| l <= m < lines@.len() ==> !lines@[m]@.contains(glyph),
        decreases l,
    {
        if lists(&lines[l - 1], glyph) {
            return Some(l - 1);
        }
        l -= 1;
    }
    None
}

/// The line each covered glyph (a run and a glyph index) belongs to, given
/// the glyphs each line lists; `usize::MAX` for a glyph on no line.
pub fn line_keys(lines: &[Vec<(usize, usize)>], covered: &[(usize, usize)]) -> (r: Vec<usize>)
    requires
        lines@.len() < usize::MAX,
    ensures
        r@.len() == covered@.len(),
        forall|i: int| 0 <= i < covered@.len() ==> #[trigger] r@[i] == line_of_glyph(lines@, covered@[i]),
        r@ == covered_lines(lines@, covered@),
{
    let mut keys: Vec<usize> = Vec::new();
    let mut i: usize = 0;
    while i < covered.len()
        invariant
            0 <= i <= covered@.len(),
            lines@.len() < usize::MAX,
            keys@.len() == i,
            forall|j: int| 0 <= j < i ==> #[trigger] keys@[j] == line_of_glyph(lines@, covered@[j]),
        decreases covered@.len() - i,
    {
        let glyph = covered[i];
        let key = match last_line_listing(lines, glyph) {
            Some(l) => l,
            None => usize::MAX,
        };
        proof {
            let s = lines@;
            if key != usize::MAX {
                let c = choose|c: int|
                    0 <= c < s.len() && s[c]@.contains(glyph) && forall|m: int|
                        c < m < s.len() ==> !s[m]@.contains(glyph);
                if c < key {
                    assert(!s[key as int]@.contains(glyph));
                }
                if key < c {
                    assert(!s[c]@.contains(glyph));
                }
            }
        }
        keys.push(key);
        i += 1;
    }
    assert(keys@ =~= covered_lines(lines@, covered@));
    keys
}

/// The ends a click resolves to, given what the text model says about the
/// clicked position: a triple click takes its line (nothing when it is on
/// none), a double click its word, a shift click extends a live selection on
/// this page from that selection's anchor, and any other click is a caret.
pub open spec fn click_ends(
    at: TextPosition,
    shift: bool,
    double: bool,
    triple: bool,
    extend_from: Option<TextPosition>,
    line: Option<(TextPosition, TextPosition)>,
    word: (TextPosition, TextPosition),
) -> Option<(TextPosition, TextPosition)> {
    if triple {
        line
    } else if double {
        Some(word)
    } else if shift && extend_from is Some {
        Some((extend_from->0, at))
    } else {
        Some((at, at))
    }
}

/// The ends a click resolves to. `current` is the selection that exists, if
/// any; it is extended only when it is on `page` and made at `epoch`.
pub fn click_ends_for<B, Q>(
    at: TextPosition,
    shift: bool,
    double: bool,
    triple: bool,
    current: Option<&TextSelection<B, Q>>,
    page: usize,
    epoch: u64,
    line: Option<(TextPosition, TextPosition)>,
    word: (TextPosition, TextPosition),
) -> (r: Option<(TextPosition, TextPosition)>)
    ensures
        r == click_ends(
            at,
            shift,
            double,
            triple,
            match current {
                Some(c) => if c.page == page && c.epoch == epoch {
                    Some(c.anchor)
                } else {
                    None
                },
                None => None,
            },
            line,
            word,
        ),
{
    if triple {
        return line;
    }
    if double {
        return Some(word);
    }
    if shift {
        if let Some(c) = current {
            if c.page == page && c.live(epoch) {
                return Some((c.anchor, at));
            }
        }
    }
    Some((at, at))
}

/// The ends select-all resolves to: from the start of the first run to the
/// end of the last; nothing on a page with no runs.
pub fn select_all_ends(runs: &[String]) -> (r: Option<(TextPosition, TextPosition)>)
    ensures
        runs@.len() == 0 ==> r is None,
        runs@.len() > 0 ==> r == Some(
            (
                TextPosition { run: 0, byte_offset: 0 },
                TextPosition {
                    run: (runs@.len() - 1) as usize,
                    byte_offset: encode_utf8(runs@[runs@.len() - 1]@).len() as usize,
                },
            ),
        ),
{
    if runs.len() == 0 {
        return None;
    }
    let last = runs.len() - 1;
    let end = runs[last].as_str().len();
    Some((TextPosition::new(0, 0), TextPosition::new(last, end)))
}

/// One text selection on one page. `B` is a highlight box as the canvas
/// paints it and `Q` the same box as the page-space quad a markup authors.
pub struct TextSelection<B, Q> {
    /// The page it is on.
    pub page: usize,
    /// Where the gesture started.
    pub anchor: TextPosition,
    /// Where it ended.
    pub focus: TextPosition,
    /// The edit it was made at.
    pub epoch: u64,
    /// The boxes painted on the canvas, one per line.
    pub quads: Vec<B>,
    /// The same boxes in page space, in the same order.
    pub page_quads: Vec<Q>,
    /// The text it copies.
    pub text: String,
}

impl<B, Q> TextSelection<B, Q> {
    /// The selection a gesture produced, or none when nothing could be
    /// highlighted: a selection with no box would copy text nobody saw
    /// selected. `page_boxes` holds each line's box in page space and
    /// `projected` the same box on the canvas, or nothing where it does not
    /// project; a box that does not project is dropped from both lists, so
    /// the painted boxes and the authored quads always describe the same
    /// lines, in the same order.
    pub fn assemble(
        page: usize,
        anchor: TextPosition,
        focus: TextPosition,
        epoch: u64,
        page_boxes: &[Q],
        projected: &[Option<B>],
        text: String,
    ) -> (r: Option<Self>)
        where B: Copy, Q: Copy,
        requires
            page_boxes@.len() == projected@.len(),
        ensures
            kept_boxes(page_boxes@, projected@, projected@.len() as int).0.len() == 0 ==> r is None,
            kept_boxes(page_boxes@, projected@, projected@.len() as int).0.len() > 0 ==> (r matches Some(
                s,
            ) && s.page == page && s.anchor == anchor && s.focus == focus && s.epoch == epoch
                && s.quads@ == kept_boxes(page_boxes@, projected@, projected@.len() as int).0
                && s.page_quads@ == kept_boxes(page_boxes@, projected@, projected@.len() as int).1
                && s.quads@.len() == s.page_quads@.len() && s.text@ == text@),
    {
        let mut quads: Vec<B> = Vec::new();
        let mut page_quads: Vec<Q> = Vec::new();
        let mut i: usize = 0;
        while i < projected.len()
            invariant
                0 <= i <= projected@.len(),
                page_boxes@.len() == projected@.len(),
                (quads@, page_quads@) == kept_boxes(page_boxes@, projected@, i as int),
                quads@.len() == page_quads@.len(),
            decreases projected@.len() - i,
        {
            match projected[i] {
                Some(canvas) => {
                    quads.push(canvas);
                    page_quads.push(page_boxes[i]);
                },
                None => {},
            }
            i += 1;
        }
        if quads.len() == 0 {
            return None;
        }
        Some(TextSelection { page, anchor, focus, epoch, quads, page_quads, text })
    }

    /// Whether the selection was made at the document's current edit.
    pub fn live(&self, epoch: u64) -> (r: bool)
        ensures
            r == (self.epoch == epoch),
    {
        self.epoch == epoch
    }

    /// The boxes to paint on `page`: the selection's own when it is on that
    /// page and live, none otherwise.
    pub fn highlights(&self, page: usize, epoch: u64) -> (r: &[B])
        ensures
            r@ == highlight_boxes(*self, page, epoch),
    {
        if self.page == page && self.live(epoch) {
            self.quads.as_slice()
        } else {
            &[]
        }
    }

    /// The page-space quads a markup would author over: the selection's
    /// own while it is live, none once an edit has made it stale.
    pub fn marks(&self, epoch: u64) -> (r: &[Q])
        ensures
            r@ == mark_quads(*self, epoch),
    {
        if self.live(epoch) {
            self.page_quads.as_slice()
        } else {
            &[]
        }
    }

    /// How many bytes of text it copies.
    pub fn len(&self) -> (n: usize)
        ensures
            n == encode_utf8(self.text@).len() as usize,
    {
        self.text.as_str().len()
    }

    /// Whether it copies no text.
    pub fn is_empty(&self) -> (r: bool)
        ensures
            r == (self.text@.len() == 0),
    {
        self.text.as_str().is_empty()
    }
}

/// The boxes that survive projection among the first `n`: each box that
/// projects, on the canvas and in page space, in the order they came.
pub open spec fn kept_boxes<B, Q>(page_boxes: Seq<Q>, projected: Seq<Option<B>>, n: int) -> (Seq<B>, Seq<Q>)
    decreases n,
{
    if n <= 0 {
        (Seq::empty(), Seq::empty())
    } else {
        let before = kept_boxes(page_boxes, projected, n - 1);
        match projected[n - 1] {
            Some(canvas) => (before.0.push(canvas), before.1.push(page_boxes[n - 1])),
            None => before,
        }
    }
}

/// The boxes a selection paints on `page` at edit `epoch`.
pub open spec fn highlight_boxes<B, Q>(s: TextSelection<B, Q>, page: usize, epoch: u64) -> Seq<B> {
    if s.page == page && s.epoch == epoch {
        s.quads@
    } else {
        Seq::empty()
    }
}

/// The quads a selection authors over at edit `epoch`.
pub open spec fn mark_quads<B, Q>(s: TextSelection<B, Q>, epoch: u64) -> Seq<Q> {
    if s.epoch == epoch {
        s.page_quads@
    } else {
        Seq::empty()
    }
}

/// A selection is stale after any edit: at a later edit it paints nothing on
/// any page and authors nothing, while at its own edit it paints and authors
/// every box it has, on its own page.
pub proof fn law_an_edit_makes_a_selection_stale<B, Q>(s: TextSelection<B, Q>, page: usize, epoch: u64)
    ensures
        epoch != s.epoch ==> highlight_boxes(s, page, epoch).len() == 0 && mark_quads(s, epoch).len()
            == 0,
        highlight_boxes(s, s.page, s.epoch) == s.quads@,
        mark_quads(s, s.epoch) == s.page_quads@,
        page != s.page ==> highlight_boxes(s, page, epoch).len() == 0,
{
}

/// A drag selects the same text whichever way it went: from `a` to `b` or
/// from `b` to `a`.
pub proof fn law_a_drag_selects_the_same_text_both_ways(runs: Seq<String>, a: TextPosition, b: TextPosition)
    ensures
        selected_text_of(runs, a, b) == selected_text_of(runs, b, a),
{
    assert(in_order(a, b) == in_order(b, a));
}

/// Every glyph goes into the box of its own line, and two glyphs of one
/// line always share a box.
pub proof fn law_one_box_per_line(keys: Seq<usize>, i: int, j: int)
    requires
        keys.len() <= usize::MAX,
        0 <= i < keys.len(),
        0 <= j < keys.len(),
        keys[i] == keys[j],
        keys[i] != usize::MAX,
    ensures
        box_slots_of(keys)[i] == box_slots_of(keys)[j],
{
    lemma_slots(keys);
}

/// The line of each covered glyph, in the order the glyphs are covered.
pub open spec fn covered_lines(lines: Seq<Vec<(usize, usize)>>, covered: Seq<(usize, usize)>) -> Seq<usize> {
    Seq::new(covered.len(), |i: int| line_of_glyph(lines, covered[i]))
}

/// The rows a selection highlights are exactly the lines that hold a covered
/// glyph: a line gets a box if and only if one of the glyphs the selection
/// covers lies on it, and no line gets two.
pub proof fn law_boxes_are_the_lines_of_the_covered_glyphs(
    lines: Seq<Vec<(usize, usize)>>,
    covered: Seq<(usize, usize)>,
    l: usize,
)
    requires
        covered.len() <= usize::MAX,
        l != usize::MAX,
    ensures
        box_keys_of(covered_lines(lines, covered)).contains(l) <==> exists|i: int|
            0 <= i < covered.len() && line_of_glyph(lines, covered[i]) == l,
        forall|a: int, b: int|
            0 <= a < b < box_keys_of(covered_lines(lines, covered)).len() && box_keys_of(
                covered_lines(lines, covered),
            )[a] != usize::MAX ==> box_keys_of(covered_lines(lines, covered))[a] != box_keys_of(
                covered_lines(lines, covered),
            )[b],
{
    let keys = covered_lines(lines, covered);
    lemma_box_keys_hold_the_keys(keys, l);
    lemma_slots(keys);
    if keys.contains(l) {
        let i = choose|i: int| 0 <= i < keys.len() && keys[i] == l;
        assert(line_of_glyph(lines, covered[i]) == l);
    }
    if exists|i: int| 0 <= i < covered.len() && line_of_glyph(lines, covered[i]) == l {
        let i = choose|i: int| 0 <= i < covered.len() && line_of_glyph(lines, covered[i]) == l;
        assert(keys[i] == l);
    }
}

/// A key is among the boxes exactly when some glyph has it.
proof fn lemma_box_keys_hold_the_keys(keys: Seq<usize>, k: usize)
    ensures
        box_keys_of(keys).contains(k) <==> keys.contains(k),
    decreases keys.len(),
{
    if keys.len() > 0 {
        let rest = keys.drop_last();
        let last = keys.last();
        lemma_box_keys_hold_the_keys(rest, k);
        lemma_box_keys_hold_the_keys(rest, last);
        let before = box_keys_of(rest);
        assert(keys =~= rest.push(last));
        lemma_push_contains(rest, last, k);
        lemma_push_contains(before, last, k);
    }
}

/// What a sequence holds after a push.
proof fn lemma_push_contains(s: Seq<usize>, x: usize, k: usize)
    ensures
        s.push(x).contains(k) <==> (s.contains(k) || x == k),
{
    if s.contains(k) {
        let i = choose|i: int| 0 <= i < s.len() && s[i] == k;
        assert(s.push(x)[i] == k);
    }
    if x == k {
        assert(s.push(x)[s.len() as int] == k);
    }
    if s.push(x).contains(k) {
        let i = choose|i: int| 0 <= i < s.push(x).len() && s.push(x)[i] == k;
        if i < s.len() {
            assert(s[i] == k);
        }
    }
}

/// What [`box_keys_of`] and [`box_slots_of`] hold: each glyph's slot is a box
/// of its line, and the boxes of real lines are distinct.
proof fn lemma_slots(keys: Seq<usize>)
    requires
        keys.len() <= usize::MAX,
    ensures
        box_keys_of(keys).len() <= keys.len(),
        box_slots_of(keys).len() == keys.len(),
        forall|i: int|
            0 <= i < keys.len() ==> (#[trigger] box_slots_of(keys)[i]) < box_keys_of(keys).len()
                && box_keys_of(keys)[box_slots_of(keys)[i] as int] == keys[i],
        forall|a: int, b: int|
            0 <= a < b < box_keys_of(keys).len() && box_keys_of(keys)[a] != usize::MAX ==> box_keys_of(
                keys,
            )[a] != box_keys_of(keys)[b],
    decreases keys.len(),
{
    if keys.len() > 0 {
        let rest = keys.drop_last();
        lemma_slots(rest);
        let before = box_keys_of(rest);
        let k = keys.last();
        if k != usize::MAX && before.contains(k) {
            let i = choose|i: int| 0 <= i < before.len() && before[i] == k;
            assert forall|j: int| 0 <= j < i implies before[j] != k by {
                if before[j] == k {
                    assert(before[j] != before[i]);
                }
            }
            assert(exists|i2: int|
                #![trigger before[i2]]
                0 <= i2 < before.len() && before[i2] == k && forall|j: int|
                    0 <= j < i2 ==> before[j] != k);
            let c = first_index(before, k);
            assert(0 <= c < before.len() && before[c] == k);
        }
        assert forall|i: int| 0 <= i < keys.len() implies (#[trigger] box_slots_of(keys)[i])
            < box_keys_of(keys).len() && box_keys_of(keys)[box_slots_of(keys)[i] as int] == keys[i] by {
            if i < keys.len() - 1 {
                assert(box_slots_of(keys)[i] == box_slots_of(rest)[i]);
                assert(rest[i] == keys[i]);
            }
        }
        assert forall|a: int, b: int|
            0 <= a < b < box_keys_of(keys).len() && box_keys_of(keys)[a] != usize::MAX implies box_keys_of(
                keys,
            )[a] != box_keys_of(keys)[b] by {
            if b == before.len() {
                if box_keys_of(keys)[a] == box_keys_of(keys)[b] {
                    assert(before[a] == k);
                    assert(before.contains(k));
                }
            }
        }
    }
}

} // verus!
