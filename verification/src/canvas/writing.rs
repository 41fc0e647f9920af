//! Regrouping rotated text into lines.
//!
//! Text set at an angle comes out of extraction as glyph runs broken by
//! derived line breaks. The walk below goes through the page's glyphs in
//! order and gathers those that follow one another along one direction into
//! a line; a derived break that falls inside such a line is an artefact of
//! extraction, and the line remembers it so the break can be ignored.
//!
//! Whether a glyph continues the open line, and in which direction, is a
//! question of geometry and is answered by the caller; this module keeps the
//! book: which glyphs form which line, which breaks were inside a line, and
//! that a line is only ever committed with a direction and at least two
//! glyphs.

use vstd::prelude::*;

verus! {

/// A glyph by its run and its index within the run.
#[derive(Debug, Clone, Copy, PartialEq, Eq, Structural)]
pub struct GlyphRef {
    pub run: usize,
    pub glyph: usize,
}

/// One regrouped line: its direction and its glyphs in reading order.
pub struct Line<D> {
    pub dir: D,
    pub glyphs: Vec<GlyphRef>,
}

/// The line being gathered: its direction once two glyphs have fixed it,
/// its glyphs, what the caller needs of the last glyph to judge the next,
/// and the derived breaks crossed so far.
pub struct OpenLine<D, L> {
    pub dir: Option<D>,
    pub glyphs: Vec<GlyphRef>,
    pub last: L,
    pub breaks: Vec<usize>,
}

/// The walk's state.
pub struct Walk<D, L> {
    /// The lines committed so far.
    pub lines: Vec<Line<D>>,
    /// The derived breaks found inside committed lines.
    pub breaks: Vec<usize>,
    /// The line being gathered.
    pub open: Option<OpenLine<D, L>>,
    /// A derived break seen since the last glyph, by its run.
    pub pending_break: Option<usize>,
}

/// The regrouped lines of a page.
pub struct Rotated<D> {
    /// The lines, in the order they were committed.
    pub lines: Vec<Line<D>>,
    /// The derived breaks that fell inside a line.
    pub breaks: Vec<usize>,
}

/// Every committed line has at least two glyphs.
pub open spec fn lines_are_real<D>(lines: Seq<Line<D>>) -> bool {
    forall|i: int| 0 <= i < lines.len() ==> (#[trigger] lines[i]).glyphs@.len() >= 2
}

/// Whether an open line is committed when it closes: it has a direction
/// and at least two glyphs.
pub open spec fn commits<D, L>(open: Option<OpenLine<D, L>>) -> bool {
    open matches Some(o) && o.dir is Some && o.glyphs@.len() >= 2
}

/// The lines after the open line closes.
pub open spec fn committed_lines<D, L>(lines: Seq<Line<D>>, open: Option<OpenLine<D, L>>) -> Seq<Line<D>> {
    if commits(open) {
        lines.push(Line { dir: open->0.dir->0, glyphs: open->0.glyphs })
    } else {
        lines
    }
}

/// The breaks inside lines after the open line closes.
pub open spec fn committed_breaks<D, L>(breaks: Seq<usize>, open: Option<OpenLine<D, L>>) -> Seq<usize> {
    if commits(open) {
        breaks + open->0.breaks@
    } else {
        breaks
    }
}

impl<D, L> Walk<D, L> {
    /// The walk's invariant: committed lines are real, and an open line has
    /// a glyph.
    pub open spec fn wf(&self) -> bool {
        &&& lines_are_real(self.lines@)
        &&& (self.open matches Some(o) ==> o.glyphs@.len() >= 1)
    }

    /// A walk that has seen nothing.
    pub fn new() -> (w: Self)
        ensures
            w.wf(),
            w.lines@.len() == 0,
            w.breaks@.len() == 0,
            w.open is None,
            w.pending_break is None,
    {
        Walk { lines: Vec::new(), breaks: Vec::new(), open: None, pending_break: None }
    }

    /// Commit the open line, if it has a direction and at least two glyphs;
    /// otherwise drop it. Either way no line is open afterwards.
    pub fn close(&mut self)
        requires
            old(self).wf(),
        ensures
            final(self).wf(),
            final(self).open is None,
            final(self).pending_break == old(self).pending_break,
            final(self).lines@ == committed_lines(old(self).lines@, old(self).open),
            final(self).breaks@ == committed_breaks(old(self).breaks@, old(self).open),
    {
        let taken = self.open.take();
        match taken {
            Some(o) => {
                if o.glyphs.len() < 2 {
                    return;
                }
                match o.dir {
                    Some(dir) => {
                        let ghost before = self.lines@;
                        let OpenLine { dir: _, glyphs, last: _, breaks } = o;
                        let mut more = breaks;
                        self.breaks.append(&mut more);
                        self.lines.push(Line { dir, glyphs });
                        proof {
                            assert(self.lines@.take(before.len() as int) =~= before);
                            assert forall|i: int| 0 <= i < self.lines@.len() implies (
                            #[trigger] self.lines@[i]).glyphs@.len() >= 2 by {
                                if i < before.len() {
                                    assert(self.lines@[i] == before[i]);
                                }
                            }
                        }
                    },
                    None => {},
                }
            },
            None => {},
        }
    }

    /// Take the next glyph. `last` is what the caller will need of it to judge
    /// the glyph after; `join` is the caller's verdict on whether it
    /// continues the open line, and in which direction. A glyph that does
    /// not continue the line closes it and starts a new one; a derived break
    /// seen since the last glyph is remembered only when the line goes on
    /// through it.
    pub fn push(&mut self, gref: GlyphRef, last: L, join: Option<D>)
        requires
            old(self).wf(),
        ensures
            final(self).wf(),
            final(self).pending_break is None,
            final(self).open matches Some(o) && o.glyphs@.last() == gref && o.last == last,
            old(self).open is None ==> final(self).lines@ == old(self).lines@,
            old(self).open is None ==> (final(self).open matches Some(o) && o.glyphs@ == seq![gref]
                && o.dir is None && o.breaks@.len() == 0),
            (old(self).open is Some && join is Some) ==> ({
                let o = old(self).open->0;
                &&& final(self).lines@ == old(self).lines@
                &&& final(self).breaks@ == old(self).breaks@
                &&& final(self).open matches Some(n) && n.glyphs@ == o.glyphs@.push(gref) && n.dir
                    == join && n.breaks@ == (match old(self).pending_break {
                    Some(run) => o.breaks@.push(run),
                    None => o.breaks@,
                })
            }),
            (old(self).open is Some && join is None) ==> (final(self).open matches Some(n)
                && n.glyphs@ == seq![gref] && n.dir is None && n.breaks@.len() == 0),
            (old(self).open is Some && join is None) ==> final(self).lines@ == committed_lines(
                old(self).lines@,
                old(self).open,
            ) && final(self).breaks@ == committed_breaks(old(self).breaks@, old(self).open),
            old(self).open is None ==> final(self).breaks@ == old(self).breaks@,
    {
        let pending = self.pending_break.take();
        if self.open.is_none() {
            let mut glyphs = Vec::new();
            glyphs.push(gref);
            self.open = Some(OpenLine { dir: None, glyphs, last, breaks: Vec::new() });
            return;
        }
        match join {
            None => {
                self.close();
                let mut glyphs = Vec::new();
                glyphs.push(gref);
                self.open = Some(OpenLine { dir: None, glyphs, last, breaks: Vec::new() });
            },
            Some(dir) => {
                let taken = self.open.take();
                match taken {
                    Some(o) => {
                        let OpenLine { dir: _, glyphs, last: _, breaks } = o;
                        let mut glyphs = glyphs;
                        let mut breaks = breaks;
                        if let Some(run) = pending {
                            breaks.push(run);
                        }
                        glyphs.push(gref);
                        self.open = Some(OpenLine { dir: Some(dir), glyphs, last, breaks });
                    },
                    None => {},
                }
            },
        }
    }

    /// A derived line break in run `run`: it is inside a line only if the
    /// line goes on after it.
    pub fn line_break(&mut self, run: usize)
        ensures
            final(self).pending_break == Some(run),
            final(self).lines == old(self).lines,
            final(self).breaks == old(self).breaks,
            final(self).open == old(self).open,
    {
        self.pending_break = Some(run);
    }

    /// A derived word space: whatever break was pending is not one.
    pub fn word_space(&mut self)
        ensures
            final(self).pending_break is None,
            final(self).lines == old(self).lines,
            final(self).breaks == old(self).breaks,
            final(self).open == old(self).open,
    {
        self.pending_break = None;
    }

    /// Text that is not glyphs of the page (replacement text, or anything
    /// else) ends the open line.
    pub fn interruption(&mut self)
        requires
            old(self).wf(),
        ensures
            final(self).wf(),
            final(self).open is None,
            final(self).pending_break is None,
            final(self).lines@ == committed_lines(old(self).lines@, old(self).open),
            final(self).breaks@ == committed_breaks(old(self).breaks@, old(self).open),
    {
        self.close();
        self.pending_break = None;
    }

    /// Commit what is open and hand out the lines.
    pub fn finish(self) -> (r: Rotated<D>)
        requires
            self.wf(),
        ensures
            lines_are_real(r.lines@),
            r.lines@ == committed_lines(self.lines@, self.open),
            r.breaks@ == committed_breaks(self.breaks@, self.open),
    {
        let mut walk = self;
        walk.close();
        Rotated { lines: walk.lines, breaks: walk.breaks }
    }
}

/// Whether `line` lists `gref`.
fn line_lists<D>(line: &Line<D>, gref: GlyphRef) -> (r: bool)
    ensures
        r == line.glyphs@.contains(gref),
{
    let mut i: usize = 0;
    while i < line.glyphs.len()
        invariant
            0 <= i <= line.glyphs@.len(),
            forall|j: int| 0 <= j < i ==> line.glyphs@[j] != gref,
        decreases line.glyphs@.len() - i,
    {
        if line.glyphs[i].run == gref.run && line.glyphs[i].glyph == gref.glyph {
            return true;
        }
        i += 1;
    }
    false
}

impl<D> Rotated<D> {
    /// Regrouping found nothing.
    pub fn is_empty(&self) -> (r: bool)
        ensures
            r == (self.lines@.len() == 0),
    {
        self.lines.len() == 0
    }

    /// The line a glyph was gathered into, if any: the last that lists it.
    pub fn line_of(&self, gref: GlyphRef) -> (r: Option<usize>)
        ensures
            match r {
                Some(l) => l < self.lines@.len() && self.lines@[l as int].glyphs@.contains(gref)
                    && forall|m: int| l < m < self.lines@.len() ==> !self.lines@[m].glyphs@.contains(gref),
                None => forall|m: int|
                    0 <= m < self.lines@.len() ==> !self.lines@[m].glyphs@.contains(gref),
            },
    {
        let mut l: usize = self.lines.len();
        while l > 0
            invariant
                0 <= l <= self.lines@.len(),
                forall|m: int| l <= m < self.lines@.len() ==> !self.lines@[m].glyphs@.contains(gref),
            decreases l,
        {
            if line_lists(&self.lines[l - 1], gref) {
                return Some(l - 1);
            }
            l -= 1;
        }
        None
    }

    /// Whether the derived break in run `run` fell inside a regrouped line,
    /// and so is an artefact of extraction rather than a real line end.
    pub fn is_artefact(&self, run: usize) -> (r: bool)
        ensures
            r == self.breaks@.contains(run),
    {
        let mut i: usize = 0;
        while i < self.breaks.len()
            invariant
                0 <= i <= self.breaks@.len(),
                forall|j: int| 0 <= j < i ==> self.breaks@[j] != run,
            decreases self.breaks@.len() - i,
        {
            if self.breaks[i] == run {
                return true;
            }
            i += 1;
        }
        false
    }
}

/// A single glyph is never a line: whatever is committed has at least two.
pub proof fn law_a_line_has_at_least_two_glyphs<D>(r: Seq<Line<D>>, i: int)
    requires
        lines_are_real(r),
        0 <= i < r.len(),
    ensures
        r[i].glyphs@.len() >= 2,
{
}

} // verus!
