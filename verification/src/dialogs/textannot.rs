//! The words half of a text-bearing annotation: the box has been placed on
//! the page, and this dialog collects what it says.

use vstd::prelude::*;

use crate::strings::{str_trim, str_trimmed};

verus! {

/// Which kind of text annotation was placed.
#[derive(Debug, Clone, Copy, PartialEq, Eq, Structural)]
pub enum TextAnnotKind {
    /// A box of text drawn on the page.
    TextBox,
    /// A note shown as an icon.
    Sticky,
    /// A stamp picked from a gallery.
    Stamp,
}

impl TextAnnotKind {
    /// Whether the kind is chosen from a gallery rather than typed.
    pub fn uses_gallery(&self) -> (r: bool)
        ensures
            r == (*self == TextAnnotKind::Stamp),
    {
        match self {
            TextAnnotKind::Stamp => true,
            _ => false,
        }
    }
}

/// A rectangle in page space, each coordinate held as the bit pattern of the
/// `f64` the placing gesture produced: left, bottom, right, top.
#[derive(Debug, Clone, Copy, PartialEq, Eq, Structural)]
pub struct RectBits {
    pub llx: u64,
    pub lly: u64,
    pub urx: u64,
    pub ury: u64,
}

/// The text-annotation dialog.
pub struct TextAnnotDialog {
    /// The page the annotation goes on, captured when it was placed.
    pub page: usize,
    /// What kind of annotation it is.
    pub kind: TextAnnotKind,
    /// Where it was placed.
    pub rect: RectBits,
    /// What has been typed.
    pub text: String,
    /// The stamp selected in the gallery, as its place in the gallery the
    /// shell draws. Meaningless for the other kinds and carried anyway, so
    /// that a commit always names one.
    pub stamp: usize,
    /// Set by the accept button; the annotation is committed after the frame.
    pub accept_requested: bool,
    /// Set by the cancel button.
    pub close_requested: bool,
}

/// What accepting the dialog commits.
pub struct TextAnnotCommit {
    pub page: usize,
    pub kind: TextAnnotKind,
    pub rect: RectBits,
    pub text: String,
    pub stamp: usize,
}

impl TextAnnotDialog {
    /// The dialog for an annotation just placed: nothing typed, nothing
    /// requested, and `stamp`, the gallery's default, selected.
    pub fn open(page: usize, kind: TextAnnotKind, rect: RectBits, stamp: usize) -> (d: TextAnnotDialog)
        ensures
            d.page == page,
            d.kind == kind,
            d.rect == rect,
            d.stamp == stamp,
            d.text@.len() == 0,
            !d.accept_requested,
            !d.close_requested,
    {
        TextAnnotDialog {
            page,
            kind,
            rect,
            text: String::new(),
            stamp,
            accept_requested: false,
            close_requested: false,
        }
    }

    /// Whether the annotation can be accepted: a stamp always can; any other
    /// kind needs words that are not all white space.
    pub fn ready(&self) -> (r: bool)
        ensures
            r == (self.kind == TextAnnotKind::Stamp || str_trimmed(self.text@).len() > 0),
    {
        if self.kind.uses_gallery() {
            return true;
        }
        let t = str_trim(self.text.as_str());
        !t.is_empty()
    }

    /// Hand out the commit when accept was pressed, taking the typed words
    /// with it; nothing otherwise.
    pub fn take_commit(&mut self) -> (r: Option<TextAnnotCommit>)
        ensures
            old(self).accept_requested ==> (r matches Some(c) && c.page == old(self).page && c.kind
                == old(self).kind && c.rect == old(self).rect && c.text@ == old(self).text@
                && c.stamp == old(self).stamp && !final(self).accept_requested && final(self).text@.len() == 0),
            !old(self).accept_requested ==> r is None && final(self).text == old(self).text
                && !final(self).accept_requested,
            final(self).page == old(self).page,
            final(self).kind == old(self).kind,
            final(self).rect == old(self).rect,
            final(self).stamp == old(self).stamp,
            final(self).close_requested == old(self).close_requested,
    {
        if !self.accept_requested {
            return None;
        }
        self.accept_requested = false;
        let mut text = String::new();
        std::mem::swap(&mut text, &mut self.text);
        Some(TextAnnotCommit { page: self.page, kind: self.kind, rect: self.rect, text, stamp: self.stamp })
    }

    /// Whether the window stays up after a frame in which nothing was
    /// committed: while its window is open and cancel was not pressed.
    pub fn stays_open(&self, window_open: bool) -> (r: bool)
        ensures
            r == (window_open && !self.close_requested),
    {
        window_open && !self.close_requested
    }
}

} // verus!
