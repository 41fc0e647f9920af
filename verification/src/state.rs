//! What the shell knows about the document it has open, as far as the
//! dialogs need it.

use vstd::prelude::*;

verus! {

/// The facts about an open document that a dialog captures or checks.
#[derive(Debug, Clone, PartialEq, Eq)]
pub struct OpenDoc {
    /// Where the document was opened from.
    pub path: String,
    /// The page the canvas is showing, counted from zero.
    pub page_index: usize,
    /// How many pages the document has.
    pub page_count: usize,
    /// How many edits have been made since it was opened or last saved; zero
    /// means the document is exactly as it was read.
    pub edit_epoch: u64,
}

/// Whether a document is open.
#[derive(Debug, Clone, PartialEq, Eq)]
pub enum Status {
    /// Nothing is loaded.
    Empty,
    /// A document is open.
    Open(Box<OpenDoc>),
}

impl Status {
    /// Whether a document is open.
    pub fn is_open(&self) -> (r: bool)
        ensures
            r == (self is Open),
    {
        match self {
            Status::Open(_) => true,
            Status::Empty => false,
        }
    }
}

} // verus!
