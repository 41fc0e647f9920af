//! The state the remaining dialogs keep between frames.
//!
//! About and the render report hold no configuration at all: their state is
//! that they are open. The others hold what they were opened with, which is
//! what a second press of their command must not throw away.

use vstd::prelude::*;

use super::dimension_groups::GroupId;
use crate::state::Status;

verus! {

/// The About dialog.
#[derive(Debug, PartialEq, Eq, Structural)]
pub struct AboutDialog {}

/// The render-diagnostics report on the page on the canvas.
#[derive(Debug, PartialEq, Eq, Structural)]
pub struct DiagnosticsDialog {}

/// The sized-New dialog.
#[derive(Debug, PartialEq, Eq, Structural)]
pub struct NewDocumentDialog {}

impl AboutDialog {
    pub fn open() -> (d: AboutDialog)
        ensures
            d == (AboutDialog {}),
    {
        AboutDialog {}
    }
}

impl DiagnosticsDialog {
    pub fn open() -> (d: DiagnosticsDialog)
        ensures
            d == (DiagnosticsDialog {}),
    {
        DiagnosticsDialog {}
    }
}

impl NewDocumentDialog {
    pub fn open() -> (d: NewDocumentDialog)
        ensures
            d == (NewDocumentDialog {}),
    {
        NewDocumentDialog {}
    }
}

/// The Apply-redactions transaction, about the document it was opened on.
pub struct RedactDialog {
    /// The path of the document whose marks are being applied.
    pub source: String,
}

/// Open the redaction dialog for the document in `status`; with nothing open
/// there is nothing to redact and no dialog.
pub fn open_redact_for(status: &Status) -> (r: Option<RedactDialog>)
    ensures
        match status {
            Status::Empty => r is None,
            Status::Open(doc) => r matches Some(d) && d.source@ == doc.path@,
        },
{
    match status {
        Status::Open(doc) => Some(RedactDialog { source: doc.path.clone() }),
        Status::Empty => None,
    }
}

/// The Set-scale dialog for one dimension group.
#[derive(Debug, PartialEq, Eq, Structural)]
pub struct ScaleDialog {
    /// The group whose scale is being set.
    pub group: GroupId,
    /// A reference length measured on the drawing, in PDF units, held as the
    /// bit pattern of its `f64`; `None` until a two-point pick is made.
    pub drawn_length_bits: Option<u64>,
    /// Set when the operator asks to measure on the drawing.
    pub calibrate_requested: bool,
}

impl ScaleDialog {
    /// The dialog for `group`, with nothing measured.
    pub fn open(group: GroupId) -> (d: ScaleDialog)
        ensures
            d == (ScaleDialog { group, drawn_length_bits: None, calibrate_requested: false }),
    {
        ScaleDialog { group, drawn_length_bits: None, calibrate_requested: false }
    }

    /// The dialog for `group` with a reference line already measured.
    pub fn calibrated(group: GroupId, drawn_length_bits: u64) -> (d: ScaleDialog)
        ensures
            d == (ScaleDialog {
                group,
                drawn_length_bits: Some(drawn_length_bits),
                calibrate_requested: false,
            }),
    {
        ScaleDialog { group, drawn_length_bits: Some(drawn_length_bits), calibrate_requested: false }
    }

    /// Whether a two-point pick was asked for, clearing the request.
    pub fn take_calibrate_request(&mut self) -> (r: bool)
        ensures
            r == old(self).calibrate_requested,
            *final(self) == (ScaleDialog { calibrate_requested: false, ..*old(self) }),
    {
        let r = self.calibrate_requested;
        self.calibrate_requested = false;
        r
    }
}

/// The insert-pages dialog for a file whose pages were counted.
pub struct InsertPagesDialog {
    /// The file the pages come from.
    pub path: String,
    /// How many pages it has.
    pub page_count: usize,
    /// The page of the open document the insertion is placed relative to.
    pub current_page: usize,
}

impl InsertPagesDialog {
    pub fn open(path: String, page_count: usize, current_page: usize) -> (d: InsertPagesDialog)
        ensures
            d.path == path,
            d.page_count == page_count,
            d.current_page == current_page,
    {
        InsertPagesDialog { path, page_count, current_page }
    }
}

/// The insert-image dialog for a picture already imported.
pub struct InsertImageDialog {
    /// The picture's file name, as shown to the operator.
    pub name: String,
}

/// Open the insert-image dialog for the document in `status`; with nothing
/// open there is no page to place on and no dialog.
pub fn open_insert_image_for(status: &Status, name: String) -> (r: Option<InsertImageDialog>)
    ensures
        match status {
            Status::Empty => r is None,
            Status::Open(_) => r matches Some(d) && d.name == name,
        },
{
    match status {
        Status::Open(_) => Some(InsertImageDialog { name }),
        Status::Empty => None,
    }
}

/// Whether a dialog's default button answers this frame: it was clicked, or
/// Enter was pressed while no text field holds the keyboard. A field that
/// holds it keeps Enter for its own newline, so a half-written answer is
/// never committed by typing.
pub fn default_button_answers(clicked: bool, enter: bool, text_edit_focused: bool) -> (r: bool)
    ensures
        r == (clicked || (enter && !text_edit_focused)),
{
    clicked || (enter && !text_edit_focused)
}

/// Whether a dialog window is dismissed this frame: Escape while no text
/// field holds the keyboard, or the window itself asked to close.
pub fn dismissed(escape: bool, text_edit_focused: bool, close_requested: bool) -> (r: bool)
    ensures
        r == ((escape && !text_edit_focused) || close_requested),
{
    (escape && !text_edit_focused) || close_requested
}

} // verus!
