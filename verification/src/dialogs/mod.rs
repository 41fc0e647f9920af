//! The shell's dialogs, and which of them are open.
//!
//! A dialog is one transaction with a start and an end: opened deliberately,
//! holding one job's answers, and forgetting them when it closes. Each field
//! of [`DialogsState`] is an `Option` whose `Some` *is* the open state, so
//! there is no visibility flag that could disagree with the state existing.
//!
//! Two rules hold at the one place each dialog is built:
//!
//! - **No document, no dialog**, for every dialog about the open document.
//!   A keyboard chord reaches a command without the ribbon's guard, and a
//!   window built over an empty canvas would be closed again on its next
//!   frame.
//! - **Already open means leave it alone.** A second press must not rebuild
//!   the window from defaults and discard what the operator has typed. The
//!   two deliberate exceptions replace an open dialog: a Set-scale dialog
//!   opened with a fresh measurement, and a text-annotation dialog for a box
//!   just placed somewhere else.
//!
//! The dialogs about the document close when it closes; About and the
//! sized-New dialog are about the application and survive an empty canvas.

use vstd::prelude::*;

pub mod dimension_groups;
pub mod ocr;
pub mod print;
pub mod textannot;
pub mod unsaved;
pub mod windows;

use crate::state::Status;
use dimension_groups::{DimensionGroupsDialog, GroupId};
use ocr::OcrDialog;
use print::{print_just_opened, PrintDialog};
use textannot::{RectBits, TextAnnotDialog, TextAnnotKind};
use windows::{
    AboutDialog, DiagnosticsDialog, InsertImageDialog, InsertPagesDialog, NewDocumentDialog,
    RedactDialog, ScaleDialog,
};

verus! {

/// Every dialog this build has, and whether each is open.
pub struct DialogsState {
    // About the open document: closed when it closes.
    /// The print dialog.
    pub print: Option<PrintDialog>,
    /// The Recognise-text dialog.
    pub ocr: Option<OcrDialog>,
    /// The render-diagnostics report.
    pub diagnostics: Option<DiagnosticsDialog>,
    /// The Set-scale dialog.
    pub scale: Option<ScaleDialog>,
    /// The text-annotation dialog for a box just placed.
    pub text_annot: Option<TextAnnotDialog>,
    /// The Apply-redactions dialog.
    pub redact: Option<RedactDialog>,
    // About the application: survive an empty canvas.
    /// The About dialog.
    pub about: Option<AboutDialog>,
    /// The sized-New dialog.
    pub new_document: Option<NewDocumentDialog>,
    // About the open document again.
    /// The insert-pages dialog.
    pub insert_pages: Option<InsertPagesDialog>,
    /// The insert-image dialog.
    pub insert_image: Option<InsertImageDialog>,
    /// The Manage-dimension-groups window.
    pub dimension_groups: Option<DimensionGroupsDialog>,
}

/// No dialog is open.
pub open spec fn nothing_open(s: DialogsState) -> bool {
    &&& s.print is None
    &&& s.ocr is None
    &&& s.diagnostics is None
    &&& s.scale is None
    &&& s.text_annot is None
    &&& s.redact is None
    &&& s.about is None
    &&& s.new_document is None
    &&& s.insert_pages is None
    &&& s.insert_image is None
    &&& s.dimension_groups is None
}

/// The state after the document closes: the dialogs about it are dropped,
/// and everything else is left as it was.
pub open spec fn without_document_dialogs(s: DialogsState) -> DialogsState {
    DialogsState {
        print: None,
        ocr: None,
        diagnostics: None,
        redact: None,
        scale: None,
        dimension_groups: None,
        insert_image: None,
        insert_pages: None,
        text_annot: None,
        ..s
    }
}

/// A dialog kept when its window answered that it stays open.
pub open spec fn kept<T>(dialog: Option<T>, stays_open: bool) -> Option<T> {
    if stays_open {
        dialog
    } else {
        None
    }
}

/// What `open_print` does: nothing without a document or with the dialog
/// already open; otherwise it opens a fresh print dialog and touches nothing
/// else.
pub open spec fn print_opened(before: DialogsState, status: Status, after: DialogsState) -> bool {
    if status is Empty || before.print is Some {
        after == before
    } else {
        &&& after.print matches Some(d) && print_just_opened(d)
        &&& after == (DialogsState { print: after.print, ..before })
    }
}

/// What `open_about` does: opens it unless it is open, whatever is loaded.
pub open spec fn about_opened(before: DialogsState, after: DialogsState) -> bool {
    if before.about is Some {
        after == before
    } else {
        after == (DialogsState { about: Some(AboutDialog {}), ..before })
    }
}

/// What the frame's settling does to the dialogs about the document: each
/// one whose window answered that it closes is dropped.
pub open spec fn document_dialogs_kept(before: DialogsState, answers: DocumentAnswers) -> DialogsState {
    DialogsState {
        print: kept(before.print, answers.print),
        ocr: kept(before.ocr, answers.ocr),
        diagnostics: kept(before.diagnostics, answers.diagnostics),
        redact: kept(before.redact, answers.redact),
        insert_pages: kept(before.insert_pages, answers.insert_pages),
        insert_image: kept(before.insert_image, answers.insert_image),
        dimension_groups: kept(before.dimension_groups, answers.dimension_groups),
        ..before
    }
}

/// What settling the dialogs about the document does, given what each
/// window answered: `before` the dialogs, `after` them, `handed` the group
/// handed to the Set-scale dialog.
pub open spec fn document_settled(
    before: DialogsState,
    status: Status,
    answers: DocumentAnswers,
    after: DialogsState,
    handed: Option<GroupId>,
) -> bool {
    &&& status is Empty ==> handed is None && after == without_document_dialogs(before)
    &&& status is Open ==> ({
        let k = document_dialogs_kept(before, answers);
        &&& handed == (match k.dimension_groups {
            Some(d) => d.scale_requested,
            None => None,
        })
        &&& after.dimension_groups == (match k.dimension_groups {
            Some(d) => Some(DimensionGroupsDialog { scale_requested: None, ..d }),
            None => None,
        })
        &&& after.scale == (match handed {
            Some(g) => if k.scale is None {
                Some(ScaleDialog { group: g, drawn_length_bits: None, calibrate_requested: false })
            } else {
                k.scale
            },
            None => k.scale,
        })
        &&& after == (DialogsState {
            dimension_groups: after.dimension_groups,
            scale: after.scale,
            ..k
        })
    })
}

/// What settling About and the sized-New dialog does.
pub open spec fn application_settled(
    before: DialogsState,
    about_open: bool,
    new_document_open: bool,
    after: DialogsState,
) -> bool {
    after == (DialogsState {
        about: kept(before.about, about_open),
        new_document: kept(before.new_document, new_document_open),
        ..before
    })
}

/// What settling the Set-scale and text-annotation dialogs does.
pub open spec fn late_settled(
    before: DialogsState,
    scale_open: bool,
    text_annot_open: bool,
    after: DialogsState,
) -> bool {
    after == (DialogsState {
        scale: kept(before.scale, scale_open),
        text_annot: kept(before.text_annot, text_annot_open),
        ..before
    })
}

/// What each dialog about the document answered when it was drawn this
/// frame: `true` for one that stays open. The answer of a dialog that is not
/// open is not read.
#[derive(Debug, Clone, Copy, PartialEq, Eq, Structural)]
pub struct DocumentAnswers {
    pub print: bool,
    pub ocr: bool,
    pub diagnostics: bool,
    pub redact: bool,
    pub insert_pages: bool,
    pub insert_image: bool,
    pub dimension_groups: bool,
}

impl DialogsState {
    /// No dialog open.
    pub fn new() -> (s: DialogsState)
        ensures
            nothing_open(s),
    {
        DialogsState {
            print: None,
            ocr: None,
            diagnostics: None,
            scale: None,
            text_annot: None,
            redact: None,
            about: None,
            new_document: None,
            insert_pages: None,
            insert_image: None,
            dimension_groups: None,
        }
    }

    /// Open the print dialog for the document in `status`.
    ///
    /// With no document nothing happens, so a chord on an empty canvas does
    /// not ask the spooler for printers; with the dialog already open nothing
    /// happens, so a second press does not reset the job being configured.
    pub fn open_print(&mut self, status: &Status)
        ensures
            print_opened(*old(self), *status, *final(self)),
    {
        let doc = match status {
            Status::Open(doc) => doc,
            Status::Empty => {
                return;
            },
        };
        if self.print.is_some() {
            return;
        }
        self.print = Some(PrintDialog::open(doc));
    }

    /// Open the Recognise-text dialog for the document in `status`, on the
    /// page it is showing; the same two guards as [`Self::open_print`].
    pub fn open_ocr(&mut self, status: &Status)
        ensures
            (*status is Empty || old(self).ocr is Some) ==> *final(self) == *old(self),
            match status {
                Status::Open(doc) => old(self).ocr is None ==> (final(self).ocr matches Some(d)
                    && d.page_index == doc.page_index && d.source@ == doc.path@ && d.phase
                    == ocr::Phase::Ready && !d.close_requested && !d.save_requested),
                Status::Empty => true,
            },
            *final(self) == (DialogsState { ocr: final(self).ocr, ..*old(self) }),
    {
        if self.ocr.is_some() {
            return;
        }
        self.ocr = ocr::open_for(status);
    }

    /// Open the Apply-redactions dialog for the document in `status`; the
    /// same two guards, which matter most here because opening it runs the
    /// removal and a rebuild would discard the operator's acknowledgements.
    pub fn open_redact(&mut self, status: &Status)
        ensures
            (*status is Empty || old(self).redact is Some) ==> *final(self) == *old(self),
            match status {
                Status::Open(doc) => old(self).redact is None ==> (final(self).redact matches Some(d)
                    && d.source@ == doc.path@),
                Status::Empty => true,
            },
            *final(self) == (DialogsState { redact: final(self).redact, ..*old(self) }),
    {
        if self.redact.is_some() {
            return;
        }
        self.redact = windows::open_redact_for(status);
    }

    /// Open the Set-scale dialog on `group`: not without a document, and not
    /// over an open one, whose half-typed ratio must survive.
    pub fn open_scale(&mut self, status: &Status, group: GroupId)
        ensures
            (*status is Empty || old(self).scale is Some) ==> *final(self) == *old(self),
            (*status is Open && old(self).scale is None) ==> *final(self) == (DialogsState {
                scale: Some(ScaleDialog { group, drawn_length_bits: None, calibrate_requested: false }),
                ..*old(self)
            }),
    {
        if !status.is_open() {
            return;
        }
        if self.scale.is_some() {
            return;
        }
        self.scale = Some(ScaleDialog::open(group));
    }

    /// Open the Set-scale dialog with a reference line just measured. It
    /// replaces an open one: the operator asked to measure, the dialog
    /// stepped aside, and they have now finished.
    pub fn open_scale_calibrated(&mut self, status: &Status, group: GroupId, drawn_length_bits: u64)
        ensures
            *status is Empty ==> *final(self) == *old(self),
            *status is Open ==> *final(self) == (DialogsState {
                scale: Some(
                    ScaleDialog {
                        group,
                        drawn_length_bits: Some(drawn_length_bits),
                        calibrate_requested: false,
                    },
                ),
                ..*old(self)
            }),
    {
        if !status.is_open() {
            return;
        }
        self.scale = Some(ScaleDialog::calibrated(group, drawn_length_bits));
    }

    /// Whether the open Set-scale dialog asks to start the two-point pick,
    /// clearing the request so it is answered once.
    pub fn take_scale_calibrate_request(&mut self) -> (r: bool)
        ensures
            r == (old(self).scale matches Some(d) && d.calibrate_requested),
            final(self).scale == (match old(self).scale {
                Some(d) => Some(ScaleDialog { calibrate_requested: false, ..d }),
                None => None,
            }),
            *final(self) == (DialogsState { scale: final(self).scale, ..*old(self) }),
    {
        match &mut self.scale {
            Some(d) => d.take_calibrate_request(),
            None => false,
        }
    }

    /// Close the Set-scale dialog, whatever state it is in: the operator is
    /// about to click on the page. Every other dialog stays as it is.
    pub fn close_scale(&mut self)
        ensures
            *final(self) == (DialogsState { scale: None, ..*old(self) }),
    {
        self.scale = None;
    }

    /// Open the text-annotation dialog for an annotation just placed. It
    /// replaces an open one: placing again means annotating somewhere else.
    /// `stamp` is the stamp gallery's default.
    pub fn open_text_annot(
        &mut self,
        status: &Status,
        page: usize,
        kind: TextAnnotKind,
        rect: RectBits,
        stamp: usize,
    )
        ensures
            *status is Empty ==> *final(self) == *old(self),
            *status is Open ==> (final(self).text_annot matches Some(d) && d.page == page && d.kind
                == kind && d.rect == rect && d.stamp == stamp && d.text@.len() == 0 && !d.accept_requested
                && !d.close_requested),
            *final(self) == (DialogsState { text_annot: final(self).text_annot, ..*old(self) }),
    {
        if !status.is_open() {
            return;
        }
        self.text_annot = Some(TextAnnotDialog::open(page, kind, rect, stamp));
    }

    /// Open the render-diagnostics report; the same two guards as print.
    pub fn open_diagnostics(&mut self, status: &Status)
        ensures
            (*status is Empty || old(self).diagnostics is Some) ==> *final(self) == *old(self),
            (*status is Open && old(self).diagnostics is None) ==> *final(self) == (DialogsState {
                diagnostics: Some(DiagnosticsDialog {}),
                ..*old(self)
            }),
    {
        if !status.is_open() {
            return;
        }
        if self.diagnostics.is_some() {
            return;
        }
        self.diagnostics = Some(DiagnosticsDialog::open());
    }

    /// Open the About dialog. It needs no document: it describes the
    /// application, which is always there. An open one is left alone.
    pub fn open_about(&mut self)
        ensures
            about_opened(*old(self), *final(self)),
    {
        if self.about.is_some() {
            return;
        }
        self.about = Some(AboutDialog::open());
    }

    /// Open the sized-New dialog. It needs no document: it is how an empty
    /// shell gets one. An open one is left alone, with its typed size.
    pub fn open_new_document(&mut self)
        ensures
            old(self).new_document is Some ==> *final(self) == *old(self),
            old(self).new_document is None ==> *final(self) == (DialogsState {
                new_document: Some(NewDocumentDialog {}),
                ..*old(self)
            }),
    {
        if self.new_document.is_some() {
            return;
        }
        self.new_document = Some(NewDocumentDialog::open());
    }

    /// Open the insert-pages dialog for a picked file of `page_count` pages.
    /// A file with no pages (or one that would not open) gets no dialog: there
    /// is nothing to ask about. An open dialog is left alone.
    pub fn open_insert_pages(&mut self, path: String, page_count: usize, current_page: usize)
        ensures
            (old(self).insert_pages is Some || page_count == 0) ==> *final(self) == *old(self),
            (old(self).insert_pages is None && page_count > 0) ==> (final(self).insert_pages matches Some(
                d,
            ) && d.path == path && d.page_count == page_count && d.current_page == current_page),
            *final(self) == (DialogsState { insert_pages: final(self).insert_pages, ..*old(self) }),
    {
        if self.insert_pages.is_some() {
            return;
        }
        if page_count == 0 {
            return;
        }
        self.insert_pages = Some(InsertPagesDialog::open(path, page_count, current_page));
    }

    /// Open the insert-image dialog for an imported picture; the same two
    /// guards, so a second press does not swap the picture being placed.
    pub fn open_insert_image(&mut self, status: &Status, name: String)
        ensures
            (*status is Empty || old(self).insert_image is Some) ==> *final(self) == *old(self),
            (*status is Open && old(self).insert_image is None) ==> (final(self).insert_image matches Some(
                d,
            ) && d.name == name),
            *final(self) == (DialogsState { insert_image: final(self).insert_image, ..*old(self) }),
    {
        if self.insert_image.is_some() {
            return;
        }
        self.insert_image = windows::open_insert_image_for(status, name);
    }

    /// Open the Manage-dimension-groups window on the group the measure tool
    /// draws into; the same two guards.
    pub fn open_dimension_groups(&mut self, status: &Status, active: GroupId)
        ensures
            (*status is Empty || old(self).dimension_groups is Some) ==> *final(self) == *old(self),
            (*status is Open && old(self).dimension_groups is None) ==> (final(self).dimension_groups matches Some(
                d,
            ) && d.selected == active && d.new_name@.len() == 0 && d.new_unit == dimension_groups::Unit::Millimeter && d.scale_requested is None
                && !d.close_requested),
            *final(self) == (DialogsState { dimension_groups: final(self).dimension_groups, ..*old(self) }),
    {
        if self.dimension_groups.is_some() {
            return;
        }
        self.dimension_groups = dimension_groups::open_for(status, active);
    }

    /// Drop every dialog about the open document, in one place so that none
    /// is forgotten by a close path. About and the sized-New dialog stay.
    pub fn close_document_scoped(&mut self)
        ensures
            *final(self) == without_document_dialogs(*old(self)),
    {
        self.print = None;
        self.ocr = None;
        self.diagnostics = None;
        self.redact = None;
        self.scale = None;
        self.dimension_groups = None;
        self.insert_image = None;
        self.insert_pages = None;
        self.text_annot = None;
    }

    /// After About and the sized-New dialog are drawn: drop the ones whose
    /// window closed. They are settled before anything looks at the document,
    /// so an empty canvas cannot skip them.
    pub fn settle_application(&mut self, about_open: bool, new_document_open: bool)
        ensures
            *final(self) == (DialogsState {
                about: kept(old(self).about, about_open),
                new_document: kept(old(self).new_document, new_document_open),
                ..*old(self)
            }),
            application_settled(*old(self), about_open, new_document_open, *final(self)),
    {
        if !about_open {
            self.about = None;
        }
        if !new_document_open {
            self.new_document = None;
        }
    }

    /// After the dialogs about the document are drawn: with no document they
    /// all close; otherwise each one whose window closed is dropped, and a
    /// *Set scale…* press in the dimension-groups window is handed to
    /// [`Self::open_scale`]. Returns the group handed over, if any.
    pub fn settle_document(&mut self, status: &Status, answers: DocumentAnswers) -> (handed_over:
        Option<GroupId>)
        ensures
            *status is Empty ==> handed_over is None && *final(self) == without_document_dialogs(
                *old(self),
            ),
            *status is Open ==> ({
                let k = document_dialogs_kept(*old(self), answers);
                &&& handed_over == (match k.dimension_groups {
                    Some(d) => d.scale_requested,
                    None => None,
                })
                &&& final(self).dimension_groups == (match k.dimension_groups {
                    Some(d) => Some(DimensionGroupsDialog { scale_requested: None, ..d }),
                    None => None,
                })
                &&& final(self).scale == (match handed_over {
                    Some(g) => if k.scale is None {
                        Some(ScaleDialog { group: g, drawn_length_bits: None, calibrate_requested: false })
                    } else {
                        k.scale
                    },
                    None => k.scale,
                })
                &&& *final(self) == (DialogsState {
                    dimension_groups: final(self).dimension_groups,
                    scale: final(self).scale,
                    ..k
                })
            }),
            document_settled(*old(self), *status, answers, *final(self), handed_over),
    {
        if !status.is_open() {
            self.close_document_scoped();
            return None;
        }
        if !answers.print {
            self.print = None;
        }
        if !answers.ocr {
            self.ocr = None;
        }
        if !answers.diagnostics {
            self.diagnostics = None;
        }
        if !answers.redact {
            self.redact = None;
        }
        if !answers.insert_pages {
            self.insert_pages = None;
        }
        if !answers.insert_image {
            self.insert_image = None;
        }
        if !answers.dimension_groups {
            self.dimension_groups = None;
        }
        let handed_over = match &mut self.dimension_groups {
            Some(d) => d.take_scale_request(),
            None => None,
        };
        if let Some(group) = handed_over {
            self.open_scale(status, group);
        }
        handed_over
    }

    /// After the Set-scale and text-annotation dialogs are drawn: drop the
    /// ones whose window closed.
    pub fn settle_late(&mut self, scale_open: bool, text_annot_open: bool)
        ensures
            *final(self) == (DialogsState {
                scale: kept(old(self).scale, scale_open),
                text_annot: kept(old(self).text_annot, text_annot_open),
                ..*old(self)
            }),
            late_settled(*old(self), scale_open, text_annot_open, *final(self)),
    {
        if !scale_open {
            self.scale = None;
        }
        if !text_annot_open {
            self.text_annot = None;
        }
    }
}

impl Default for DialogsState {
    fn default() -> (s: DialogsState)
        ensures
            nothing_open(s),
    {
        DialogsState::new()
    }
}

/// With no document open, opening the print dialog opens nothing.
pub proof fn law_no_document_means_no_print_dialog(before: DialogsState, after: DialogsState)
    requires
        before.print is None,
        print_opened(before, Status::Empty, after),
    ensures
        after.print is None,
{
}

/// Opening the print dialog a second time leaves the first one alone: the
/// state after two presses is the state after one.
pub proof fn law_opening_print_twice_is_opening_it_once(
    start: DialogsState,
    status: Status,
    once: DialogsState,
    twice: DialogsState,
)
    requires
        print_opened(start, status, once),
        print_opened(once, status, twice),
    ensures
        twice == once,
{
}

/// Opening About a second time leaves the first one alone.
pub proof fn law_opening_about_twice_is_opening_it_once(
    start: DialogsState,
    once: DialogsState,
    twice: DialogsState,
)
    requires
        about_opened(start, once),
        about_opened(once, twice),
    ensures
        twice == once,
        once.about is Some,
{
}

/// Closing the document closes every dialog about it and leaves About and
/// the sized-New dialog exactly as they were; closing twice is closing once.
pub proof fn law_a_closed_document_keeps_only_application_dialogs(s: DialogsState)
    ensures
        ({
            let t = without_document_dialogs(s);
            &&& t.print is None && t.ocr is None && t.diagnostics is None && t.redact is None
            &&& t.scale is None && t.dimension_groups is None && t.insert_image is None
            &&& t.insert_pages is None && t.text_annot is None
            &&& t.about == s.about && t.new_document == s.new_document
            &&& without_document_dialogs(t) == t
        }),
{
}

/// About opens with nothing loaded and survives the document closing.
pub proof fn law_about_survives_a_closed_document(start: DialogsState, opened: DialogsState)
    requires
        about_opened(start, opened),
    ensures
        without_document_dialogs(opened).about is Some,
{
}

/// A document dialog whose window answered that it closes is dropped, and
/// one that answered that it stays is kept as it was, while a document is
/// open; with none open, every document dialog is dropped.
pub proof fn law_a_closed_window_is_dropped(
    before: DialogsState,
    status: Status,
    answers: DocumentAnswers,
    after: DialogsState,
    handed: Option<GroupId>,
)
    requires
        document_settled(before, status, answers, after, handed),
    ensures
        status is Open ==> {
            &&& !answers.print ==> after.print is None
            &&& !answers.ocr ==> after.ocr is None
            &&& !answers.diagnostics ==> after.diagnostics is None
            &&& !answers.redact ==> after.redact is None
            &&& !answers.insert_pages ==> after.insert_pages is None
            &&& !answers.insert_image ==> after.insert_image is None
            &&& !answers.dimension_groups ==> after.dimension_groups is None
            &&& answers.print ==> after.print == before.print
            &&& answers.ocr ==> after.ocr == before.ocr
            &&& answers.diagnostics ==> after.diagnostics == before.diagnostics
            &&& answers.redact ==> after.redact == before.redact
            &&& answers.insert_pages ==> after.insert_pages == before.insert_pages
            &&& answers.insert_image ==> after.insert_image == before.insert_image
            &&& answers.dimension_groups ==> (after.dimension_groups is Some
                <==> before.dimension_groups is Some)
            &&& after.about == before.about && after.new_document == before.new_document
            &&& after.text_annot == before.text_annot
            &&& handed is None ==> after.scale == before.scale
        },
        status is Empty ==> {
            &&& handed is None
            &&& after.print is None && after.ocr is None && after.diagnostics is None
            &&& after.redact is None && after.insert_pages is None && after.insert_image is None
            &&& after.dimension_groups is None && after.scale is None && after.text_annot is None
            &&& after.about == before.about && after.new_document == before.new_document
        },
{
}

/// Settling About, the sized-New, the Set-scale and the text-annotation
/// dialogs drops exactly the ones whose window answered that it closes, and
/// touches no other dialog.
pub proof fn law_settling_drops_exactly_the_closed_windows(
    before: DialogsState,
    a: bool,
    b: bool,
    after_application: DialogsState,
    after_late: DialogsState,
)
    requires
        application_settled(before, a, b, after_application),
        late_settled(before, a, b, after_late),
    ensures
        !a ==> after_application.about is None,
        a ==> after_application.about == before.about,
        !b ==> after_application.new_document is None,
        b ==> after_application.new_document == before.new_document,
        after_application.print == before.print && after_application.ocr == before.ocr
            && after_application.scale == before.scale && after_application.text_annot
            == before.text_annot,
        !a ==> after_late.scale is None,
        a ==> after_late.scale == before.scale,
        !b ==> after_late.text_annot is None,
        b ==> after_late.text_annot == before.text_annot,
        after_late.about == before.about && after_late.new_document == before.new_document
            && after_late.print == before.print && after_late.ocr == before.ocr,
{
}

} // verus!
