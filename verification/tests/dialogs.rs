use pdfce_gui::dialogs::dimension_groups::{
    default_group_id, offers_layer_switch, open_for as open_groups_for, DimensionGroupsDialog,
    GroupId, Unit,
};
use pdfce_gui::dialogs::print::{
    device_features, list_printers, PrintDialog, PrintRange, Printer, ScaleMode, Unavailable,
};
use pdfce_gui::dialogs::textannot::{RectBits, TextAnnotDialog, TextAnnotKind};
use pdfce_gui::dialogs::unsaved::{ask_for, Outcome, PendingIntent, UnsavedDialog};
use pdfce_gui::dialogs::windows::{default_button_answers, dismissed};
use pdfce_gui::dialogs::{DialogsState, DocumentAnswers};
use pdfce_gui::state::{OpenDoc, Status};

/// The stamp gallery's default in these checks: its first entry.
const DEFAULT_STAMP: usize = 0;

fn four_pages() -> Status {
    Status::Open(Box::new(OpenDoc {
        path: "fixtures/four-pages.pdf".to_owned(),
        page_index: 2,
        page_count: 4,
        edit_epoch: 0,
    }))
}

fn edited(epoch: u64) -> Status {
    Status::Open(Box::new(OpenDoc {
        path: "drawing.pdf".to_owned(),
        page_index: 0,
        page_count: 1,
        edit_epoch: epoch,
    }))
}

fn all_stay() -> DocumentAnswers {
    DocumentAnswers {
        print: true,
        ocr: true,
        diagnostics: true,
        redact: true,
        insert_pages: true,
        insert_image: true,
        dimension_groups: true,
    }
}

fn rect() -> RectBits {
    RectBits {
        llx: 0f64.to_bits(),
        lly: 0f64.to_bits(),
        urx: 100f64.to_bits(),
        ury: 40f64.to_bits(),
    }
}

#[test]
fn mod_no_document_means_no_dialog() {
    let mut dialogs = DialogsState::default();
    dialogs.open_print(&Status::Empty);
    assert!(dialogs.print.is_none());
}

#[test]
fn a_closed_document_closes_every_document_scoped_dialog() {
    let mut dialogs = DialogsState::default();
    assert!(dialogs.print.is_none());
    dialogs.close_document_scoped();
    assert!(dialogs.print.is_none());
    assert!(dialogs.ocr.is_none());
    assert!(dialogs.diagnostics.is_none());
    assert!(dialogs.redact.is_none());

    let status = four_pages();
    dialogs.open_print(&status);
    dialogs.open_ocr(&status);
    dialogs.open_diagnostics(&status);
    dialogs.open_redact(&status);
    dialogs.open_scale(&status, GroupId(3));
    dialogs.open_about();
    dialogs.close_document_scoped();
    assert!(dialogs.print.is_none());
    assert!(dialogs.ocr.is_none());
    assert!(dialogs.diagnostics.is_none());
    assert!(dialogs.redact.is_none());
    assert!(dialogs.scale.is_none());
    assert!(dialogs.about.is_some());
}

#[test]
fn the_apply_dialog_is_guarded_on_both_counts() {
    let mut dialogs = DialogsState::default();
    dialogs.open_redact(&Status::Empty);
    assert!(dialogs.redact.is_none());
    let status = four_pages();
    dialogs.open_redact(&status);
    let first = std::ptr::from_ref(dialogs.redact.as_ref().expect("open"));
    dialogs.open_redact(&status);
    let second = std::ptr::from_ref(dialogs.redact.as_ref().expect("still open"));
    assert_eq!(first, second);
}

#[test]
fn no_document_means_no_diagnostics_dialog() {
    let mut dialogs = DialogsState::default();
    dialogs.open_diagnostics(&Status::Empty);
    assert!(dialogs.diagnostics.is_none());
}

#[test]
fn opening_the_diagnostics_report_twice_leaves_the_first_one_alone() {
    let mut dialogs = DialogsState::default();
    let status = four_pages();
    dialogs.open_diagnostics(&status);
    let first = std::ptr::from_ref(dialogs.diagnostics.as_ref().expect("open"));
    dialogs.open_diagnostics(&status);
    let second = std::ptr::from_ref(dialogs.diagnostics.as_ref().expect("still open"));
    assert_eq!(first, second);
}

#[test]
fn no_document_means_no_recognition_dialog() {
    let mut dialogs = DialogsState::default();
    dialogs.open_ocr(&Status::Empty);
    assert!(dialogs.ocr.is_none());
}

#[test]
fn about_opens_without_a_document_and_survives_one_closing() {
    let mut dialogs = DialogsState::default();
    dialogs.open_about();
    assert!(dialogs.about.is_some());
    dialogs.close_document_scoped();
    assert!(dialogs.about.is_some());
}

#[test]
fn opening_about_twice_leaves_the_first_one_alone() {
    let mut dialogs = DialogsState::default();
    dialogs.open_about();
    let first = std::ptr::from_ref(dialogs.about.as_ref().expect("open"));
    dialogs.open_about();
    let second = std::ptr::from_ref(dialogs.about.as_ref().expect("still open"));
    assert_eq!(first, second);
}

#[test]
fn a_second_ocr_press_keeps_the_page_it_was_opened_on() {
    let mut dialogs = DialogsState::new();
    dialogs.open_ocr(&four_pages());
    assert_eq!(dialogs.ocr.as_ref().map(|d| d.page_index), Some(2));
    dialogs.open_ocr(&edited(3));
    assert_eq!(dialogs.ocr.as_ref().map(|d| d.page_index), Some(2));
    assert_eq!(
        dialogs.ocr.as_ref().map(|d| d.source.as_str()),
        Some("fixtures/four-pages.pdf")
    );
}

#[test]
fn the_print_dialog_says_why_there_are_no_printers() {
    let mut dialogs = DialogsState::new();
    dialogs.open_print(&four_pages());
    let print = dialogs.print.as_ref().expect("open");
    assert_eq!(print.unavailable, Some(Unavailable::NotLinked));
    assert!(print.printers.is_empty());
    assert_eq!(print.copies, 1);
    assert_eq!(print.max_dpi, 300);
    assert_eq!(print.custom_percent, 100);
}

#[test]
fn every_hole_refuses_rather_than_guessing() {
    assert_eq!(list_printers(), Err(Unavailable::NotLinked));
    assert_eq!(device_features("Any"), Err(Unavailable::NotLinked));
    assert_eq!(
        Unavailable::NotLinked.message(),
        "pdfce-print is not linked into this build"
    );
}

fn printer(name: &str, is_default: bool) -> Printer {
    Printer {
        name: name.to_owned(),
        driver: "driver".to_owned(),
        port: "port".to_owned(),
        is_default,
    }
}

#[test]
fn the_default_printer_is_chosen_when_the_dialog_opens() {
    let d = PrintDialog::from_listing(Ok(vec![
        printer("a", false),
        printer("b", true),
        printer("c", true),
    ]));
    assert_eq!(d.selected, 1);
    assert_eq!(d.unavailable, None);
    let none = PrintDialog::from_listing(Ok(vec![printer("a", false), printer("b", false)]));
    assert_eq!(none.selected, 0);
    let refused = PrintDialog::from_listing(Err(Unavailable::NotLinked));
    assert_eq!(refused.selected, 0);
    assert!(refused.printers.is_empty());
}

#[test]
fn features_are_read_once_per_chosen_printer() {
    let mut d = PrintDialog::from_listing(Ok(vec![printer("a", true)]));
    assert_eq!(d.features_for, None);
    d.refresh_features();
    assert_eq!(d.features_for, Some(0));
    assert!(!d.features.supports_duplex);
    assert_eq!(d.features.max_copies, 0);
    d.features.max_copies = 9;
    d.refresh_features();
    assert_eq!(d.features.max_copies, 9, "the same choice is not asked again");
}

#[test]
fn the_scale_hand_over_opens_the_set_scale_dialog_once() {
    let status = four_pages();
    let mut dialogs = DialogsState::new();
    dialogs.open_dimension_groups(&status, GroupId(4));
    dialogs.dimension_groups.as_mut().expect("open").scale_requested = Some(GroupId(4));
    let handed = dialogs.settle_document(&status, all_stay());
    assert_eq!(handed, Some(GroupId(4)));
    assert_eq!(dialogs.scale.as_ref().map(|s| s.group), Some(GroupId(4)));
    assert_eq!(dialogs.settle_document(&status, all_stay()), None, "it fires once");
}

#[test]
fn a_frame_with_no_document_closes_the_document_dialogs_but_not_about() {
    let status = four_pages();
    let mut dialogs = DialogsState::new();
    dialogs.open_print(&status);
    dialogs.open_about();
    dialogs.open_new_document();
    dialogs.settle_application(true, true);
    assert_eq!(dialogs.settle_document(&Status::Empty, all_stay()), None);
    assert!(dialogs.print.is_none());
    assert!(dialogs.about.is_some());
    assert!(dialogs.new_document.is_some());
    dialogs.settle_application(false, true);
    assert!(dialogs.about.is_none());
    assert!(dialogs.new_document.is_some());
}

#[test]
fn a_window_that_answers_closed_is_dropped() {
    let status = four_pages();
    let mut dialogs = DialogsState::new();
    dialogs.open_print(&status);
    dialogs.open_ocr(&status);
    let mut answers = all_stay();
    answers.print = false;
    dialogs.settle_document(&status, answers);
    assert!(dialogs.print.is_none());
    assert!(dialogs.ocr.is_some());
}

#[test]
fn calibration_replaces_an_open_scale_dialog_but_a_second_press_does_not() {
    let status = four_pages();
    let mut dialogs = DialogsState::new();
    dialogs.open_scale(&status, GroupId(1));
    dialogs.open_scale(&status, GroupId(2));
    assert_eq!(dialogs.scale.as_ref().map(|s| s.group), Some(GroupId(1)));
    dialogs.open_scale_calibrated(&status, GroupId(2), 12.5f64.to_bits());
    let scale = dialogs.scale.as_ref().expect("open");
    assert_eq!(scale.group, GroupId(2));
    assert_eq!(scale.drawn_length_bits.map(f64::from_bits), Some(12.5));
    dialogs.open_scale(&Status::Empty, GroupId(5));
    assert_eq!(dialogs.scale.as_ref().map(|s| s.group), Some(GroupId(2)));
}

#[test]
fn the_calibrate_request_is_answered_once_and_closing_scale_leaves_the_annotation() {
    let status = four_pages();
    let mut dialogs = DialogsState::new();
    assert!(!dialogs.take_scale_calibrate_request());
    dialogs.open_scale(&status, GroupId(1));
    dialogs.scale.as_mut().expect("open").calibrate_requested = true;
    assert!(dialogs.take_scale_calibrate_request());
    assert!(!dialogs.take_scale_calibrate_request());
    dialogs.open_text_annot(&status, 0, TextAnnotKind::TextBox, rect(), DEFAULT_STAMP);
    dialogs.text_annot.as_mut().expect("open").text = "Check".to_owned();
    dialogs.close_scale();
    assert!(dialogs.scale.is_none());
    assert_eq!(
        dialogs.text_annot.as_ref().map(|d| d.text.as_str()),
        Some("Check"),
        "the words typed into the annotation survive"
    );
}

#[test]
fn closing_the_document_closes_the_insert_and_annotation_dialogs() {
    let status = four_pages();
    let mut dialogs = DialogsState::new();
    dialogs.open_insert_pages("three.pdf".to_owned(), 3, 1);
    dialogs.open_text_annot(&status, 0, TextAnnotKind::Sticky, rect(), DEFAULT_STAMP);
    dialogs.open_new_document();
    dialogs.close_document_scoped();
    assert!(dialogs.insert_pages.is_none());
    assert!(dialogs.text_annot.is_none());
    assert!(dialogs.new_document.is_some());
    dialogs.open_insert_pages("three.pdf".to_owned(), 3, 1);
    dialogs.open_text_annot(&status, 0, TextAnnotKind::Sticky, rect(), DEFAULT_STAMP);
    dialogs.settle_document(&Status::Empty, all_stay());
    assert!(dialogs.insert_pages.is_none());
    assert!(dialogs.text_annot.is_none());
}

#[test]
fn a_file_with_no_pages_gets_no_insert_dialog() {
    let mut dialogs = DialogsState::new();
    dialogs.open_insert_pages("empty.pdf".to_owned(), 0, 0);
    assert!(dialogs.insert_pages.is_none());
    dialogs.open_insert_pages("three.pdf".to_owned(), 3, 1);
    dialogs.open_insert_pages("five.pdf".to_owned(), 5, 1);
    let d = dialogs.insert_pages.as_ref().expect("open");
    assert_eq!((d.path.as_str(), d.page_count), ("three.pdf", 3));
}

#[test]
fn the_image_dialog_needs_a_document() {
    let mut dialogs = DialogsState::new();
    dialogs.open_insert_image(&Status::Empty, "logo.png".to_owned());
    assert!(dialogs.insert_image.is_none());
    dialogs.open_insert_image(&four_pages(), "logo.png".to_owned());
    dialogs.open_insert_image(&four_pages(), "other.png".to_owned());
    assert_eq!(dialogs.insert_image.as_ref().map(|d| d.name.as_str()), Some("logo.png"));
}

#[test]
fn it_opens_on_the_authoring_group() {
    let d = DimensionGroupsDialog::open(GroupId(4));
    assert_eq!(d.selected, GroupId(4));
    assert!(open_groups_for(&Status::Empty, GroupId(4)).is_none());
}

#[test]
fn a_name_that_is_only_spaces_is_not_a_name() {
    for candidate in ["", "   ", "\t", "\n  "] {
        let mut d = DimensionGroupsDialog::open(default_group_id());
        d.new_name = candidate.to_owned();
        assert_eq!(d.add_group(), None, "{candidate:?} must be refused");
        assert_eq!(d.new_name, candidate, "and the field is left as typed");
    }
    let mut d = DimensionGroupsDialog::open(default_group_id());
    d.new_name = " Plan ".to_owned();
    assert_eq!(
        d.add_group(),
        Some(("Plan".to_owned(), Unit::Millimeter)),
        "a real name is trimmed, not refused"
    );
    assert!(d.new_name.is_empty(), "a second press cannot make a second group");
}

#[test]
fn the_scale_request_fires_once() {
    let mut d = DimensionGroupsDialog::open(default_group_id());
    assert_eq!(d.take_scale_request(), None);
    d.scale_requested = Some(GroupId(2));
    assert_eq!(d.take_scale_request(), Some(GroupId(2)));
    assert_eq!(d.take_scale_request(), None, "it must not repeat");
}

#[test]
fn a_missing_group_falls_back_to_the_default_and_only_it_cannot_be_hidden() {
    let mut d = DimensionGroupsDialog::open(GroupId(7));
    d.keep_selection(true);
    assert_eq!(d.selected, GroupId(7));
    d.keep_selection(false);
    assert_eq!(d.selected, default_group_id());
    assert!(!offers_layer_switch(default_group_id()));
    assert!(offers_layer_switch(GroupId(7)));
}

#[test]
fn a_fresh_dialog_is_empty_and_defaulted() {
    let d = TextAnnotDialog::open(0, TextAnnotKind::TextBox, rect(), DEFAULT_STAMP);
    assert!(d.text.is_empty(), "no words are invented for the operator");
    assert_eq!(d.stamp, DEFAULT_STAMP);
    assert!(!d.accept_requested);
}

#[test]
fn the_page_and_rect_are_captured_at_open() {
    let d = TextAnnotDialog::open(7, TextAnnotKind::Sticky, rect(), DEFAULT_STAMP);
    assert_eq!(d.page, 7);
    assert!((f64::from_bits(d.rect.urx) - 100.0).abs() < f64::EPSILON);
}

#[test]
fn readiness_follows_the_gallery_rule() {
    let stamp = TextAnnotDialog::open(0, TextAnnotKind::Stamp, rect(), DEFAULT_STAMP);
    assert!(stamp.ready(), "a stamp needs no typed words");
    let mut box_ = TextAnnotDialog::open(0, TextAnnotKind::TextBox, rect(), DEFAULT_STAMP);
    assert!(!box_.ready(), "an empty callout must not be authorable");
    box_.text = "   ".to_owned();
    assert!(!box_.ready(), "white space is not words");
    box_.text = "See note".to_owned();
    assert!(box_.ready());
}

#[test]
fn accepting_commits_the_words_once() {
    let mut d = TextAnnotDialog::open(3, TextAnnotKind::TextBox, rect(), DEFAULT_STAMP);
    assert!(d.take_commit().is_none());
    d.text = "Check".to_owned();
    d.accept_requested = true;
    let commit = d.take_commit().expect("accepted");
    assert_eq!((commit.page, commit.text.as_str()), (3, "Check"));
    assert_eq!(commit.kind, TextAnnotKind::TextBox);
    assert_eq!(commit.stamp, DEFAULT_STAMP);
    assert!(d.take_commit().is_none());
    assert!(d.text.is_empty());
    assert!(d.stays_open(true));
    d.close_requested = true;
    assert!(!d.stays_open(true));
}

#[test]
fn a_committed_stamp_is_the_one_selected_in_the_gallery() {
    let mut d = TextAnnotDialog::open(1, TextAnnotKind::Stamp, rect(), DEFAULT_STAMP);
    d.stamp = 4;
    d.accept_requested = true;
    let commit = d.take_commit().expect("a stamp needs no words");
    assert_eq!((commit.kind, commit.stamp, commit.text.as_str()), (TextAnnotKind::Stamp, 4, ""));
}

#[test]
fn an_unedited_document_is_not_asked_about() {
    assert!(ask_for(&Status::Empty, PendingIntent::Close).is_none());
    assert!(ask_for(&edited(0), PendingIntent::Close).is_none());
    let d = ask_for(&edited(4), PendingIntent::New).expect("edits are at stake");
    assert_eq!(d.edits, 4);
}

#[test]
fn the_four_intents_do_not_share_a_sentence() {
    let close = PendingIntent::Close;
    let open = PendingIntent::Open("a.pdf".to_owned());
    let new = PendingIntent::New;
    assert_ne!(close.question(), open.question());
    assert_ne!(close.question(), new.question());
    assert_ne!(open.question(), new.question());
    assert_ne!(close.discard_label(), open.discard_label());
    assert_ne!(close.discard_label(), new.discard_label());
    assert_ne!(open.discard_label(), new.discard_label());
}

#[test]
fn both_kinds_of_new_ask_one_question() {
    let sized = PendingIntent::NewSized {
        width_pt_bits: 595f64.to_bits(),
        height_pt_bits: 842f64.to_bits(),
    };
    assert_eq!(sized.question(), PendingIntent::New.question());
    assert_eq!(sized.discard_label(), PendingIntent::New.discard_label());
}

#[test]
fn the_answer_fires_once_and_carries_its_intent() {
    let mut d = UnsavedDialog::new(PendingIntent::Close, 3);
    assert_eq!(d.take_outcome(), None);
    d.outcome = Some(Outcome::Discard);
    assert_eq!(d.take_outcome(), Some((PendingIntent::Close, Outcome::Discard)));
    assert_eq!(d.take_outcome(), None, "it must not repeat");
}

#[test]
fn cancelling_answers_nothing() {
    let mut d = UnsavedDialog::new(PendingIntent::Close, 1);
    d.cancelled = true;
    assert_eq!(d.take_outcome(), None);
    assert!(!d.stays_open(true));
}

#[test]
fn an_answer_closes_the_question() {
    let mut d = UnsavedDialog::new(PendingIntent::Open("b.pdf".to_owned()), 2);
    assert!(d.stays_open(true));
    d.answer(Outcome::SaveCopy);
    assert!(!d.stays_open(true));
    assert_eq!(
        d.take_outcome(),
        Some((PendingIntent::Open("b.pdf".to_owned()), Outcome::SaveCopy))
    );
}

#[test]
fn a_group_name_is_trimmed_of_every_kind_of_white_space() {
    let mut d = DimensionGroupsDialog::open(default_group_id());
    d.new_name = "\u{3000}\tDetail A\u{a0}\n".to_owned();
    assert_eq!(d.pending_name(), Some("Detail A".to_owned()));
    d.new_name = "\u{2028}\u{205f}".to_owned();
    assert_eq!(d.pending_name(), None);
}

#[test]
fn a_new_group_carries_the_unit_chosen_for_it() {
    let mut d = DimensionGroupsDialog::open(GroupId(2));
    assert_eq!(d.new_unit, Unit::Millimeter);
    d.new_unit = Unit::Inch;
    d.new_name = "Detail".to_owned();
    assert_eq!(d.add_group(), Some(("Detail".to_owned(), Unit::Inch)));
    assert_eq!(d.new_unit, Unit::Inch, "the unit stays chosen for the next group");
    assert_eq!(Unit::ALL.len(), 5);
}

#[test]
fn a_fresh_print_job_prints_every_page_fitted_and_has_sent_nothing() {
    let mut dialogs = DialogsState::new();
    dialogs.open_print(&four_pages());
    let print = dialogs.print.as_mut().expect("open");
    assert_eq!(print.range, PrintRange::All);
    assert!(print.range_text.is_empty());
    assert_eq!(print.scale, ScaleMode::Fit);
    assert!(print.outcome.is_none());
    assert!(print.stays_open(true));
    assert!(!print.stays_open(false));
    print.close_requested = true;
    assert!(!print.stays_open(true), "the Close button closes it");
}

#[test]
fn enter_accepts_only_when_no_text_field_holds_the_keyboard() {
    assert!(default_button_answers(true, false, true), "a click always answers");
    assert!(default_button_answers(false, true, false), "Enter answers from outside a field");
    assert!(!default_button_answers(false, true, true), "Enter in a field types a newline");
    assert!(!default_button_answers(false, false, false));
}

#[test]
fn escape_dismisses_only_when_no_text_field_holds_the_keyboard() {
    assert!(dismissed(true, false, false));
    assert!(!dismissed(true, true, false), "Escape inside a field stays with the field");
    assert!(dismissed(false, true, true), "the window's own close always dismisses");
    assert!(!dismissed(false, false, false));
}
