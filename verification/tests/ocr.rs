use std::path::Path;

use pdfce_gui::dialogs::ocr::{
    open_for, preflight, sentence, suggested_file_name, suggested_path, user_data_dir,
    OcrDialog, Phase, Refusal,
};
use pdfce_gui::state::{OpenDoc, Status};

fn doc(edit_epoch: u64) -> OpenDoc {
    OpenDoc {
        path: "D:\\scans\\survey.pdf".to_owned(),
        page_index: 3,
        page_count: 9,
        edit_epoch,
    }
}

#[test]
fn the_suggested_name_is_never_the_source_file() {
    let source = "D:\\scans\\survey.pdf";
    let suggested = suggested_path(source);
    assert_ne!(suggested, source);
    assert_eq!(suggested, "D:\\scans\\survey-recognised.pdf");
    assert_eq!(
        Path::new(&suggested).parent(),
        Path::new(source).parent(),
        "the copy should land beside the scan, where the operator will look for it"
    );
}

#[test]
fn the_suggested_name_always_ends_in_pdf() {
    for name in ["scan.PDF", "scan.pdf", "scan"] {
        let suggested = suggested_path(name);
        assert!(suggested.ends_with(".pdf"), "{name} suggested {suggested:?}");
    }
}

#[test]
fn a_bare_filename_still_produces_a_suggestion() {
    assert_eq!(suggested_path("scan.pdf"), "scan-recognised.pdf");
}

#[test]
fn a_file_in_a_directory_keeps_its_directory() {
    assert_eq!(suggested_path("/home/op/scan.PDF"), "/home/op/scan-recognised.pdf");
    assert_eq!(suggested_path("/"), "document-recognised.pdf");
}

#[test]
fn a_missing_stem_is_called_document() {
    assert_eq!(suggested_file_name(None), "document-recognised.pdf");
    assert_eq!(suggested_file_name(Some("plan")), "plan-recognised.pdf");
}

#[test]
fn each_named_refusal_says_something_different() {
    let all = [
        Refusal::EngineAbsent,
        Refusal::ModelsMissing(vec!["C:\\a".to_owned(), "C:\\b".to_owned()]),
        Refusal::UnsavedEdits,
        Refusal::NothingRecognised,
        Refusal::Engine("the runtime rejected the model".to_owned()),
    ];
    let mut seen: Vec<String> = Vec::new();
    for refusal in &all {
        let s = sentence(refusal);
        assert!(!s.is_empty(), "{refusal:?} produced no sentence");
        assert!(!seen.contains(&s), "{refusal:?} repeats a sentence");
        seen.push(s);
    }
}

#[test]
fn a_missing_model_directory_names_every_place_that_was_tried() {
    let s = sentence(&Refusal::ModelsMissing(vec![
        "C:\\app\\models\\ocrs".to_owned(),
        "C:\\users\\x\\models\\ocrs".to_owned(),
    ]));
    assert!(s.contains("C:\\app\\models\\ocrs"));
    assert!(s.contains("C:\\users\\x\\models\\ocrs"));
    assert!(s.ends_with("C:\\app\\models\\ocrs; C:\\users\\x\\models\\ocrs"));
}

#[test]
fn an_impossible_page_is_reported_one_based() {
    assert_eq!(sentence(&Refusal::NoSuchPage(4)), "Recognition failed: 5");
    assert_eq!(sentence(&Refusal::EmptyPage), "Recognition failed: 0");
}

#[test]
fn ocr_no_document_means_no_dialog() {
    assert!(open_for(&Status::Empty).is_none());
}

#[test]
fn the_dialog_captures_its_page_and_source() {
    let d = open_for(&Status::Open(Box::new(doc(0)))).expect("open");
    assert_eq!(d.page_index, 3);
    assert_eq!(d.source, "D:\\scans\\survey.pdf");
    assert_eq!(d.phase, Phase::Ready);
}

#[test]
fn the_refusals_are_asked_in_order() {
    let missing = || Err(vec!["C:\\a".to_owned()]);
    assert_eq!(preflight(&doc(2), false, missing()), Some(Refusal::EngineAbsent));
    assert_eq!(preflight(&doc(2), true, missing()), Some(Refusal::UnsavedEdits));
    assert_eq!(
        preflight(&doc(0), true, missing()),
        Some(Refusal::ModelsMissing(vec!["C:\\a".to_owned()]))
    );
    assert_eq!(preflight(&doc(0), true, Ok(())), None);
}

#[test]
fn there_is_no_user_data_directory() {
    assert_eq!(user_data_dir(), None);
}

#[test]
fn a_recognition_moves_through_its_phases() {
    let mut d = OcrDialog::open(&doc(0));
    d.finish(Ok(vec![1, 2, 3]));
    assert_eq!(d.phase, Phase::Ready, "only a working dialog takes an answer");
    d.start(true);
    assert_eq!(d.phase, Phase::Working);
    d.finish(Ok(vec![b'%', b'P', b'D', b'F']));
    assert!(d.saveable());
    d.saved(Ok("out.pdf".to_owned()));
    assert_eq!(d.phase, Phase::Saved("out.pdf".to_owned()));
    assert!(!d.saveable());
}

#[test]
fn a_failed_start_or_write_is_a_named_refusal() {
    let mut d = OcrDialog::open(&doc(0));
    d.start(false);
    assert_eq!(d.phase, Phase::Refused(Refusal::ModelsMissing(Vec::new())));
    let mut e = OcrDialog::open(&doc(0));
    e.start(true);
    e.finish(Ok(Vec::new()));
    assert!(!e.saveable(), "an empty document is nothing to save");
    e.saved(Err("disk full".to_owned()));
    assert_eq!(e.phase, Phase::Refused(Refusal::Engine("disk full".to_owned())));
}
