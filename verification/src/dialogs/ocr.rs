//! The Recognise-text transaction.
//!
//! Three states an operator sees: *ready* (what recognition does, and one
//! button), *working*, and *answered* (the recognised copy waiting to be
//! saved, or a named refusal). The recognised document is never written over
//! the file that was opened: the name suggested for it always differs from
//! the source, and the write goes wherever the operator says.

use vstd::prelude::*;

use crate::state::{OpenDoc, Status};
use vstd::string::StringExecFns;

use crate::strings::{usize_text, decimal_text};

verus! {

/// Why recognition did not happen.
#[derive(Debug, Clone, PartialEq, Eq)]
pub enum Refusal {
    /// This build has no recogniser.
    EngineAbsent,
    /// The model files were not found; the places searched, in order.
    ModelsMissing(Vec<String>),
    /// The document has unsaved edits, which a recognised copy of the file
    /// as opened would silently leave out.
    UnsavedEdits,
    /// The page held nothing the recogniser could read.
    NothingRecognised,
    /// The page index is past the end of the document.
    NoSuchPage(usize),
    /// The page has no area to recognise.
    EmptyPage,
    /// The engine, or the write, failed with this reason.
    Engine(String),
}

/// The places searched, as the sentence lists them: separated by `"; "`.
pub open spec fn joined_paths(paths: Seq<String>) -> Seq<char>
    decreases paths.len(),
{
    if paths.len() == 0 {
        Seq::empty()
    } else if paths.len() == 1 {
        paths[0]@
    } else {
        joined_paths(paths.drop_last()) + "; "@ + paths.last()@
    }
}

/// The sentence for a failure with the given detail.
pub open spec fn failed_text(detail: Seq<char>) -> Seq<char> {
    "Recognition failed: "@ + detail
}

/// The operator-visible sentence for each refusal.
pub open spec fn refusal_text(r: Refusal) -> Seq<char> {
    match r {
        Refusal::EngineAbsent => "This build has no text recogniser."@,
        Refusal::ModelsMissing(searched) => "The recognition models were not found. Searched: "@
            + joined_paths(searched@),
        Refusal::UnsavedEdits =>
            "Save the document first: recognition reads the file as it was opened, not its unsaved edits."@,
        Refusal::NothingRecognised => "No text was recognised on this page."@,
        Refusal::NoSuchPage(i) => failed_text(decimal_text((i + 1) as usize)),
        Refusal::EmptyPage => failed_text("0"@),
        Refusal::Engine(reason) => failed_text(reason@),
    }
}

/// The searched places joined with `"; "`.
fn join_paths(paths: &Vec<String>) -> (s: String)
    ensures
        s@ == joined_paths(paths@),
{
    let mut s = String::new();
    let mut i: usize = 0;
    while i < paths.len()
        invariant
            0 <= i <= paths@.len(),
            s@ == joined_paths(paths@.take(i as int)),
        decreases paths@.len() - i,
    {
        proof {
            reveal_strlit("; ");
            assert(paths@.take(i + 1).drop_last() =~= paths@.take(i as int));
        }
        if i > 0 {
            s.append("; ");
        }
        s.append(paths[i].as_str());
        i += 1;
    }
    assert(paths@.take(paths@.len() as int) =~= paths@);
    s
}

/// The sentence an operator reads for a refusal.
///
/// One sentence per kind of refusal, so the named causes stay named on the
/// screen; the places searched for missing models are all listed.
pub fn sentence(refusal: &Refusal) -> (s: String)
    requires
        refusal matches Refusal::NoSuchPage(i) ==> i < usize::MAX,
    ensures
        s@ == refusal_text(*refusal),
{
    let mut s = String::new();
    match refusal {
        Refusal::EngineAbsent => {
            s.append("This build has no text recogniser.");
        },
        Refusal::ModelsMissing(searched) => {
            s.append("The recognition models were not found. Searched: ");
            let list = join_paths(searched);
            s.append(list.as_str());
        },
        Refusal::UnsavedEdits => {
            s.append("Save the document first: recognition reads the file as it was opened, not its unsaved edits.");
        },
        Refusal::NothingRecognised => {
            s.append("No text was recognised on this page.");
        },
        Refusal::NoSuchPage(i) => {
            s.append("Recognition failed: ");
            let n = usize_text(*i + 1);
            s.append(n.as_str());
        },
        Refusal::EmptyPage => {
            s.append("Recognition failed: ");
            s.append("0");
        },
        Refusal::Engine(reason) => {
            s.append("Recognition failed: ");
            s.append(reason.as_str());
        },
    }
    s
}

/// What must hold before recognition may start, in the order the questions
/// are asked: whether this build can recognise at all, whether the document
/// is as it was opened, and whether the model files were found.
pub open spec fn preflight_answer(
    engine_compiled_in: bool,
    edit_epoch: u64,
    models: Result<(), Vec<String>>,
) -> Option<Refusal> {
    if !engine_compiled_in {
        Some(Refusal::EngineAbsent)
    } else if edit_epoch != 0 {
        Some(Refusal::UnsavedEdits)
    } else {
        match models {
            Ok(_) => None,
            Err(searched) => Some(Refusal::ModelsMissing(searched)),
        }
    }
}

/// Everything that refuses recognition before any work is started, given
/// whether this build carries a recogniser and what the model search found.
/// `None` means recognition may proceed.
pub fn preflight(doc: &OpenDoc, engine_compiled_in: bool, models: Result<(), Vec<String>>) -> (r:
    Option<Refusal>)
    ensures
        r == preflight_answer(engine_compiled_in, doc.edit_epoch, models),
{
    if !engine_compiled_in {
        return Some(Refusal::EngineAbsent);
    }
    if doc.edit_epoch != 0 {
        return Some(Refusal::UnsavedEdits);
    }
    match models {
        Ok(_) => None,
        Err(searched) => Some(Refusal::ModelsMissing(searched)),
    }
}

/// What `Path::file_stem` gives for a path: its file name without the final
/// extension.
pub uninterp spec fn path_file_stem(path: Seq<char>) -> Option<Seq<char>>;

/// What `Path::parent` gives for a path: the path without its final
/// component.
pub uninterp spec fn path_parent(path: Seq<char>) -> Option<Seq<char>>;

/// What `Path::join` gives for a directory and a name.
pub uninterp spec fn path_joined(dir: Seq<char>, name: Seq<char>) -> Seq<char>;

/// The text of an optional string.
pub open spec fn opt_text(o: Option<String>) -> Option<Seq<char>> {
    match o {
        Some(s) => Some(s@),
        None => None,
    }
}

/// `Path::file_stem` on a path given as text. The contract names the result;
/// the stem of a text path is text, so nothing is lost converting it back.
#[verifier::external_body]
fn file_stem_of(path: &str) -> (r: Option<String>)
    ensures
        opt_text(r) == path_file_stem(path@),
{
    match std::path::Path::new(path).file_stem() {
        Some(stem) => Some(stem.to_string_lossy().into_owned()),
        None => None,
    }
}

/// `Path::parent` on a path given as text. The contract names the result.
#[verifier::external_body]
fn parent_of(path: &str) -> (r: Option<String>)
    ensures
        opt_text(r) == path_parent(path@),
{
    match std::path::Path::new(path).parent() {
        Some(dir) => Some(dir.to_string_lossy().into_owned()),
        None => None,
    }
}

/// `Path::join` on a directory and a name given as text. The contract names
/// the result.
#[verifier::external_body]
fn join_path(dir: &str, name: &str) -> (r: String)
    ensures
        r@ == path_joined(dir@, name@),
{
    std::path::Path::new(dir).join(name).to_string_lossy().into_owned()
}

/// The suffix that makes the suggested name a different file.
pub open spec fn recognised_suffix() -> Seq<char> {
    "-recognised.pdf"@
}

/// The file name suggested for the recognised copy of a file with the given
/// stem: the stem (or `document` when there is none), then `-recognised`,
/// then `.pdf` whatever the source's extension was.
pub open spec fn suggested_name(stem: Option<Seq<char>>) -> Seq<char> {
    match stem {
        Some(s) => s + recognised_suffix(),
        None => "document"@ + recognised_suffix(),
    }
}

/// The name to suggest for a recognised copy, given the source's file stem.
pub fn suggested_file_name(stem: Option<&str>) -> (s: String)
    ensures
        s@ == suggested_name(match stem {
            Some(t) => Some(t@),
            None => None,
        }),
{
    let mut s = String::new();
    match stem {
        Some(t) => s.append(t),
        None => s.append("document"),
    }
    s.append("-recognised.pdf");
    proof {
        reveal_strlit("-recognised.pdf");
        reveal_strlit("document");
    }
    s
}

/// Where a recognised copy of `source` is suggested to go: beside it, under
/// [`suggested_name`] of its stem.
pub open spec fn suggested_path_text(source: Seq<char>) -> Seq<char> {
    let name = suggested_name(path_file_stem(source));
    match path_parent(source) {
        Some(dir) => path_joined(dir, name),
        None => name,
    }
}

/// The path to suggest for the recognised copy of `source`.
///
/// The name always ends in `-recognised.pdf`, so accepting the suggestion
/// without reading it cannot overwrite the scan; it lands beside the
/// scan, where the operator will look for it.
pub fn suggested_path(source: &str) -> (s: String)
    ensures
        s@ == suggested_path_text(source@),
{
    let stem = file_stem_of(source);
    let name = match &stem {
        Some(t) => suggested_file_name(Some(t.as_str())),
        None => suggested_file_name(None),
    };
    match parent_of(source) {
        Some(dir) => join_path(dir.as_str(), name.as_str()),
        None => name,
    }
}

/// Where a per-user model directory would be. This shell has none, so there
/// is no second place to search and none is reported.
pub fn user_data_dir() -> (r: Option<String>)
    ensures
        r is None,
{
    None
}

/// Where one recognition has got to.
#[derive(Debug, PartialEq, Eq)]
pub enum Phase {
    /// Nothing has been asked for yet.
    Ready,
    /// Recognition is running.
    Working,
    /// Recognition finished; these are the recognised document's bytes, not
    /// yet saved.
    Recognised(Vec<u8>),
    /// Recognition did not happen, for a named reason.
    Refused(Refusal),
    /// The recognised copy was written to this path.
    Saved(String),
}

/// The Recognise-text dialog.
pub struct OcrDialog {
    /// The page the transaction is about, captured when it opened.
    pub page_index: usize,
    /// The document's own path, for suggesting a name to save under.
    pub source: String,
    /// Where the transaction has got to.
    pub phase: Phase,
    /// Set by the Close button.
    pub close_requested: bool,
    /// Set by the Save button; the write happens after the frame is drawn.
    pub save_requested: bool,
}

impl OcrDialog {
    /// Build the dialog for the page `doc` is showing. Nothing is recognised
    /// until the operator asks.
    pub fn open(doc: &OpenDoc) -> (d: OcrDialog)
        ensures
            d.page_index == doc.page_index,
            d.source@ == doc.path@,
            d.phase == Phase::Ready,
            !d.close_requested,
            !d.save_requested,
    {
        OcrDialog {
            page_index: doc.page_index,
            source: doc.path.clone(),
            phase: Phase::Ready,
            close_requested: false,
            save_requested: false,
        }
    }

    /// Recognition was asked for: it runs when the models were resolved, and
    /// is refused as missing models (with no list) when they were not.
    pub fn start(&mut self, models_resolved: bool)
        ensures
            models_resolved ==> final(self).phase == Phase::Working,
            !models_resolved ==> (final(self).phase matches Phase::Refused(
                Refusal::ModelsMissing(searched),
            ) && searched@.len() == 0),
            final(self).page_index == old(self).page_index,
            final(self).source == old(self).source,
            final(self).close_requested == old(self).close_requested,
            final(self).save_requested == old(self).save_requested,
    {
        if models_resolved {
            self.phase = Phase::Working;
        } else {
            self.phase = Phase::Refused(Refusal::ModelsMissing(Vec::new()));
        }
    }

    /// The running recognition answered. Only a dialog that is working
    /// moves on; it then holds the recognised bytes, or the refusal.
    pub fn finish(&mut self, outcome: Result<Vec<u8>, Refusal>)
        ensures
            old(self).phase == Phase::Working ==> final(self).phase == (match outcome {
                Ok(bytes) => Phase::Recognised(bytes),
                Err(r) => Phase::Refused(r),
            }),
            old(self).phase != Phase::Working ==> final(self).phase == old(self).phase,
            final(self).page_index == old(self).page_index,
            final(self).source == old(self).source,
            final(self).close_requested == old(self).close_requested,
            final(self).save_requested == old(self).save_requested,
    {
        if let Phase::Working = self.phase {
            self.phase = match outcome {
                Ok(bytes) => Phase::Recognised(bytes),
                Err(r) => Phase::Refused(r),
            };
        }
    }

    /// Whether there is a recognised copy to write: recognition finished
    /// with a document of at least one byte.
    pub fn saveable(&self) -> (r: bool)
        ensures
            r == (self.phase matches Phase::Recognised(bytes) && bytes@.len() > 0),
    {
        match &self.phase {
            Phase::Recognised(bytes) => bytes.len() > 0,
            _ => false,
        }
    }

    /// The write of the recognised copy answered: written to a path, or
    /// failed with a reason. Only a recognised dialog moves on; a cancelled
    /// save does not call this, so the bytes stay in hand.
    pub fn saved(&mut self, outcome: Result<String, String>)
        ensures
            old(self).phase is Recognised ==> final(self).phase == (match outcome {
                Ok(path) => Phase::Saved(path),
                Err(reason) => Phase::Refused(Refusal::Engine(reason)),
            }),
            !(old(self).phase is Recognised) ==> final(self).phase == old(self).phase,
            final(self).page_index == old(self).page_index,
            final(self).source == old(self).source,
            final(self).close_requested == old(self).close_requested,
            final(self).save_requested == old(self).save_requested,
    {
        if let Phase::Recognised(_) = self.phase {
            self.phase = match outcome {
                Ok(path) => Phase::Saved(path),
                Err(reason) => Phase::Refused(Refusal::Engine(reason)),
            };
        }
    }
}

/// Open the dialog for the document in `status`; with nothing open there is
/// no dialog.
pub fn open_for(status: &Status) -> (r: Option<OcrDialog>)
    ensures
        match status {
            Status::Empty => r is None,
            Status::Open(doc) => r matches Some(d) && d.page_index == doc.page_index && d.source@
                == doc.path@ && d.phase == Phase::Ready && !d.close_requested && !d.save_requested,
        },
{
    match status {
        Status::Open(doc) => Some(OcrDialog::open(doc)),
        Status::Empty => None,
    }
}

/// Each place searched appears, whole, in the joined list.
proof fn lemma_joined_paths_hold_each(paths: Seq<String>, k: int)
    requires
        0 <= k < paths.len(),
    ensures
        exists|at: int|
            0 <= at && at + paths[k]@.len() <= joined_paths(paths).len() && #[trigger] joined_paths(
                paths,
            ).subrange(at, at + paths[k]@.len()) == paths[k]@,
    decreases paths.len(),
{
    let n = paths.len() - 1;
    if paths.len() == 1 {
        let at = 0int;
        assert(joined_paths(paths).subrange(at, at + paths[k]@.len()) =~= paths[k]@);
        assert(0 <= at && at + paths[k]@.len() <= joined_paths(paths).len() && joined_paths(
            paths,
        ).subrange(at, at + paths[k]@.len()) == paths[k]@);
    } else if k == n {
        let pre = joined_paths(paths.drop_last()) + "; "@;
        let at = pre.len() as int;
        assert(joined_paths(paths) == pre + paths.last()@);
        assert(joined_paths(paths).subrange(at, at + paths[k]@.len()) =~= paths[k]@);
        assert(0 <= at && at + paths[k]@.len() <= joined_paths(paths).len() && joined_paths(
            paths,
        ).subrange(at, at + paths[k]@.len()) == paths[k]@);
    } else {
        let rest = paths.drop_last();
        assert(rest[k] == paths[k]);
        lemma_joined_paths_hold_each(rest, k);
        let at = choose|at: int|
            0 <= at && at + rest[k]@.len() <= joined_paths(rest).len() && #[trigger] joined_paths(
                rest,
            ).subrange(at, at + rest[k]@.len()) == rest[k]@;
        let whole = joined_paths(paths);
        assert(whole == joined_paths(rest) + ("; "@ + paths.last()@));
        assert(whole.subrange(at, at + paths[k]@.len()) =~= joined_paths(rest).subrange(
            at,
            at + rest[k]@.len(),
        ));
        assert(0 <= at && at + paths[k]@.len() <= joined_paths(paths).len() && joined_paths(
            paths,
        ).subrange(at, at + paths[k]@.len()) == paths[k]@);
    }
}

/// The sentence for missing models names every place that was searched, so
/// the operator learns where to put the files.
pub proof fn law_missing_models_name_every_place_searched(searched: Vec<String>, k: int)
    requires
        0 <= k < searched@.len(),
    ensures
        exists|at: int|
            0 <= at && at + searched@[k]@.len() <= refusal_text(Refusal::ModelsMissing(searched)).len()
                && #[trigger] refusal_text(Refusal::ModelsMissing(searched)).subrange(
                at,
                at + searched@[k]@.len(),
            ) == searched@[k]@,
{
    lemma_joined_paths_hold_each(searched@, k);
    let head = "The recognition models were not found. Searched: "@;
    let list = joined_paths(searched@);
    let at = choose|at: int|
        0 <= at && at + searched@[k]@.len() <= list.len() && #[trigger] list.subrange(
            at,
            at + searched@[k]@.len(),
        ) == searched@[k]@;
    let whole = refusal_text(Refusal::ModelsMissing(searched));
    assert(whole == head + list);
    let at2 = head.len() + at;
    assert(whole.subrange(at2, at2 + searched@[k]@.len()) =~= list.subrange(
        at,
        at + searched@[k]@.len(),
    ));
    assert(0 <= at2 && at2 + searched@[k]@.len() <= whole.len() && whole.subrange(
        at2,
        at2 + searched@[k]@.len(),
    ) == searched@[k]@);
}

/// The named refusals an operator can meet read differently from one
/// another: no recogniser, missing models, unsaved edits, nothing read, and
/// an engine failure each have their own sentence.
pub proof fn law_each_named_refusal_reads_differently(searched: Vec<String>, reason: String)
    ensures
        ({
            let texts = seq![
                refusal_text(Refusal::EngineAbsent),
                refusal_text(Refusal::ModelsMissing(searched)),
                refusal_text(Refusal::UnsavedEdits),
                refusal_text(Refusal::NothingRecognised),
                refusal_text(Refusal::Engine(reason)),
            ];
            forall|i: int, j: int| 0 <= i < j < 5 ==> texts[i] != texts[j]
        }),
{
    reveal_strlit("This build has no text recogniser.");
    reveal_strlit("The recognition models were not found. Searched: ");
    reveal_strlit(
        "Save the document first: recognition reads the file as it was opened, not its unsaved edits.",
    );
    reveal_strlit("No text was recognised on this page.");
    reveal_strlit("Recognition failed: ");
    let a = refusal_text(Refusal::EngineAbsent);
    let b = refusal_text(Refusal::ModelsMissing(searched));
    let c = refusal_text(Refusal::UnsavedEdits);
    let d = refusal_text(Refusal::NothingRecognised);
    let e = refusal_text(Refusal::Engine(reason));
    assert(a[2] == 'i' && b[2] == 'e');
    assert(a[0] == 'T' && b[0] == 'T' && c[0] == 'S' && d[0] == 'N' && e[0] == 'R');
    let texts = seq![a, b, c, d, e];
    assert forall|i: int, j: int| 0 <= i < j < 5 implies texts[i] != texts[j] by {
        if i == 0 && j == 1 {
            assert(texts[i][2] != texts[j][2]);
        } else {
            assert(texts[i][0] != texts[j][0]);
        }
    }
}

/// The suggested name always ends in `-recognised.pdf`, whatever the source
/// was called, so it is a PDF and never the source's own name unless the
/// source already carried that ending.
pub proof fn law_the_suggested_name_ends_in_pdf(stem: Option<Seq<char>>)
    ensures
        suggested_name(stem).len() >= recognised_suffix().len(),
        suggested_name(stem).subrange(
            suggested_name(stem).len() - recognised_suffix().len(),
            suggested_name(stem).len() as int,
        ) == recognised_suffix(),
{
    let name = suggested_name(stem);
    let suffix = recognised_suffix();
    let head = match stem {
        Some(s) => s,
        None => "document"@,
    };
    assert(name == head + suffix);
    assert(name.subrange(head.len() as int, name.len() as int) =~= suffix);
}

} // verus!
