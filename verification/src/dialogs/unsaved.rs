//! The question asked before unsaved edits are thrown away.
//!
//! Closing, opening another file and starting a new one all replace the open
//! document. When it has edits, the shell asks first: save a copy, discard,
//! or cancel. The answer fires once and carries the intent it answers.

use vstd::prelude::*;

use crate::state::Status;

verus! {

/// What the operator was doing when the question was raised.
#[derive(Debug, PartialEq)]
pub enum PendingIntent {
    /// Closing the document.
    Close,
    /// Opening the file at this path.
    Open(String),
    /// Starting a new, default document.
    New,
    /// Starting a new document of a chosen size, in points; each dimension
    /// is held as the bit pattern of the `f64` the size was chosen as.
    NewSized { width_pt_bits: u64, height_pt_bits: u64 },
}

/// Which of the three questions an intent asks.
pub open spec fn question_text(intent: PendingIntent) -> Seq<char> {
    match intent {
        PendingIntent::Close => "Close this document without saving its edits?"@,
        PendingIntent::Open(_) => "Open another file without saving this document's edits?"@,
        _ => "Start a new document without saving this one's edits?"@,
    }
}

/// The label on the button that goes ahead without saving.
pub open spec fn discard_text(intent: PendingIntent) -> Seq<char> {
    match intent {
        PendingIntent::Close => "Close without saving"@,
        PendingIntent::Open(_) => "Open without saving"@,
        _ => "New without saving"@,
    }
}

impl PendingIntent {
    /// A copy of the intent.
    pub fn duplicate(&self) -> (r: PendingIntent)
        ensures
            r == *self,
    {
        match self {
            PendingIntent::Close => PendingIntent::Close,
            PendingIntent::Open(p) => PendingIntent::Open(p.clone()),
            PendingIntent::New => PendingIntent::New,
            PendingIntent::NewSized { width_pt_bits, height_pt_bits } => PendingIntent::NewSized {
                width_pt_bits: *width_pt_bits,
                height_pt_bits: *height_pt_bits,
            },
        }
    }

    /// The question the dialog asks. Both kinds of new ask the same one.
    pub fn question(&self) -> (s: &'static str)
        ensures
            s@ == question_text(*self),
    {
        match self {
            PendingIntent::Close => "Close this document without saving its edits?",
            PendingIntent::Open(_) => "Open another file without saving this document's edits?",
            _ => "Start a new document without saving this one's edits?",
        }
    }

    /// The label of the button that proceeds and discards the edits.
    pub fn discard_label(&self) -> (s: &'static str)
        ensures
            s@ == discard_text(*self),
    {
        match self {
            PendingIntent::Close => "Close without saving",
            PendingIntent::Open(_) => "Open without saving",
            _ => "New without saving",
        }
    }
}

/// Closing, opening and starting anew each ask their own question and label
/// their own discard button; a sized new document asks what a default one
/// does.
pub proof fn law_each_intent_has_its_own_words(path: String, width: u64, height: u64)
    ensures
        question_text(PendingIntent::Close) != question_text(PendingIntent::Open(path)),
        question_text(PendingIntent::Close) != question_text(PendingIntent::New),
        question_text(PendingIntent::Open(path)) != question_text(PendingIntent::New),
        discard_text(PendingIntent::Close) != discard_text(PendingIntent::Open(path)),
        discard_text(PendingIntent::Close) != discard_text(PendingIntent::New),
        discard_text(PendingIntent::Open(path)) != discard_text(PendingIntent::New),
        question_text(PendingIntent::NewSized { width_pt_bits: width, height_pt_bits: height })
            == question_text(PendingIntent::New),
        discard_text(PendingIntent::NewSized { width_pt_bits: width, height_pt_bits: height })
            == discard_text(PendingIntent::New),
{
    reveal_strlit("Close this document without saving its edits?");
    reveal_strlit("Open another file without saving this document's edits?");
    reveal_strlit("Start a new document without saving this one's edits?");
    reveal_strlit("Close without saving");
    reveal_strlit("Open without saving");
    reveal_strlit("New without saving");
    assert(question_text(PendingIntent::Close)[0] != question_text(PendingIntent::Open(path))[0]);
    assert(question_text(PendingIntent::Close)[0] != question_text(PendingIntent::New)[0]);
    assert(question_text(PendingIntent::Open(path))[0] != question_text(PendingIntent::New)[0]);
    assert(discard_text(PendingIntent::Close)[0] != discard_text(PendingIntent::Open(path))[0]);
    assert(discard_text(PendingIntent::Close)[0] != discard_text(PendingIntent::New)[0]);
    assert(discard_text(PendingIntent::Open(path))[0] != discard_text(PendingIntent::New)[0]);
}

/// The operator's answer.
#[derive(Debug, Clone, Copy, PartialEq, Eq, Structural)]
pub enum Outcome {
    /// Save a copy first, then proceed.
    SaveCopy,
    /// Proceed and lose the edits.
    Discard,
}

/// The unsaved-edits question for one intent.
pub struct UnsavedDialog {
    /// What the operator was doing.
    pub intent: PendingIntent,
    /// How many edits are at stake.
    pub edits: u64,
    /// The answer, once given and not yet taken.
    pub outcome: Option<Outcome>,
    /// Whether the operator cancelled.
    pub cancelled: bool,
}

impl UnsavedDialog {
    /// Ask about `edits` edits before carrying out `intent`.
    pub fn new(intent: PendingIntent, edits: u64) -> (d: UnsavedDialog)
        ensures
            d.intent == intent,
            d.edits == edits,
            d.outcome is None,
            !d.cancelled,
    {
        UnsavedDialog { intent, edits, outcome: None, cancelled: false }
    }

    /// Record the button the operator pressed.
    pub fn answer(&mut self, outcome: Outcome)
        ensures
            final(self).outcome == Some(outcome),
            final(self).intent == old(self).intent,
            final(self).edits == old(self).edits,
            final(self).cancelled == old(self).cancelled,
    {
        self.outcome = Some(outcome);
    }

    /// The operator cancelled: nothing is answered.
    pub fn cancel(&mut self)
        ensures
            final(self).cancelled,
            final(self).outcome == old(self).outcome,
            final(self).intent == old(self).intent,
            final(self).edits == old(self).edits,
    {
        self.cancelled = true;
    }

    /// Take the answer with the intent it answers. It is handed out once:
    /// afterwards there is no answer to take.
    pub fn take_outcome(&mut self) -> (r: Option<(PendingIntent, Outcome)>)
        ensures
            r == (match old(self).outcome {
                Some(o) => Some((old(self).intent, o)),
                None => None,
            }),
            final(self).outcome is None,
            final(self).intent == old(self).intent,
            final(self).edits == old(self).edits,
            final(self).cancelled == old(self).cancelled,
    {
        match self.outcome.take() {
            Some(o) => Some((self.intent.duplicate(), o)),
            None => None,
        }
    }

    /// Whether the window stays up after a frame: only while it is open, not
    /// cancelled and not answered.
    pub fn stays_open(&self, window_open: bool) -> (r: bool)
        ensures
            r == (window_open && !self.cancelled && self.outcome is None),
    {
        window_open && !self.cancelled && self.outcome.is_none()
    }
}

/// The question to ask before `intent` replaces the document in `status`:
/// none when nothing is open or the document has no edits.
pub fn ask_for(status: &Status, intent: PendingIntent) -> (r: Option<UnsavedDialog>)
    ensures
        match status {
            Status::Empty => r is None,
            Status::Open(doc) => if doc.edit_epoch == 0 {
                r is None
            } else {
                r matches Some(d) && d.intent == intent && d.edits == doc.edit_epoch && d.outcome is None
                    && !d.cancelled
            },
        },
{
    match status {
        Status::Empty => None,
        Status::Open(doc) => {
            if doc.edit_epoch == 0 {
                None
            } else {
                Some(UnsavedDialog::new(intent, doc.edit_epoch))
            }
        },
    }
}

} // verus!
