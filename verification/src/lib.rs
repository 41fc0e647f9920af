//! The verified core of the pdfce desktop shell: the canvas tool state, the
//! icon catalogue and its SVG-subset reader, the dialog bookkeeping, the
//! change-gated trace records and the text-selection arithmetic.

pub mod canvas;
pub mod icons;
pub mod strings;
pub mod diag;
pub mod state;
pub mod dialogs;
