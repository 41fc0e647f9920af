//! The canvas: which pointer tool is armed, and what a text selection carries.

pub mod tool;
pub mod textsel;
pub mod writing;
