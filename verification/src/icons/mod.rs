//! The icon set: which glyphs exist, and the SVG subset their artwork is written in.

pub mod catalog;
pub mod markup;
pub mod path;
pub mod spacing;
pub mod svg;
