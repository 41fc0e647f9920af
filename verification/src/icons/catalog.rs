//! Which glyphs exist, and what each one means.
//!
//! [`Icon`] is the whole vocabulary: one variant per drawn glyph, named for
//! the role it plays. [`Icon::name`] is the one spelling of each key that a
//! ribbon command names, and [`Icon::from_key`] is its reverse; it searches
//! [`Icon::ALL`] rather than carrying a second table, so the two cannot drift.

use vstd::prelude::*;
use vstd::string::StringSliceAdditionalSpecFns;

use crate::strings::{bytes_equal, lemma_same_bytes_same_chars};

verus! {

/// The artwork an icon is drawn from. Two roles share one asset: the folder
/// serves both [`Icon::Open`] and [`Icon::FontFolders`].
#[derive(Debug, Clone, Copy, PartialEq, Eq, Hash, Structural)]
pub enum Asset {
    Folder,
    Save,
    Sidebar,
    Comment,
    ChevronLeft,
    Back,
    ChevronRight,
    ChevronUp,
    ChevronDown,
    Search,
    Close,
    ZoomOut,
    ZoomIn,
    FitPage,
    FitWidth,
    RotateCcw,
    RotateCw,
    Document,
    Markup,
    Text,
    Edit,
    AddText,
    EditObjects,
    FormField,
    Ruler,
    Undo,
    Redo,
    Copy,
    Tool,
    Keyboard,
    ShowPoints,
    Bookmarks,
    Layers,
    Signatures,
    Fonts,
    ShapeRect,
    ShapeEllipse,
    ShapeArrow,
    ShapeHighlight,
    TextFreetext,
    TextSticky,
    Stamp,
    Link,
    Scissors,
    Upload,
    Redact,
}

/// Every icon pdfce ships, one variant per drawn glyph.
#[derive(Debug, Clone, Copy, PartialEq, Eq, Hash, Structural)]
pub enum Icon {
    Open,
    Save,
    Sidebar,
    Comment,
    ChevronLeft,
    Back,
    ChevronRight,
    ChevronUp,
    ChevronDown,
    Search,
    Close,
    ZoomOut,
    ZoomIn,
    FitPage,
    FitWidth,
    RotateCcw,
    RotateCw,
    Properties,
    Markup,
    Text,
    EditText,
    AddText,
    EditObjects,
    FormField,
    Measure,
    Undo,
    Redo,
    Copy,
    Tools,
    Keyboard,
    ShowPoints,
    Bookmarks,
    Layers,
    Signatures,
    Fonts,
    ShapeRect,
    ShapeEllipse,
    ShapeArrow,
    ShapeHighlight,
    TextFreeText,
    TextSticky,
    Stamp,
    Combine,
    Split,
    InsertPages,
    FontFolders,
    Redact,
}

/// The key each icon is named by, as characters.
pub open spec fn spec_name(icon: Icon) -> Seq<char> {
    match icon {
        Icon::Open => seq!['o', 'p', 'e', 'n'],
        Icon::Save => seq!['s', 'a', 'v', 'e'],
        Icon::Sidebar => seq!['s', 'i', 'd', 'e', 'b', 'a', 'r'],
        Icon::Comment => seq!['c', 'o', 'm', 'm', 'e', 'n', 't'],
        Icon::ChevronLeft => seq!['c', 'h', 'e', 'v', 'r', 'o', 'n', '-', 'l', 'e', 'f', 't'],
        Icon::Back => seq!['b', 'a', 'c', 'k'],
        Icon::ChevronRight => seq!['c', 'h', 'e', 'v', 'r', 'o', 'n', '-', 'r', 'i', 'g', 'h', 't'],
        Icon::ChevronUp => seq!['c', 'h', 'e', 'v', 'r', 'o', 'n', '-', 'u', 'p'],
        Icon::ChevronDown => seq!['c', 'h', 'e', 'v', 'r', 'o', 'n', '-', 'd', 'o', 'w', 'n'],
        Icon::Search => seq!['s', 'e', 'a', 'r', 'c', 'h'],
        Icon::Close => seq!['c', 'l', 'o', 's', 'e'],
        Icon::ZoomOut => seq!['z', 'o', 'o', 'm', '-', 'o', 'u', 't'],
        Icon::ZoomIn => seq!['z', 'o', 'o', 'm', '-', 'i', 'n'],
        Icon::FitPage => seq!['f', 'i', 't', '-', 'p', 'a', 'g', 'e'],
        Icon::FitWidth => seq!['f', 'i', 't', '-', 'w', 'i', 'd', 't', 'h'],
        Icon::RotateCcw => seq!['r', 'o', 't', 'a', 't', 'e', '-', 'c', 'c', 'w'],
        Icon::RotateCw => seq!['r', 'o', 't', 'a', 't', 'e', '-', 'c', 'w'],
        Icon::Properties => seq!['p', 'r', 'o', 'p', 'e', 'r', 't', 'i', 'e', 's'],
        Icon::Markup => seq!['m', 'a', 'r', 'k', 'u', 'p'],
        Icon::Text => seq!['t', 'e', 'x', 't'],
        Icon::EditText => seq!['e', 'd', 'i', 't', '-', 't', 'e', 'x', 't'],
        Icon::AddText => seq!['a', 'd', 'd', '-', 't', 'e', 'x', 't'],
        Icon::EditObjects => seq!['e', 'd', 'i', 't', '-', 'o', 'b', 'j', 'e', 'c', 't', 's'],
        Icon::FormField => seq!['f', 'o', 'r', 'm', '-', 'f', 'i', 'e', 'l', 'd'],
        Icon::Measure => seq!['m', 'e', 'a', 's', 'u', 'r', 'e'],
        Icon::Undo => seq!['u', 'n', 'd', 'o'],
        Icon::Redo => seq!['r', 'e', 'd', 'o'],
        Icon::Copy => seq!['c', 'o', 'p', 'y'],
        Icon::Tools => seq!['t', 'o', 'o', 'l', 's'],
        Icon::Keyboard => seq!['k', 'e', 'y', 'b', 'o', 'a', 'r', 'd'],
        Icon::ShowPoints => seq!['s', 'h', 'o', 'w', '-', 'p', 'o', 'i', 'n', 't', 's'],
        Icon::Bookmarks => seq!['b', 'o', 'o', 'k', 'm', 'a', 'r', 'k', 's'],
        Icon::Layers => seq!['l', 'a', 'y', 'e', 'r', 's'],
        Icon::Signatures => seq!['s', 'i', 'g', 'n', 'a', 't', 'u', 'r', 'e', 's'],
        Icon::Fonts => seq!['f', 'o', 'n', 't', 's'],
        Icon::ShapeRect => seq!['s', 'h', 'a', 'p', 'e', '-', 'r', 'e', 'c', 't'],
        Icon::ShapeEllipse => seq!['s', 'h', 'a', 'p', 'e', '-', 'e', 'l', 'l', 'i', 'p', 's', 'e'],
        Icon::ShapeArrow => seq!['s', 'h', 'a', 'p', 'e', '-', 'a', 'r', 'r', 'o', 'w'],
        Icon::ShapeHighlight => seq!['s', 'h', 'a', 'p', 'e', '-', 'h', 'i', 'g', 'h', 'l', 'i', 'g', 'h', 't'],
        Icon::TextFreeText => seq!['t', 'e', 'x', 't', '-', 'f', 'r', 'e', 'e', 't', 'e', 'x', 't'],
        Icon::TextSticky => seq!['t', 'e', 'x', 't', '-', 's', 't', 'i', 'c', 'k', 'y'],
        Icon::Stamp => seq!['s', 't', 'a', 'm', 'p'],
        Icon::Combine => seq!['c', 'o', 'm', 'b', 'i', 'n', 'e'],
        Icon::Split => seq!['s', 'p', 'l', 'i', 't'],
        Icon::InsertPages => seq!['i', 'n', 's', 'e', 'r', 't', '-', 'p', 'a', 'g', 'e', 's'],
        Icon::FontFolders => seq!['f', 'o', 'n', 't', '-', 'f', 'o', 'l', 'd', 'e', 'r', 's'],
        Icon::Redact => seq!['r', 'e', 'd', 'a', 'c', 't'],
    }
}

/// The artwork each icon is drawn from.
pub open spec fn spec_source(icon: Icon) -> Asset {
    match icon {
        Icon::Open => Asset::Folder,
        Icon::Save => Asset::Save,
        Icon::Sidebar => Asset::Sidebar,
        Icon::Comment => Asset::Comment,
        Icon::ChevronLeft => Asset::ChevronLeft,
        Icon::Back => Asset::Back,
        Icon::ChevronRight => Asset::ChevronRight,
        Icon::ChevronUp => Asset::ChevronUp,
        Icon::ChevronDown => Asset::ChevronDown,
        Icon::Search => Asset::Search,
        Icon::Close => Asset::Close,
        Icon::ZoomOut => Asset::ZoomOut,
        Icon::ZoomIn => Asset::ZoomIn,
        Icon::FitPage => Asset::FitPage,
        Icon::FitWidth => Asset::FitWidth,
        Icon::RotateCcw => Asset::RotateCcw,
        Icon::RotateCw => Asset::RotateCw,
        Icon::Properties => Asset::Document,
        Icon::Markup => Asset::Markup,
        Icon::Text => Asset::Text,
        Icon::EditText => Asset::Edit,
        Icon::AddText => Asset::AddText,
        Icon::EditObjects => Asset::EditObjects,
        Icon::FormField => Asset::FormField,
        Icon::Measure => Asset::Ruler,
        Icon::Undo => Asset::Undo,
        Icon::Redo => Asset::Redo,
        Icon::Copy => Asset::Copy,
        Icon::Tools => Asset::Tool,
        Icon::Keyboard => Asset::Keyboard,
        Icon::ShowPoints => Asset::ShowPoints,
        Icon::Bookmarks => Asset::Bookmarks,
        Icon::Layers => Asset::Layers,
        Icon::Signatures => Asset::Signatures,
        Icon::Fonts => Asset::Fonts,
        Icon::ShapeRect => Asset::ShapeRect,
        Icon::ShapeEllipse => Asset::ShapeEllipse,
        Icon::ShapeArrow => Asset::ShapeArrow,
        Icon::ShapeHighlight => Asset::ShapeHighlight,
        Icon::TextFreeText => Asset::TextFreetext,
        Icon::TextSticky => Asset::TextSticky,
        Icon::Stamp => Asset::Stamp,
        Icon::Combine => Asset::Link,
        Icon::Split => Asset::Scissors,
        Icon::InsertPages => Asset::Upload,
        Icon::FontFolders => Asset::Folder,
        Icon::Redact => Asset::Redact,
    }
}

/// The position of each icon in [`Icon::ALL`].
pub open spec fn position(icon: Icon) -> int {
    match icon {
        Icon::Open => 0,
        Icon::Save => 1,
        Icon::Sidebar => 2,
        Icon::Comment => 3,
        Icon::ChevronLeft => 4,
        Icon::Back => 5,
        Icon::ChevronRight => 6,
        Icon::ChevronUp => 9,
        Icon::ChevronDown => 7,
        Icon::Search => 8,
        Icon::Close => 10,
        Icon::ZoomOut => 11,
        Icon::ZoomIn => 12,
        Icon::FitPage => 13,
        Icon::FitWidth => 14,
        Icon::RotateCcw => 15,
        Icon::RotateCw => 16,
        Icon::Properties => 17,
        Icon::Markup => 18,
        Icon::Text => 19,
        Icon::EditText => 20,
        Icon::AddText => 21,
        Icon::EditObjects => 22,
        Icon::FormField => 23,
        Icon::Measure => 24,
        Icon::Undo => 25,
        Icon::Redo => 26,
        Icon::Copy => 27,
        Icon::Tools => 28,
        Icon::Keyboard => 29,
        Icon::ShowPoints => 30,
        Icon::Bookmarks => 31,
        Icon::Layers => 32,
        Icon::Signatures => 33,
        Icon::Fonts => 34,
        Icon::ShapeRect => 35,
        Icon::ShapeEllipse => 36,
        Icon::ShapeArrow => 37,
        Icon::ShapeHighlight => 38,
        Icon::TextFreeText => 39,
        Icon::TextSticky => 40,
        Icon::Stamp => 41,
        Icon::Combine => 42,
        Icon::Split => 43,
        Icon::InsertPages => 44,
        Icon::FontFolders => 45,
        Icon::Redact => 46,
    }
}

/// Reads an icon back from its key by the characters that tell the keys apart.
closed spec fn decode(k: Seq<char>) -> Option<Icon> {
    if k.len() == 4 && k[0] == 'o' {
        Some(Icon::Open)
    } else if k.len() == 4 && k[0] == 's' {
        Some(Icon::Save)
    } else if k.len() == 7 && k[0] == 's' {
        Some(Icon::Sidebar)
    } else if k.len() == 7 && k[4] == 'e' {
        Some(Icon::Comment)
    } else if k.len() == 12 && k[8] == 'l' {
        Some(Icon::ChevronLeft)
    } else if k.len() == 4 && k[0] == 'b' {
        Some(Icon::Back)
    } else if k.len() == 13 && k[0] == 'c' {
        Some(Icon::ChevronRight)
    } else if k.len() == 10 && k[0] == 'c' {
        Some(Icon::ChevronUp)
    } else if k.len() == 12 && k[9] == 'o' {
        Some(Icon::ChevronDown)
    } else if k.len() == 6 && k[0] == 's' {
        Some(Icon::Search)
    } else if k.len() == 5 && k[0] == 'c' {
        Some(Icon::Close)
    } else if k.len() == 8 && k[0] == 'z' {
        Some(Icon::ZoomOut)
    } else if k.len() == 7 && k[0] == 'z' {
        Some(Icon::ZoomIn)
    } else if k.len() == 8 && k[0] == 'f' {
        Some(Icon::FitPage)
    } else if k.len() == 9 && k[0] == 'f' {
        Some(Icon::FitWidth)
    } else if k.len() == 10 && k[0] == 'r' {
        Some(Icon::RotateCcw)
    } else if k.len() == 9 && k[0] == 'r' {
        Some(Icon::RotateCw)
    } else if k.len() == 10 && k[0] == 'p' {
        Some(Icon::Properties)
    } else if k.len() == 6 && k[0] == 'm' {
        Some(Icon::Markup)
    } else if k.len() == 4 && k[0] == 't' {
        Some(Icon::Text)
    } else if k.len() == 9 && k[0] == 'e' {
        Some(Icon::EditText)
    } else if k.len() == 8 && k[0] == 'a' {
        Some(Icon::AddText)
    } else if k.len() == 12 && k[0] == 'e' {
        Some(Icon::EditObjects)
    } else if k.len() == 10 && k[0] == 'f' {
        Some(Icon::FormField)
    } else if k.len() == 7 && k[0] == 'm' {
        Some(Icon::Measure)
    } else if k.len() == 4 && k[0] == 'u' {
        Some(Icon::Undo)
    } else if k.len() == 4 && k[0] == 'r' {
        Some(Icon::Redo)
    } else if k.len() == 4 && k[0] == 'c' {
        Some(Icon::Copy)
    } else if k.len() == 5 && k[0] == 't' {
        Some(Icon::Tools)
    } else if k.len() == 8 && k[0] == 'k' {
        Some(Icon::Keyboard)
    } else if k.len() == 11 && k[2] == 'o' {
        Some(Icon::ShowPoints)
    } else if k.len() == 9 && k[0] == 'b' {
        Some(Icon::Bookmarks)
    } else if k.len() == 6 && k[0] == 'l' {
        Some(Icon::Layers)
    } else if k.len() == 10 && k[1] == 'i' {
        Some(Icon::Signatures)
    } else if k.len() == 5 && k[0] == 'f' {
        Some(Icon::Fonts)
    } else if k.len() == 10 && k[2] == 'a' {
        Some(Icon::ShapeRect)
    } else if k.len() == 13 && k[0] == 's' {
        Some(Icon::ShapeEllipse)
    } else if k.len() == 11 && k[2] == 'a' {
        Some(Icon::ShapeArrow)
    } else if k.len() == 15 {
        Some(Icon::ShapeHighlight)
    } else if k.len() == 13 && k[0] == 't' {
        Some(Icon::TextFreeText)
    } else if k.len() == 11 && k[0] == 't' {
        Some(Icon::TextSticky)
    } else if k.len() == 5 && k[1] == 't' {
        Some(Icon::Stamp)
    } else if k.len() == 7 && k[3] == 'b' {
        Some(Icon::Combine)
    } else if k.len() == 5 && k[1] == 'p' {
        Some(Icon::Split)
    } else if k.len() == 12 && k[0] == 'i' {
        Some(Icon::InsertPages)
    } else if k.len() == 12 && k[0] == 'f' {
        Some(Icon::FontFolders)
    } else if k.len() == 6 && k[0] == 'r' {
        Some(Icon::Redact)
    } else {
        None
    }
}

/// Every key reads back as the icon that owns it.
proof fn lemma_decode_name(icon: Icon)
    ensures
        decode(spec_name(icon)) == Some(icon),
{
    match icon {
        Icon::Open => {},
        Icon::Save => {},
        Icon::Sidebar => {},
        Icon::Comment => {},
        Icon::ChevronLeft => {},
        Icon::Back => {},
        Icon::ChevronRight => {},
        Icon::ChevronUp => {},
        Icon::ChevronDown => {},
        Icon::Search => {},
        Icon::Close => {},
        Icon::ZoomOut => {},
        Icon::ZoomIn => {},
        Icon::FitPage => {},
        Icon::FitWidth => {},
        Icon::RotateCcw => {},
        Icon::RotateCw => {},
        Icon::Properties => {},
        Icon::Markup => {},
        Icon::Text => {},
        Icon::EditText => {},
        Icon::AddText => {},
        Icon::EditObjects => {},
        Icon::FormField => {},
        Icon::Measure => {},
        Icon::Undo => {},
        Icon::Redo => {},
        Icon::Copy => {},
        Icon::Tools => {},
        Icon::Keyboard => {},
        Icon::ShowPoints => {},
        Icon::Bookmarks => {},
        Icon::Layers => {},
        Icon::Signatures => {},
        Icon::Fonts => {},
        Icon::ShapeRect => {},
        Icon::ShapeEllipse => {},
        Icon::ShapeArrow => {},
        Icon::ShapeHighlight => {},
        Icon::TextFreeText => {},
        Icon::TextSticky => {},
        Icon::Stamp => {},
        Icon::Combine => {},
        Icon::Split => {},
        Icon::InsertPages => {},
        Icon::FontFolders => {},
        Icon::Redact => {},
    }
}

impl Icon {
    /// Every icon, once each.
    pub const ALL: [Icon; 47] = [
        Icon::Open,
        Icon::Save,
        Icon::Sidebar,
        Icon::Comment,
        Icon::ChevronLeft,
        Icon::Back,
        Icon::ChevronRight,
        Icon::ChevronDown,
        Icon::Search,
        Icon::ChevronUp,
        Icon::Close,
        Icon::ZoomOut,
        Icon::ZoomIn,
        Icon::FitPage,
        Icon::FitWidth,
        Icon::RotateCcw,
        Icon::RotateCw,
        Icon::Properties,
        Icon::Markup,
        Icon::Text,
        Icon::EditText,
        Icon::AddText,
        Icon::EditObjects,
        Icon::FormField,
        Icon::Measure,
        Icon::Undo,
        Icon::Redo,
        Icon::Copy,
        Icon::Tools,
        Icon::Keyboard,
        Icon::ShowPoints,
        Icon::Bookmarks,
        Icon::Layers,
        Icon::Signatures,
        Icon::Fonts,
        Icon::ShapeRect,
        Icon::ShapeEllipse,
        Icon::ShapeArrow,
        Icon::ShapeHighlight,
        Icon::TextFreeText,
        Icon::TextSticky,
        Icon::Stamp,
        Icon::Combine,
        Icon::Split,
        Icon::InsertPages,
        Icon::FontFolders,
        Icon::Redact,
    ];

    /// The artwork this icon is drawn from.
    pub fn source(self) -> (a: Asset)
        ensures
            a == spec_source(self),
    {
        match self {
            Icon::Open => Asset::Folder,
            Icon::Save => Asset::Save,
            Icon::Sidebar => Asset::Sidebar,
            Icon::Comment => Asset::Comment,
            Icon::ChevronLeft => Asset::ChevronLeft,
            Icon::Back => Asset::Back,
            Icon::ChevronRight => Asset::ChevronRight,
            Icon::ChevronUp => Asset::ChevronUp,
            Icon::ChevronDown => Asset::ChevronDown,
            Icon::Search => Asset::Search,
            Icon::Close => Asset::Close,
            Icon::ZoomOut => Asset::ZoomOut,
            Icon::ZoomIn => Asset::ZoomIn,
            Icon::FitPage => Asset::FitPage,
            Icon::FitWidth => Asset::FitWidth,
            Icon::RotateCcw => Asset::RotateCcw,
            Icon::RotateCw => Asset::RotateCw,
            Icon::Properties => Asset::Document,
            Icon::Markup => Asset::Markup,
            Icon::Text => Asset::Text,
            Icon::EditText => Asset::Edit,
            Icon::AddText => Asset::AddText,
            Icon::EditObjects => Asset::EditObjects,
            Icon::FormField => Asset::FormField,
            Icon::Measure => Asset::Ruler,
            Icon::Undo => Asset::Undo,
            Icon::Redo => Asset::Redo,
            Icon::Copy => Asset::Copy,
            Icon::Tools => Asset::Tool,
            Icon::Keyboard => Asset::Keyboard,
            Icon::ShowPoints => Asset::ShowPoints,
            Icon::Bookmarks => Asset::Bookmarks,
            Icon::Layers => Asset::Layers,
            Icon::Signatures => Asset::Signatures,
            Icon::Fonts => Asset::Fonts,
            Icon::ShapeRect => Asset::ShapeRect,
            Icon::ShapeEllipse => Asset::ShapeEllipse,
            Icon::ShapeArrow => Asset::ShapeArrow,
            Icon::ShapeHighlight => Asset::ShapeHighlight,
            Icon::TextFreeText => Asset::TextFreetext,
            Icon::TextSticky => Asset::TextSticky,
            Icon::Stamp => Asset::Stamp,
            Icon::Combine => Asset::Link,
            Icon::Split => Asset::Scissors,
            Icon::InsertPages => Asset::Upload,
            Icon::FontFolders => Asset::Folder,
            Icon::Redact => Asset::Redact,
        }
    }

    /// The key this icon is named by.
    pub fn name(self) -> (k: &'static str)
        ensures
            k@ == spec_name(self),
    {
        match self {
            Icon::Open => {
                proof { reveal_strlit("open"); }
                "open"
            },
            Icon::Save => {
                proof { reveal_strlit("save"); }
                "save"
            },
            Icon::Sidebar => {
                proof { reveal_strlit("sidebar"); }
                "sidebar"
            },
            Icon::Comment => {
                proof { reveal_strlit("comment"); }
                "comment"
            },
            Icon::ChevronLeft => {
                proof { reveal_strlit("chevron-left"); }
                "chevron-left"
            },
            Icon::Back => {
                proof { reveal_strlit("back"); }
                "back"
            },
            Icon::ChevronRight => {
                proof { reveal_strlit("chevron-right"); }
                "chevron-right"
            },
            Icon::ChevronUp => {
                proof { reveal_strlit("chevron-up"); }
                "chevron-up"
            },
            Icon::ChevronDown => {
                proof { reveal_strlit("chevron-down"); }
                "chevron-down"
            },
            Icon::Search => {
                proof { reveal_strlit("search"); }
                "search"
            },
            Icon::Close => {
                proof { reveal_strlit("close"); }
                "close"
            },
            Icon::ZoomOut => {
                proof { reveal_strlit("zoom-out"); }
                "zoom-out"
            },
            Icon::ZoomIn => {
                proof { reveal_strlit("zoom-in"); }
                "zoom-in"
            },
            Icon::FitPage => {
                proof { reveal_strlit("fit-page"); }
                "fit-page"
            },
            Icon::FitWidth => {
                proof { reveal_strlit("fit-width"); }
                "fit-width"
            },
            Icon::RotateCcw => {
                proof { reveal_strlit("rotate-ccw"); }
                "rotate-ccw"
            },
            Icon::RotateCw => {
                proof { reveal_strlit("rotate-cw"); }
                "rotate-cw"
            },
            Icon::Properties => {
                proof { reveal_strlit("properties"); }
                "properties"
            },
            Icon::Markup => {
                proof { reveal_strlit("markup"); }
                "markup"
            },
            Icon::Text => {
                proof { reveal_strlit("text"); }
                "text"
            },
            Icon::EditText => {
                proof { reveal_strlit("edit-text"); }
                "edit-text"
            },
            Icon::AddText => {
                proof { reveal_strlit("add-text"); }
                "add-text"
            },
            Icon::EditObjects => {
                proof { reveal_strlit("edit-objects"); }
                "edit-objects"
            },
            Icon::FormField => {
                proof { reveal_strlit("form-field"); }
                "form-field"
            },
            Icon::Measure => {
                proof { reveal_strlit("measure"); }
                "measure"
            },
            Icon::Undo => {
                proof { reveal_strlit("undo"); }
                "undo"
            },
            Icon::Redo => {
                proof { reveal_strlit("redo"); }
                "redo"
            },
            Icon::Copy => {
                proof { reveal_strlit("copy"); }
                "copy"
            },
            Icon::Tools => {
                proof { reveal_strlit("tools"); }
                "tools"
            },
            Icon::Keyboard => {
                proof { reveal_strlit("keyboard"); }
                "keyboard"
            },
            Icon::ShowPoints => {
                proof { reveal_strlit("show-points"); }
                "show-points"
            },
            Icon::Bookmarks => {
                proof { reveal_strlit("bookmarks"); }
                "bookmarks"
            },
            Icon::Layers => {
                proof { reveal_strlit("layers"); }
                "layers"
            },
            Icon::Signatures => {
                proof { reveal_strlit("signatures"); }
                "signatures"
            },
            Icon::Fonts => {
                proof { reveal_strlit("fonts"); }
                "fonts"
            },
            Icon::ShapeRect => {
                proof { reveal_strlit("shape-rect"); }
                "shape-rect"
            },
            Icon::ShapeEllipse => {
                proof { reveal_strlit("shape-ellipse"); }
                "shape-ellipse"
            },
            Icon::ShapeArrow => {
                proof { reveal_strlit("shape-arrow"); }
                "shape-arrow"
            },
            Icon::ShapeHighlight => {
                proof { reveal_strlit("shape-highlight"); }
                "shape-highlight"
            },
            Icon::TextFreeText => {
                proof { reveal_strlit("text-freetext"); }
                "text-freetext"
            },
            Icon::TextSticky => {
                proof { reveal_strlit("text-sticky"); }
                "text-sticky"
            },
            Icon::Stamp => {
                proof { reveal_strlit("stamp"); }
                "stamp"
            },
            Icon::Combine => {
                proof { reveal_strlit("combine"); }
                "combine"
            },
            Icon::Split => {
                proof { reveal_strlit("split"); }
                "split"
            },
            Icon::InsertPages => {
                proof { reveal_strlit("insert-pages"); }
                "insert-pages"
            },
            Icon::FontFolders => {
                proof { reveal_strlit("font-folders"); }
                "font-folders"
            },
            Icon::Redact => {
                proof { reveal_strlit("redact"); }
                "redact"
            },
        }
    }

    /// The icon a key names, if any: the reverse of [`Icon::name`].
    pub fn from_key(key: &str) -> (r: Option<Icon>)
        ensures
            from_key_post(key@, r),
    {
        let wanted = key.as_bytes();
        let mut k: usize = 0;
        while k < 47
            invariant
                0 <= k <= 47,
                wanted@ == key.spec_bytes(),
                forall|j: int| 0 <= j < k ==> spec_name(#[trigger] Icon::ALL@[j]) != key@,
            decreases 47 - k,
        {
            let icon = Self::ALL[k];
            let name = icon.name();
            if bytes_equal(name.as_bytes(), wanted) {
                proof {
                    lemma_same_bytes_same_chars(name@, key@);
                }
                return Some(icon);
            }
            proof {
                lemma_same_bytes_same_chars(name@, key@);
            }
            k += 1;
        }
        proof {
            assert forall|i: Icon| spec_name(i) != key@ by {
                lemma_all_holds_every_icon(i);
                let j = position(i);
                assert(spec_name(Icon::ALL@[j]) != key@);
            }
        }
        None
    }
}

/// What [`Icon::from_key`] promises: an icon whose key is exactly the one
/// given, or nothing when no icon has that key.
pub open spec fn from_key_post(key: Seq<char>, r: Option<Icon>) -> bool {
    match r {
        Some(icon) => spec_name(icon) == key,
        None => forall|i: Icon| spec_name(i) != key,
    }
}

/// Each icon sits in [`Icon::ALL`] at its own position.
proof fn lemma_all_holds_every_icon(icon: Icon)
    ensures
        0 <= position(icon) < 47,
        Icon::ALL@[position(icon)] == icon,
{
}

/// No two icons share a key.
pub proof fn law_keys_are_distinct(a: Icon, b: Icon)
    ensures
        spec_name(a) == spec_name(b) ==> a == b,
{
    lemma_decode_name(a);
    lemma_decode_name(b);
}

/// Every key round-trips: looking an icon's own key up finds that icon.
pub proof fn law_key_round_trip(icon: Icon, found: Option<Icon>)
    requires
        from_key_post(spec_name(icon), found),
    ensures
        found == Some(icon),
{
    match found {
        Some(other) => law_keys_are_distinct(other, icon),
        None => {},
    }
}

/// [`Icon::ALL`] lists every icon, and lists each exactly once.
pub proof fn law_all_is_exhaustive_and_free_of_duplicates(icon: Icon, j: int, k: int)
    ensures
        Icon::ALL@.len() == 47,
        exists|p: int| 0 <= p < 47 && Icon::ALL@[p] == icon,
        0 <= j < 47 && 0 <= k < 47 && Icon::ALL@[j] == Icon::ALL@[k] ==> j == k,
{
    lemma_all_holds_every_icon(icon);
    if 0 <= j < 47 && 0 <= k < 47 {
        lemma_all_positions(j);
        lemma_all_positions(k);
    }
}

/// The entry at each position of [`Icon::ALL`] is the icon whose position that is.
proof fn lemma_all_positions(j: int)
    requires
        0 <= j < 47,
    ensures
        position(Icon::ALL@[j]) == j,
{
}

/// Every key is non-empty lowercase kebab-case: lowercase ASCII letters,
/// digits and hyphens.
pub proof fn law_keys_are_kebab_case(icon: Icon, p: int)
    ensures
        spec_name(icon).len() > 0,
        0 <= p < spec_name(icon).len() ==> {
            let c = spec_name(icon)[p];
            ('a' <= c <= 'z') || ('0' <= c <= '9') || c == '-'
        },
{
}

/// Only the folder artwork is shared, and only by Open and Font Folders.
pub proof fn law_only_the_folder_asset_is_shared(a: Icon, b: Icon)
    ensures
        spec_source(a) == spec_source(b) && a != b ==> (a == Icon::Open && b == Icon::FontFolders)
            || (a == Icon::FontFolders && b == Icon::Open),
{
}

/// Each icon is drawn from the artwork of its own role: the zoom-in icon
/// from the zoom-in artwork, the zoom-out icon from the zoom-out artwork,
/// and so on; Properties from the document artwork, Edit text from the edit
/// artwork, Measure from the ruler, Tools from the tool, Combine from the
/// link, Split from the scissors and Insert pages from the upload artwork;
/// Open and Font folders both from the folder.
pub proof fn law_each_icon_draws_its_own_artwork()
    ensures
        spec_source(Icon::Open) == Asset::Folder,
        spec_source(Icon::Save) == Asset::Save,
        spec_source(Icon::Sidebar) == Asset::Sidebar,
        spec_source(Icon::Comment) == Asset::Comment,
        spec_source(Icon::ChevronLeft) == Asset::ChevronLeft,
        spec_source(Icon::Back) == Asset::Back,
        spec_source(Icon::ChevronRight) == Asset::ChevronRight,
        spec_source(Icon::ChevronUp) == Asset::ChevronUp,
        spec_source(Icon::ChevronDown) == Asset::ChevronDown,
        spec_source(Icon::Search) == Asset::Search,
        spec_source(Icon::Close) == Asset::Close,
        spec_source(Icon::ZoomOut) == Asset::ZoomOut,
        spec_source(Icon::ZoomIn) == Asset::ZoomIn,
        spec_source(Icon::FitPage) == Asset::FitPage,
        spec_source(Icon::FitWidth) == Asset::FitWidth,
        spec_source(Icon::RotateCcw) == Asset::RotateCcw,
        spec_source(Icon::RotateCw) == Asset::RotateCw,
        spec_source(Icon::Properties) == Asset::Document,
        spec_source(Icon::Markup) == Asset::Markup,
        spec_source(Icon::Text) == Asset::Text,
        spec_source(Icon::EditText) == Asset::Edit,
        spec_source(Icon::AddText) == Asset::AddText,
        spec_source(Icon::EditObjects) == Asset::EditObjects,
        spec_source(Icon::FormField) == Asset::FormField,
        spec_source(Icon::Measure) == Asset::Ruler,
        spec_source(Icon::Undo) == Asset::Undo,
        spec_source(Icon::Redo) == Asset::Redo,
        spec_source(Icon::Copy) == Asset::Copy,
        spec_source(Icon::Tools) == Asset::Tool,
        spec_source(Icon::Keyboard) == Asset::Keyboard,
        spec_source(Icon::ShowPoints) == Asset::ShowPoints,
        spec_source(Icon::Bookmarks) == Asset::Bookmarks,
        spec_source(Icon::Layers) == Asset::Layers,
        spec_source(Icon::Signatures) == Asset::Signatures,
        spec_source(Icon::Fonts) == Asset::Fonts,
        spec_source(Icon::ShapeRect) == Asset::ShapeRect,
        spec_source(Icon::ShapeEllipse) == Asset::ShapeEllipse,
        spec_source(Icon::ShapeArrow) == Asset::ShapeArrow,
        spec_source(Icon::ShapeHighlight) == Asset::ShapeHighlight,
        spec_source(Icon::TextFreeText) == Asset::TextFreetext,
        spec_source(Icon::TextSticky) == Asset::TextSticky,
        spec_source(Icon::Stamp) == Asset::Stamp,
        spec_source(Icon::Combine) == Asset::Link,
        spec_source(Icon::Split) == Asset::Scissors,
        spec_source(Icon::InsertPages) == Asset::Upload,
        spec_source(Icon::FontFolders) == Asset::Folder,
        spec_source(Icon::Redact) == Asset::Redact,
{
}

/// Each icon answers to the key that spells its role: the zoom-in icon to
/// `zoom-in`, the zoom-out icon to `zoom-out`, and so on for every icon.
pub proof fn law_each_icon_answers_to_its_own_key()
    ensures
        spec_name(Icon::Open) == seq!['o', 'p', 'e', 'n'],
        spec_name(Icon::Save) == seq!['s', 'a', 'v', 'e'],
        spec_name(Icon::Sidebar) == seq!['s', 'i', 'd', 'e', 'b', 'a', 'r'],
        spec_name(Icon::Comment) == seq!['c', 'o', 'm', 'm', 'e', 'n', 't'],
        spec_name(Icon::ChevronLeft) == seq!['c', 'h', 'e', 'v', 'r', 'o', 'n', '-', 'l', 'e', 'f', 't'],
        spec_name(Icon::Back) == seq!['b', 'a', 'c', 'k'],
        spec_name(Icon::ChevronRight) == seq!['c', 'h', 'e', 'v', 'r', 'o', 'n', '-', 'r', 'i', 'g', 'h', 't'],
        spec_name(Icon::ChevronUp) == seq!['c', 'h', 'e', 'v', 'r', 'o', 'n', '-', 'u', 'p'],
        spec_name(Icon::ChevronDown) == seq!['c', 'h', 'e', 'v', 'r', 'o', 'n', '-', 'd', 'o', 'w', 'n'],
        spec_name(Icon::Search) == seq!['s', 'e', 'a', 'r', 'c', 'h'],
        spec_name(Icon::Close) == seq!['c', 'l', 'o', 's', 'e'],
        spec_name(Icon::ZoomOut) == seq!['z', 'o', 'o', 'm', '-', 'o', 'u', 't'],
        spec_name(Icon::ZoomIn) == seq!['z', 'o', 'o', 'm', '-', 'i', 'n'],
        spec_name(Icon::FitPage) == seq!['f', 'i', 't', '-', 'p', 'a', 'g', 'e'],
        spec_name(Icon::FitWidth) == seq!['f', 'i', 't', '-', 'w', 'i', 'd', 't', 'h'],
        spec_name(Icon::RotateCcw) == seq!['r', 'o', 't', 'a', 't', 'e', '-', 'c', 'c', 'w'],
        spec_name(Icon::RotateCw) == seq!['r', 'o', 't', 'a', 't', 'e', '-', 'c', 'w'],
        spec_name(Icon::Properties) == seq!['p', 'r', 'o', 'p', 'e', 'r', 't', 'i', 'e', 's'],
        spec_name(Icon::Markup) == seq!['m', 'a', 'r', 'k', 'u', 'p'],
        spec_name(Icon::Text) == seq!['t', 'e', 'x', 't'],
        spec_name(Icon::EditText) == seq!['e', 'd', 'i', 't', '-', 't', 'e', 'x', 't'],
        spec_name(Icon::AddText) == seq!['a', 'd', 'd', '-', 't', 'e', 'x', 't'],
        spec_name(Icon::EditObjects) == seq!['e', 'd', 'i', 't', '-', 'o', 'b', 'j', 'e', 'c', 't', 's'],
        spec_name(Icon::FormField) == seq!['f', 'o', 'r', 'm', '-', 'f', 'i', 'e', 'l', 'd'],
        spec_name(Icon::Measure) == seq!['m', 'e', 'a', 's', 'u', 'r', 'e'],
        spec_name(Icon::Undo) == seq!['u', 'n', 'd', 'o'],
        spec_name(Icon::Redo) == seq!['r', 'e', 'd', 'o'],
        spec_name(Icon::Copy) == seq!['c', 'o', 'p', 'y'],
        spec_name(Icon::Tools) == seq!['t', 'o', 'o', 'l', 's'],
        spec_name(Icon::Keyboard) == seq!['k', 'e', 'y', 'b', 'o', 'a', 'r', 'd'],
        spec_name(Icon::ShowPoints) == seq!['s', 'h', 'o', 'w', '-', 'p', 'o', 'i', 'n', 't', 's'],
        spec_name(Icon::Bookmarks) == seq!['b', 'o', 'o', 'k', 'm', 'a', 'r', 'k', 's'],
        spec_name(Icon::Layers) == seq!['l', 'a', 'y', 'e', 'r', 's'],
        spec_name(Icon::Signatures) == seq!['s', 'i', 'g', 'n', 'a', 't', 'u', 'r', 'e', 's'],
        spec_name(Icon::Fonts) == seq!['f', 'o', 'n', 't', 's'],
        spec_name(Icon::ShapeRect) == seq!['s', 'h', 'a', 'p', 'e', '-', 'r', 'e', 'c', 't'],
        spec_name(Icon::ShapeEllipse) == seq!['s', 'h', 'a', 'p', 'e', '-', 'e', 'l', 'l', 'i', 'p', 's', 'e'],
        spec_name(Icon::ShapeArrow) == seq!['s', 'h', 'a', 'p', 'e', '-', 'a', 'r', 'r', 'o', 'w'],
        spec_name(Icon::ShapeHighlight) == seq!['s', 'h', 'a', 'p', 'e', '-', 'h', 'i', 'g', 'h', 'l', 'i', 'g', 'h', 't'],
        spec_name(Icon::TextFreeText) == seq!['t', 'e', 'x', 't', '-', 'f', 'r', 'e', 'e', 't', 'e', 'x', 't'],
        spec_name(Icon::TextSticky) == seq!['t', 'e', 'x', 't', '-', 's', 't', 'i', 'c', 'k', 'y'],
        spec_name(Icon::Stamp) == seq!['s', 't', 'a', 'm', 'p'],
        spec_name(Icon::Combine) == seq!['c', 'o', 'm', 'b', 'i', 'n', 'e'],
        spec_name(Icon::Split) == seq!['s', 'p', 'l', 'i', 't'],
        spec_name(Icon::InsertPages) == seq!['i', 'n', 's', 'e', 'r', 't', '-', 'p', 'a', 'g', 'e', 's'],
        spec_name(Icon::FontFolders) == seq!['f', 'o', 'n', 't', '-', 'f', 'o', 'l', 'd', 'e', 'r', 's'],
        spec_name(Icon::Redact) == seq!['r', 'e', 'd', 'a', 'c', 't'],
{
}

} // verus!
