//! The print dialog's state, and the spooler seam it reads.
//!
//! The spooler is reached through [`list_printers`] and [`device_features`].
//! In this build no print backend is linked, and both say so by name rather
//! than inventing a printer; the dialog then explains that printing is
//! unavailable instead of offering a job that could not be sent.

use vstd::prelude::*;

use crate::state::OpenDoc;

verus! {

/// Why the spooler cannot be used.
#[derive(Debug, Clone, Copy, PartialEq, Eq, Structural)]
pub enum Unavailable {
    /// No print backend is linked into this build.
    NotLinked,
}

impl Unavailable {
    /// The sentence that explains the refusal.
    pub fn message(&self) -> (s: String)
        ensures
            s@ == unavailable_text(*self),
    {
        match self {
            Unavailable::NotLinked => {
                proof {
                    reveal_strlit("pdfce-print is not linked into this build");
                }
                "pdfce-print is not linked into this build".to_owned()
            },
        }
    }
}

/// The sentence for each refusal.
pub open spec fn unavailable_text(u: Unavailable) -> Seq<char> {
    match u {
        Unavailable::NotLinked => "pdfce-print is not linked into this build"@,
    }
}

/// One printer the spooler reports.
#[derive(Debug, Clone, PartialEq, Eq)]
pub struct Printer {
    /// The name the spooler knows it by.
    pub name: String,
    /// The driver it uses.
    pub driver: String,
    /// The port it is attached to.
    pub port: String,
    /// Whether it is the system's default printer.
    pub is_default: bool,
}

/// What a printer can do that the dialog offers controls for.
#[derive(Debug, Clone, Copy, PartialEq, Eq, Default, Structural)]
pub struct DeviceFeatures {
    /// Whether it prints on both sides.
    pub supports_duplex: bool,
    /// The most copies it accepts in one job; zero when it does not say.
    pub max_copies: u16,
}

/// Features of a printer that reported none.
pub open spec fn no_features() -> DeviceFeatures {
    DeviceFeatures { supports_duplex: false, max_copies: 0 }
}

/// Which way a sheet is turned.
#[derive(Debug, Clone, Copy, PartialEq, Eq, Default, Structural)]
pub enum Orientation {
    /// Follow each page's own shape.
    #[default]
    Auto,
    /// Taller than wide.
    Portrait,
    /// Wider than tall.
    Landscape,
}

/// Whether and how both sides of a sheet are used.
#[derive(Debug, Clone, Copy, PartialEq, Eq, Default, Structural)]
pub enum Duplex {
    /// One side only.
    #[default]
    Simplex,
    /// Both sides, turned on the long edge.
    LongEdge,
    /// Both sides, turned on the short edge.
    ShortEdge,
}

/// The settings sent to the device with a job.
#[derive(Debug, Clone, Copy, PartialEq, Eq, Default, Structural)]
pub struct DeviceSettings {
    /// Sheet orientation.
    pub orientation: Orientation,
    /// Duplex mode.
    pub duplex: Duplex,
    /// Whether the tray is chosen by each page's size.
    pub pick_tray_by_page_size: bool,
}

/// Settings nobody has changed.
pub open spec fn default_device() -> DeviceSettings {
    DeviceSettings {
        orientation: Orientation::Auto,
        duplex: Duplex::Simplex,
        pick_tray_by_page_size: false,
    }
}

/// Which pages of the chosen range are printed.
#[derive(Debug, Clone, Copy, PartialEq, Eq, Default, Structural)]
pub enum PageSubset {
    /// Every page.
    #[default]
    All,
    /// Odd pages only.
    Odd,
    /// Even pages only.
    Even,
}

/// Which pages of the document a job prints.
#[derive(Debug, Clone, Copy, PartialEq, Eq, Structural)]
pub enum PrintRange {
    /// Every page.
    All,
    /// The page on the canvas.
    Current,
    /// The pages typed in the range field.
    Pages,
}

/// How a page is fitted to the sheet.
#[derive(Debug, Clone, Copy, PartialEq, Eq, Structural)]
pub enum ScaleMode {
    /// Scaled to fit the printable area.
    Fit,
    /// At its own size.
    ActualSize,
    /// At its own size unless it is too large, then fitted.
    ShrinkOversized,
    /// At the percentage in [`PrintDialog::custom_percent`].
    Custom,
}

/// What the spooler reported of a job it took.
#[derive(Debug, PartialEq, Eq)]
pub struct SpoolReport {
    /// How many sheets were sent.
    pub pages: usize,
    /// Whether the device confirmed printing.
    pub printed: bool,
    /// The device resolution the job ran at.
    pub dpi: (i32, i32),
    /// How many pages were clipped to the printable area.
    pub clipped_pages: usize,
    /// The spooler's job number, when it gave one.
    pub job_id: Option<u32>,
}

/// The printers the spooler knows, or why it cannot be asked.
pub fn list_printers() -> (r: Result<Vec<Printer>, Unavailable>)
    ensures
        r == Err::<Vec<Printer>, Unavailable>(Unavailable::NotLinked),
{
    Err(Unavailable::NotLinked)
}

/// What the named printer can do, or why the spooler cannot be asked.
pub fn device_features(printer: &str) -> (r: Result<DeviceFeatures, Unavailable>)
    ensures
        r == Err::<DeviceFeatures, Unavailable>(Unavailable::NotLinked),
{
    Err(Unavailable::NotLinked)
}

/// Where the default printer sits in a listing: the first one marked
/// default, or the first printer when none is.
pub open spec fn default_position(printers: Seq<Printer>) -> int {
    if exists|i: int| 0 <= i < printers.len() && (#[trigger] printers[i]).is_default {
        choose|i: int|
            0 <= i < printers.len() && (#[trigger] printers[i]).is_default && forall|j: int|
                0 <= j < i ==> !(#[trigger] printers[j]).is_default
    } else {
        0
    }
}

/// A print dialog as it opens in this build: the spooler refused, so there
/// are no printers, and every job setting is at its default.
pub open spec fn print_just_opened(d: PrintDialog) -> bool {
    &&& d.unavailable == Some(Unavailable::NotLinked)
    &&& d.printers@.len() == 0
    &&& d.selected == 0
    &&& d.features == no_features()
    &&& d.features_for is None
    &&& d.range == PrintRange::All
    &&& d.range_text@.len() == 0
    &&& d.scale == ScaleMode::Fit
    &&& d.outcome is None
    &&& d.custom_percent == 100
    &&& d.max_dpi == 300
    &&& d.device == default_device()
    &&& d.subset == PageSubset::All
    &&& !d.reverse
    &&& d.copies == 1
    &&& !d.uncollated
    &&& d.preview_page == 0
    &&& !d.commit_requested
    &&& !d.close_requested
}

/// The first printer marked default, if any is.
fn first_default(printers: &Vec<Printer>) -> (r: Option<usize>)
    ensures
        r matches Some(i) ==> i < printers@.len() && printers@[i as int].is_default && forall|j: int|
            0 <= j < i ==> !(#[trigger] printers@[j]).is_default,
        r is None ==> forall|j: int| 0 <= j < printers@.len() ==> !(#[trigger] printers@[j]).is_default,
{
    let mut i: usize = 0;
    while i < printers.len()
        invariant
            0 <= i <= printers@.len(),
            forall|j: int| 0 <= j < i ==> !(#[trigger] printers@[j]).is_default,
        decreases printers@.len() - i,
    {
        if printers[i].is_default {
            return Some(i);
        }
        i += 1;
    }
    None
}

/// The state of one print transaction.
pub struct PrintDialog {
    /// Why the spooler could not be asked, when it could not.
    pub unavailable: Option<Unavailable>,
    /// The printers it reported.
    pub printers: Vec<Printer>,
    /// Which of them is chosen.
    pub selected: usize,
    /// What the chosen printer can do.
    pub features: DeviceFeatures,
    /// Which pages are printed.
    pub range: PrintRange,
    /// The page range typed for [`PrintRange::Pages`].
    pub range_text: String,
    /// How pages are fitted to the sheet.
    pub scale: ScaleMode,
    /// What became of the last job sent: the spooler's report, or why it
    /// failed.
    pub outcome: Option<Result<SpoolReport, String>>,
    /// Which printer [`PrintDialog::features`] was read for, so that it is
    /// asked again only when the choice changes.
    pub features_for: Option<usize>,
    /// The percentage a custom scale is typed in.
    pub custom_percent: u32,
    /// The highest resolution a page is rendered at.
    pub max_dpi: u32,
    /// Device settings.
    pub device: DeviceSettings,
    /// Odd, even or all pages.
    pub subset: PageSubset,
    /// Whether the pages go out last first.
    pub reverse: bool,
    /// How many copies.
    pub copies: u16,
    /// Whether copies come out one page at a time.
    pub uncollated: bool,
    /// Which planned sheet the preview shows.
    pub preview_page: usize,
    /// Set by the Print button; the job is sent after the frame is drawn.
    pub commit_requested: bool,
    /// Set by the Close button.
    pub close_requested: bool,
}

impl PrintDialog {
    /// Build the dialog from what the spooler answered.
    pub fn from_listing(listing: Result<Vec<Printer>, Unavailable>) -> (d: PrintDialog)
        ensures
            d.unavailable == (match listing {
                Ok(_) => None,
                Err(e) => Some(e),
            }),
            d.printers@ == (match listing {
                Ok(p) => p@,
                Err(_) => Seq::<Printer>::empty(),
            }),
            d.selected == default_position(d.printers@),
            d.features == no_features(),
            d.features_for is None,
            d.range == PrintRange::All,
            d.range_text@.len() == 0,
            d.scale == ScaleMode::Fit,
            d.outcome is None,
            d.custom_percent == 100,
            d.max_dpi == 300,
            d.device == default_device(),
            d.subset == PageSubset::All,
            !d.reverse,
            d.copies == 1,
            !d.uncollated,
            d.preview_page == 0,
            !d.commit_requested,
            !d.close_requested,
    {
        let (unavailable, printers) = match listing {
            Ok(p) => (None, p),
            Err(e) => (Some(e), Vec::new()),
        };
        let selected = match first_default(&printers) {
            Some(i) => i,
            None => 0,
        };
        proof {
            let s = printers@;
            if exists|k: int| 0 <= k < s.len() && (#[trigger] s[k]).is_default {
                let c = default_position(s);
                assert(0 <= c < s.len() && s[c].is_default && forall|j: int|
                    0 <= j < c ==> !(#[trigger] s[j]).is_default);
                if c < selected {
                    assert(!s[c].is_default);
                }
                if selected < c {
                    assert(!s[selected as int].is_default);
                }
            }
        }
        PrintDialog {
            unavailable,
            printers,
            selected,
            features: DeviceFeatures { supports_duplex: false, max_copies: 0 },
            features_for: None,
            range: PrintRange::All,
            range_text: String::new(),
            scale: ScaleMode::Fit,
            outcome: None,
            custom_percent: 100,
            max_dpi: 300,
            device: DeviceSettings {
                orientation: Orientation::Auto,
                duplex: Duplex::Simplex,
                pick_tray_by_page_size: false,
            },
            subset: PageSubset::All,
            reverse: false,
            copies: 1,
            uncollated: false,
            preview_page: 0,
            commit_requested: false,
            close_requested: false,
        }
    }

    /// Open the dialog for a document: ask the spooler for its printers and
    /// build the dialog from the answer. Nothing about the document is kept;
    /// the job reads its pages when it is sent.
    pub fn open(doc: &OpenDoc) -> (d: PrintDialog)
        ensures
            print_just_opened(d),
    {
        let listing = list_printers();
        Self::from_listing(listing)
    }

    /// Read the chosen printer's features, unless they were read for the
    /// same choice already. A printer that cannot be asked, or a choice past
    /// the end of the list, has no features.
    pub fn refresh_features(&mut self)
        ensures
            final(self).features_for == Some(old(self).selected),
            old(self).features_for == Some(old(self).selected) ==> final(self).features == old(
                self,
            ).features,
            old(self).features_for != Some(old(self).selected) ==> final(self).features
                == no_features(),
            *final(self) == (PrintDialog {
                features: final(self).features,
                features_for: final(self).features_for,
                ..*old(self)
            }),
    {
        if self.features_for == Some(self.selected) {
            return;
        }
        let features = if self.selected < self.printers.len() {
            match device_features(self.printers[self.selected].name.as_str()) {
                Ok(f) => f,
                Err(_) => DeviceFeatures { supports_duplex: false, max_copies: 0 },
            }
        } else {
            DeviceFeatures { supports_duplex: false, max_copies: 0 }
        };
        self.features = features;
        self.features_for = Some(self.selected);
    }

    /// Whether the window stays up after a frame: while it is open and its
    /// Close button was not pressed.
    pub fn stays_open(&self, window_open: bool) -> (r: bool)
        ensures
            r == (window_open && !self.close_requested),
    {
        window_open && !self.close_requested
    }
}

} // verus!
