//! The images that enter the pipeline, and the settings that every stage is
//! handed.

use vstd::prelude::*;

verus! {

/// A sensor image as a decoder left it: samples still in sensor units, with
/// the calibration that the decoder resolved.
#[derive(Clone, Debug, PartialEq, Eq)]
pub struct RawImage {
    /// Width in pixels.
    pub width: usize,
    /// Height in pixels.
    pub height: usize,
    /// Samples per pixel.
    pub cpp: usize,
    /// Margins to crop: top, right, bottom, left.
    pub crops: [usize; 4],
    /// Black level of each channel.
    pub blacklevels: [u16; 4],
    /// White level of each channel.
    pub whitelevels: [u16; 4],
    /// The image carries a valid colour filter array: it is a mosaic that
    /// has not been demosaiced.
    pub cfa_valid: bool,
    /// The samples, row-major, `width * cpp` to a row.
    pub data: Vec<u16>,
}

/// A decoded image in its canonical form: three 16-bit channels per pixel,
/// red, green, blue.
#[derive(Clone, Debug, PartialEq, Eq)]
pub struct OtherImage {
    /// Width in pixels.
    pub width: usize,
    /// Height in pixels.
    pub height: usize,
    /// The samples, row-major, `width * 3` to a row.
    pub data: Vec<u16>,
}

/// What a pipeline runs on.
#[derive(Clone, Debug, PartialEq, Eq)]
pub enum ImageSource {
    /// A sensor image.
    Raw(RawImage),
    /// An image that was already decoded for display.
    Other(OtherImage),
}

/// Settings of one pipeline run.
#[derive(Clone, Copy, Debug, PartialEq, Eq)]
pub struct PipelineSettings {
    /// Stages may take a shorter route that skips normalisation where the
    /// calibration changes nothing.
    pub use_fastpath: bool,
}

/// What every stage of a pipeline run is handed, read-only.
#[derive(Clone, Debug, PartialEq, Eq)]
pub struct PipelineGlobals {
    /// The image that the pipeline runs on.
    pub image: ImageSource,
    /// The settings of the run.
    pub settings: PipelineSettings,
}

} // verus!
