//! The knobs of one conversion request.

use vstd::prelude::*;

verus! {

/// How a video is sampled, scaled and encoded into an animated WebP.
#[derive(Debug)]
pub struct ConversionSettings {
    /// Frames per second to sample from the source.
    pub fps: u32,
    /// Size in pixels given to the longer side of the output.
    pub max_dimension: u32,
    /// Upper bound on the number of encoded frames.
    pub max_frames: u32,
    /// Encoder quality scale.
    pub quality: u32,
    /// Encoder compression effort.
    pub compression_level: u32,
    /// Whether an existing output file may be replaced.
    pub overwrite: bool,
}

impl ConversionSettings {
    /// The settings used when the caller chooses none.
    pub open spec fn standard() -> ConversionSettings {
        ConversionSettings {
            fps: 10,
            max_dimension: 540,
            max_frames: 30,
            quality: 55,
            compression_level: 6,
            overwrite: false,
        }
    }
}

impl Default for ConversionSettings {
    fn default() -> (settings: Self)
        ensures
            settings == ConversionSettings::standard(),
    {
        ConversionSettings {
            fps: 10,
            max_dimension: 540,
            max_frames: 30,
            quality: 55,
            compression_level: 6,
            overwrite: false,
        }
    }
}

} // verus!
