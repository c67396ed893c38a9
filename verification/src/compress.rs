//! Lossy-compression configuration.

use vstd::prelude::*;

verus! {

/// The two interchangeable lossy encoding strategies.
#[derive(Clone, Copy, Debug, PartialEq, Eq, Structural)]
pub enum Encoder {
    /// WebP at its native 0-100 lossy quality scale.
    WebP,
    /// Baseline-lossy JPEG; the quality maps directly to the encoder's
    /// native scale.
    MozJpeg,
}

/// The quality a compressor starts with when only an encoder was chosen.
pub const DEFAULT_QUALITY: u8 = 75;

/// Lossy-compression settings: a quality on the conventional 0-100 scale
/// and the encoder variant it is handed to.  Stateless beyond its
/// configuration.
#[derive(Clone, Copy, Debug, PartialEq, Eq, Structural)]
pub struct Compressor {
    pub quality: u8,
    pub encoder: Encoder,
}

impl Compressor {
    /// A compressor at the given quality with the baseline encoder.
    pub fn new(quality: u8) -> (r: Compressor)
        ensures
            r == (Compressor { quality, encoder: Encoder::MozJpeg }),
    {
        Compressor { quality, encoder: Encoder::MozJpeg }
    }

    /// Replaces the quality, keeping the encoder.
    pub fn set_quality(&mut self, quality: u8)
        ensures
            *final(self) == (Compressor { quality, encoder: old(self).encoder }),
    {
        self.quality = quality;
    }

    /// Replaces the encoder, keeping the quality.
    pub fn set_encoder(&mut self, encoder: Encoder)
        ensures
            *final(self) == (Compressor { quality: old(self).quality, encoder }),
    {
        self.encoder = encoder;
    }
}

} // verus!
