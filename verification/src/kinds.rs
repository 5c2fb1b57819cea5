//! Value types describing decode-time configuration and colour-channel
//! selection, and their translation to the foreign enumeration codes.
//!
//! Each enumeration is closed but keeps one fallback variant carrying a raw
//! foreign code, so a foreign value this layer has not yet named never forces
//! a failure.

use vstd::prelude::*;

verus! {

/// One named component of a decoded raster.
#[derive(Copy, Clone, Debug, PartialEq, Eq, Structural)]
pub enum Channel {
    Y,
    Cb,
    Cr,
    R,
    G,
    B,
    Alpha,
    Interleaved,
}

/// The sample layout of a decoded raster.
#[derive(Copy, Clone, Debug, PartialEq, Eq, Structural)]
pub enum Chroma {
    Undefined,
    Monochrome,
    C420,
    C422,
    C444,
    InterleavedRgb,
    InterleavedRgba,
    Other(u32),
}

/// The colour space of a decoded raster.
#[derive(Copy, Clone, Debug, PartialEq, Eq, Structural)]
pub enum ColourSpace {
    Undefined,
    YCbCr,
    Rgb,
    Monochrome,
    Other(u32),
}

/// The colour space and chroma a caller requests for one decode.
#[derive(Copy, Clone, Debug, PartialEq, Eq, Structural)]
pub struct DecoderSettings {
    pub chroma: Chroma,
    pub colour_space: ColourSpace,
}

impl Channel {
    /// The foreign enumeration code of this channel.
    pub open spec fn to_native_spec(self) -> u32 {
        match self {
            Channel::Y => 0,
            Channel::Cb => 1,
            Channel::Cr => 2,
            Channel::R => 3,
            Channel::G => 4,
            Channel::B => 5,
            Channel::Alpha => 6,
            Channel::Interleaved => 10,
        }
    }

    pub fn to_native(&self) -> (r: u32)
        ensures
            r == self.to_native_spec(),
    {
        match self {
            Channel::Y => 0,
            Channel::Cb => 1,
            Channel::Cr => 2,
            Channel::R => 3,
            Channel::G => 4,
            Channel::B => 5,
            Channel::Alpha => 6,
            Channel::Interleaved => 10,
        }
    }
}

impl Chroma {
    /// The foreign enumeration code of this chroma; the fallback variant
    /// carries its code raw.
    pub open spec fn to_native_spec(self) -> u32 {
        match self {
            Chroma::Undefined => 99,
            Chroma::Monochrome => 0,
            Chroma::C420 => 1,
            Chroma::C422 => 2,
            Chroma::C444 => 3,
            Chroma::InterleavedRgb => 10,
            Chroma::InterleavedRgba => 11,
            Chroma::Other(raw) => raw,
        }
    }

    pub fn to_native(&self) -> (r: u32)
        ensures
            r == self.to_native_spec(),
    {
        match self {
            Chroma::Undefined => 99,
            Chroma::Monochrome => 0,
            Chroma::C420 => 1,
            Chroma::C422 => 2,
            Chroma::C444 => 3,
            Chroma::InterleavedRgb => 10,
            Chroma::InterleavedRgba => 11,
            Chroma::Other(raw) => *raw,
        }
    }
}

impl ColourSpace {
    /// The foreign enumeration code of this colour space; the fallback
    /// variant carries its code raw.
    pub open spec fn to_native_spec(self) -> u32 {
        match self {
            ColourSpace::Undefined => 99,
            ColourSpace::YCbCr => 0,
            ColourSpace::Rgb => 1,
            ColourSpace::Monochrome => 2,
            ColourSpace::Other(raw) => raw,
        }
    }

    pub fn to_native(&self) -> (r: u32)
        ensures
            r == self.to_native_spec(),
    {
        match self {
            ColourSpace::Undefined => 99,
            ColourSpace::YCbCr => 0,
            ColourSpace::Rgb => 1,
            ColourSpace::Monochrome => 2,
            ColourSpace::Other(raw) => *raw,
        }
    }
}

impl DecoderSettings {
    /// The interleaved-RGB default: one packed RGB raster.
    pub fn interleaved_rgb() -> (r: DecoderSettings)
        ensures
            r.chroma == Chroma::InterleavedRgb,
            r.colour_space == ColourSpace::Rgb,
    {
        DecoderSettings { chroma: Chroma::InterleavedRgb, colour_space: ColourSpace::Rgb }
    }
}

} // verus!
