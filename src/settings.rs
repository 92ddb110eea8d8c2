use vstd::prelude::*;

use crate::error::SeiError;

verus! {

/// Details how to decode the image data or stack it with other files.
///
/// Decoded from one settings byte, low bits first: two bits of bit-depth code,
/// one bit of inversion, one bit of padding (`0` means padded rows), two bits
/// of stacking-mode code and two reserved bits kept as they are.
#[derive(Debug, Clone, Copy, PartialEq, Eq, Structural)]
pub struct SeiSettings {
    pub bit_depth: BitDepth,
    pub invert: bool,
    pub padding: Padding,
    pub stacking_mode: StackingMode,
    /// Reserved bits for future use
    pub unused_bits: u8,
}

/// How many bits are used to represent each pixel.
#[derive(Debug, Clone, Copy, PartialEq, Eq, Structural)]
pub enum BitDepth {
    OneBit,
    /// Unused in the current version of the SEI format
    TwoBits,
    /// Unused in the current version of the SEI format
    FourBits,
}

/// Whether or not each row of pixels should be padded to the next byte boundary.
#[derive(Debug, Clone, Copy, PartialEq, Eq, Structural)]
pub enum Padding {
    Padding,
    NoPadding,
}

/// How the image should be stacked relative to the stack below it.
/// Opaque: no transparency, all pixels overwrite the ones below them.
/// WhiteTransparent: all white pixels act transparent, not overwriting the pixels below them.
/// BlackTransparent: all black pixels act transparent, not overwriting the pixels below them.
#[derive(Debug, Clone, Copy, PartialEq, Eq, Structural)]
pub enum StackingMode {
    Opaque,
    WhiteTransparent,
    BlackTransparent,
}

impl BitDepth {
    /// The number of bits of one pixel.
    pub open spec fn nbits(self) -> u32 {
        match self {
            BitDepth::OneBit => 1,
            BitDepth::TwoBits => 2,
            BitDepth::FourBits => 4,
        }
    }

    /// The two-bit code of this depth in a settings byte.
    pub open spec fn code(self) -> u8 {
        match self {
            BitDepth::OneBit => 0,
            BitDepth::TwoBits => 1,
            BitDepth::FourBits => 2,
        }
    }

    /// What a bit-depth code decodes to: only one bit per pixel is supported.
    pub open spec fn from_code(value: u8) -> Result<BitDepth, SeiError> {
        if value == 0 {
            Ok(BitDepth::OneBit)
        } else {
            Err(SeiError::UnsupportedBitDepth)
        }
    }

    /// Get the number of bits used to represent each pixel.
    pub fn bits(self) -> (r: u32)
        ensures
            r == self.nbits(),
            r == 1 || r == 2 || r == 4,
    {
        match self {
            BitDepth::OneBit => 1,
            BitDepth::TwoBits => 2,
            BitDepth::FourBits => 4,
        }
    }

    pub fn parse(value: u8) -> (r: Result<Self, SeiError>)
        ensures
            r == BitDepth::from_code(value),
    {
        match value {
            0 => Ok(BitDepth::OneBit),
            _ => Err(SeiError::UnsupportedBitDepth),
        }
    }
}

impl Padding {
    /// The settings bit of this option.
    pub open spec fn flag(self) -> u8 {
        match self {
            Padding::Padding => 0,
            Padding::NoPadding => 1,
        }
    }

    pub open spec fn is_padded(self) -> bool {
        self == Padding::Padding
    }

    pub fn parse(value: bool) -> (r: Self)
        ensures
            r.is_padded() == value,
    {
        match value {
            true => Padding::Padding,
            false => Padding::NoPadding,
        }
    }

    pub fn padding(&self) -> (r: bool)
        ensures
            r == self.is_padded(),
    {
        match self {
            Padding::Padding => true,
            Padding::NoPadding => false,
        }
    }
}

impl StackingMode {
    /// The two-bit code of this mode in a settings byte.
    pub open spec fn code(self) -> u8 {
        match self {
            StackingMode::Opaque => 0,
            StackingMode::WhiteTransparent => 1,
            StackingMode::BlackTransparent => 2,
        }
    }

    /// What a stacking-mode code decodes to; code 3 is undefined.
    pub open spec fn from_code(value: u8) -> Result<StackingMode, SeiError> {
        if value == 0 {
            Ok(StackingMode::Opaque)
        } else if value == 1 {
            Ok(StackingMode::WhiteTransparent)
        } else if value == 2 {
            Ok(StackingMode::BlackTransparent)
        } else {
            Err(SeiError::UnsupportedTransparency)
        }
    }

    pub fn parse(value: u8) -> (r: Result<Self, SeiError>)
        ensures
            r == StackingMode::from_code(value),
    {
        match value {
            0 => Ok(StackingMode::Opaque),
            1 => Ok(StackingMode::WhiteTransparent),
            2 => Ok(StackingMode::BlackTransparent),
            _ => Err(SeiError::UnsupportedTransparency),
        }
    }
}

impl Default for BitDepth {
    fn default() -> (r: Self)
        ensures
            r == BitDepth::OneBit,
    {
        BitDepth::OneBit
    }
}

impl Default for Padding {
    fn default() -> (r: Self)
        ensures
            r == Padding::Padding,
    {
        Padding::Padding
    }
}

impl Default for StackingMode {
    fn default() -> (r: Self)
        ensures
            r == StackingMode::Opaque,
    {
        StackingMode::Opaque
    }
}

impl Default for SeiSettings {
    /// The settings of byte `0`: one bit per pixel, not inverted, padded rows,
    /// opaque.
    fn default() -> (r: Self)
        ensures
            r == (SeiSettings {
                bit_depth: BitDepth::OneBit,
                invert: false,
                padding: Padding::Padding,
                stacking_mode: StackingMode::Opaque,
                unused_bits: 0,
            }),
    {
        SeiSettings {
            bit_depth: BitDepth::OneBit,
            invert: false,
            padding: Padding::Padding,
            stacking_mode: StackingMode::Opaque,
            unused_bits: 0,
        }
    }
}

/// The settings byte that `s` stands for.
pub open spec fn settings_byte(s: SeiSettings) -> int {
    s.bit_depth.code() + 4 * (if s.invert { 1int } else { 0 }) + 8 * s.padding.flag() + 16
        * s.stacking_mode.code() + 64 * s.unused_bits
}

/// What a settings byte decodes to. Unpadded rows are refused first, then
/// an unsupported bit depth, then an undefined stacking mode.
pub open spec fn settings_of(b: u8) -> Result<SeiSettings, SeiError> {
    let depth = (b % 4) as u8;
    let invert = (b / 4) % 2 == 1;
    let padded = (b / 8) % 2 == 0;
    let stacking = ((b / 16) % 4) as u8;
    let unused = (b / 64) as u8;
    if !padded {
        Err(SeiError::NoPadding)
    } else if BitDepth::from_code(depth) is Err {
        Err(BitDepth::from_code(depth)->Err_0)
    } else if StackingMode::from_code(stacking) is Err {
        Err(StackingMode::from_code(stacking)->Err_0)
    } else {
        Ok(
            SeiSettings {
                bit_depth: BitDepth::from_code(depth)->Ok_0,
                invert,
                padding: Padding::Padding,
                stacking_mode: StackingMode::from_code(stacking)->Ok_0,
                unused_bits: unused,
            },
        )
    }
}

impl SeiSettings {
    /// Parse the settings from a byte
    pub fn parse(settings: u8) -> (r: Result<Self, SeiError>)
        ensures
            r == settings_of(settings),
            r is Ok ==> settings_byte(r->Ok_0) == settings,
    {
        let bit_depth = settings & 0b11;
        let invert = ((settings >> 2u8) & 0b1) == 1;
        let padding = ((settings >> 3u8) & 0b1) == 0;
        let stacking_mode = (settings >> 4u8) & 0b11;
        let unused_bits = (settings >> 6u8) & 0b11;
        assert(settings & 0b11 == settings % 4 && ((settings >> 2u8) & 0b1) == (settings / 4) % 2
            && ((settings >> 3u8) & 0b1) == (settings / 8) % 2 && (settings >> 4u8) & 0b11 == (
        settings / 16) % 4 && (settings >> 6u8) & 0b11 == settings / 64) by (bit_vector);
        assert(settings == settings % 4 + 4 * ((settings / 4) % 2) + 8 * ((settings / 8) % 2)
            + 16 * ((settings / 16) % 4) + 64 * (settings / 64)) by (bit_vector);

        if !padding {
            return Err(SeiError::NoPadding);
        }
        let bit_depth = match BitDepth::parse(bit_depth) {
            Ok(d) => d,
            Err(e) => return Err(e),
        };
        let stacking_mode = match StackingMode::parse(stacking_mode) {
            Ok(m) => m,
            Err(e) => return Err(e),
        };
        Ok(SeiSettings {
            bit_depth,
            invert,
            stacking_mode,
            padding: Padding::parse(padding),
            unused_bits,
        })
    }
}

} // verus!
