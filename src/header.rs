use vstd::prelude::*;

use crate::settings::SeiSettings;

verus! {

/// The fixed-size header in front of the pixel data.
#[derive(Debug, Clone, Copy, PartialEq, Eq, Structural)]
pub struct SeiHeader {
    pub version: u8,
    /// Offset to the start of the image data
    /// uses usize to be used as an index for the byte array
    pub data_offset: usize,
    pub width: u16,
    pub height: u16,
    pub settings: SeiSettings,
    /// Stacking priority; its order is the caller's to define.
    pub z_index: u8,
}

/// Bytes of a row of `width` samples of `bits` bits, rounded up to a whole byte.
pub open spec fn row_bytes(bits: nat, width: nat) -> nat {
    (bits * width + 7) / 8
}

impl SeiHeader {
    pub open spec fn nbits(self) -> nat {
        self.settings.bit_depth.nbits() as nat
    }

    /// Bytes in each row of pixel data.
    pub open spec fn row_len(self) -> nat {
        row_bytes(self.nbits(), self.width as nat)
    }

    /// Bytes of pixel data that the header's geometry asks for.
    pub open spec fn data_len(self) -> nat {
        self.row_len() * (self.height as nat)
    }

    /// Pixels stored in each row, padding included.
    pub open spec fn spec_data_width(self) -> nat {
        if self.settings.padding.is_padded() {
            self.row_len() * (8nat / self.nbits())
        } else {
            self.width as nat
        }
    }

    /// Bytes per stored row, derived from `data_width`: the size of the
    /// chunks that the pixel data is cut into.
    pub open spec fn stride_bytes(self) -> nat {
        self.spec_data_width() * self.nbits() / 8
    }

    pub fn bit_depth(&self) -> (r: u32)
        ensures
            r == self.nbits(),
    {
        self.settings.bit_depth.bits()
    }

    pub fn pixels_per_byte(&self) -> (r: u32)
        ensures
            r == 8nat / self.nbits(),
    {
        8 / self.bit_depth()
    }

    /// Width of data based on the padding
    pub fn data_width(&self) -> (r: u32)
        ensures
            r == self.spec_data_width(),
    {
        if self.settings.padding.padding() {
            let bits = self.bit_depth();
            let width = self.width as u32;
            assert(bits * width <= 4 * 65535) by (nonlinear_arith)
                requires
                    bits <= 4,
                    width <= 65535,
            ;
            let row = (bits * width + 7) / 8;
            let ppb = self.pixels_per_byte();
            assert(row * ppb <= 32768 * 8) by (nonlinear_arith)
                requires
                    row <= 32768,
                    ppb <= 8,
            ;
            row * ppb
        } else {
            self.width as u32
        }
    }
}

} // verus!
