use vstd::prelude::*;

use crate::error::SeiError;
use crate::header::SeiHeader;
use crate::settings::{settings_of, BitDepth, Padding, SeiSettings};

verus! {

/// Size of the fixed header in bytes.
pub const HEADER_LEN: usize = 10;

/// The identifier that opens every image: ASCII `S`, then ASCII `E`.
pub const MAGIC_FIRST: u8 = 0x53;
pub const MAGIC_SECOND: u8 = 0x45;

/// A checked header together with the pixel data that follows it, borrowed
/// from the caller's buffer.
#[derive(Copy, Clone, Eq, PartialEq, Debug)]
pub struct RawSei<'a> {
    pub header: SeiHeader,
    pub img_data: &'a [u8],
}

/// A little-endian 16-bit integer from two bytes.
pub open spec fn le_u16(lo: u8, hi: u8) -> u16 {
    (lo + 256 * hi) as u16
}

/// The header fields as stored in `bytes`, with `settings` already decoded.
pub open spec fn header_of(bytes: Seq<u8>, settings: SeiSettings) -> SeiHeader {
    SeiHeader {
        version: bytes[2],
        data_offset: bytes[3] as usize,
        width: le_u16(bytes[4], bytes[5]),
        height: le_u16(bytes[6], bytes[7]),
        settings,
        z_index: bytes[9],
    }
}

/// What a byte buffer decodes to: the header and the pixel data, or the first
/// check that fails, in this order: header size, magic bytes, settings byte,
/// data offset, length of the pixel data.
pub open spec fn parse_spec(bytes: Seq<u8>) -> Result<(SeiHeader, Seq<u8>), SeiError> {
    if bytes.len() < HEADER_LEN {
        Err(SeiError::UnreadableFile)
    } else if bytes[0] != MAGIC_FIRST || bytes[1] != MAGIC_SECOND {
        Err(SeiError::IncorrectMagicBytes)
    } else if settings_of(bytes[8]) is Err {
        Err(settings_of(bytes[8])->Err_0)
    } else if bytes[3] > bytes.len() {
        Err(SeiError::InvalidDataOffset)
    } else {
        let header = header_of(bytes, settings_of(bytes[8])->Ok_0);
        let actual = bytes.len() - bytes[3];
        if actual != header.data_len() {
            Err(SeiError::IncorrectLength(actual as usize, header.data_len() as usize))
        } else {
            Ok((header, bytes.subrange(bytes[3] as int, bytes.len() as int)))
        }
    }
}

/// `r` is what parsing `bytes` gives.
pub open spec fn parsed_as<'a>(bytes: Seq<u8>, r: Result<RawSei<'a>, SeiError>) -> bool {
    match r {
        Ok(v) => parse_spec(bytes) == Ok::<(SeiHeader, Seq<u8>), SeiError>((v.header, v.img_data@)),
        Err(e) => parse_spec(bytes) == Err::<(SeiHeader, Seq<u8>), SeiError>(e),
    }
}

impl<'a> RawSei<'a> {
    /// A view that the pixel walk can read: one bit per pixel, padded rows,
    /// and exactly the pixel data that the geometry asks for.
    pub open spec fn wf(self) -> bool {
        &&& self.header.settings.bit_depth == BitDepth::OneBit
        &&& self.header.settings.padding == Padding::Padding
        &&& self.img_data@.len() == self.header.data_len()
    }

    pub fn parse(bytes: &'a [u8]) -> (r: Result<Self, SeiError>)
        ensures
            parsed_as(bytes@, r),
            r is Ok ==> r->Ok_0.wf(),
    {
        if bytes.len() < HEADER_LEN {
            return Err(SeiError::UnreadableFile);
        }
        if bytes[0] != MAGIC_FIRST || bytes[1] != MAGIC_SECOND {
            return Err(SeiError::IncorrectMagicBytes);
        }

        let version = bytes[2];
        let data_offset = bytes[3] as usize;

        let width = bytes[4] as u16 + bytes[5] as u16 * 256;
        let height = bytes[6] as u16 + bytes[7] as u16 * 256;
        let settings = match SeiSettings::parse(bytes[8]) {
            Ok(s) => s,
            Err(e) => return Err(e),
        };
        let z_index = bytes[9];

        if data_offset > bytes.len() {
            return Err(SeiError::InvalidDataOffset);
        }

        let header = SeiHeader { version, data_offset, width, height, settings, z_index };
        assert(header == header_of(bytes@, settings));

        let bits = settings.bit_depth.bits() as usize;
        let w = width as usize;
        let h = height as usize;
        assert(bits * w <= 4 * 65535) by (nonlinear_arith)
            requires
                bits <= 4,
                w <= 65535,
        ;
        let row = (bits * w + 7) / 8;
        assert(row * h <= 32768 * 65535) by (nonlinear_arith)
            requires
                row <= 32768,
                h <= 65535,
        ;
        let expected = row * h;
        assert(expected == header.data_len());
        let actual = bytes.len() - data_offset;
        if expected != actual {
            return Err(SeiError::IncorrectLength(actual, expected));
        }

        let (_, data) = bytes.split_at(data_offset);

        Ok(RawSei { header, img_data: data })
    }

    pub fn width(&self) -> (r: u32)
        ensures
            r == self.header.width,
    {
        self.header.width as u32
    }

    pub fn height(&self) -> (r: u32)
        ensures
            r == self.header.height,
    {
        self.header.height as u32
    }

    pub fn pixels_per_byte(&self) -> (r: u32)
        ensures
            r == 8nat / self.header.nbits(),
    {
        8 / self.header.settings.bit_depth.bits()
    }

    pub fn bit_depth(&self) -> (r: u32)
        ensures
            r == self.header.nbits(),
    {
        self.header.bit_depth()
    }

    /// Get the number of pixels used including padding.
    pub fn data_width(&self) -> (r: u32)
        ensures
            r == self.header.spec_data_width(),
    {
        self.header.data_width()
    }
}

/// Padded rows hold a whole number of bytes, so `data_width` pixels of the
/// header's depth fill exactly `row_len` bytes.
pub proof fn lemma_padded_stride(header: SeiHeader)
    requires
        header.settings.padding.is_padded(),
    ensures
        (header.spec_data_width() * header.nbits()) % 8 == 0,
        header.stride_bytes() == header.row_len(),
{
    let row = header.row_len();
    let bits = header.nbits();
    assert(bits == 1 || bits == 2 || bits == 4);
    assert(header.spec_data_width() * bits == row * 8) by (nonlinear_arith)
        requires
            bits == 1 || bits == 2 || bits == 4,
            header.spec_data_width() == row * (8nat / bits),
    ;
    assert((row * 8) % 8 == 0 && (row * 8) / 8 == row) by (nonlinear_arith);
}

/// For every buffer that parses, the row stride re-derived from the header's
/// `data_width` cuts the pixel data into exactly `height` whole rows.
pub proof fn lemma_stride_matches_data(bytes: Seq<u8>)
    requires
        parse_spec(bytes) is Ok,
    ensures
        ({
            let (header, data) = parse_spec(bytes)->Ok_0;
            &&& (header.spec_data_width() * header.nbits()) % 8 == 0
            &&& data.len() == header.stride_bytes() * header.height
        }),
{
    let (header, data) = parse_spec(bytes)->Ok_0;
    lemma_padded_stride(header);
}

/// A buffer whose header passes every other check, but whose pixel data does
/// not have the length that width, height and bit depth ask for, is refused
/// with `IncorrectLength`, carrying the actual and the expected length.
pub proof fn lemma_length_mismatch(bytes: Seq<u8>)
    requires
        bytes.len() >= HEADER_LEN,
        bytes[0] == MAGIC_FIRST,
        bytes[1] == MAGIC_SECOND,
        settings_of(bytes[8]) is Ok,
        bytes[3] <= bytes.len(),
        bytes.len() - bytes[3] != header_of(bytes, settings_of(bytes[8])->Ok_0).data_len(),
    ensures
        parse_spec(bytes) == Err::<(SeiHeader, Seq<u8>), SeiError>(
            SeiError::IncorrectLength(
                (bytes.len() - bytes[3]) as usize,
                header_of(bytes, settings_of(bytes[8])->Ok_0).data_len() as usize,
            ),
        ),
{
}

/// Parsing the same bytes twice gives the same outcome: equal headers and
/// equal pixel data, or the same error.
pub proof fn lemma_parse_idempotent<'a, 'b>(
    bytes: Seq<u8>,
    first: Result<RawSei<'a>, SeiError>,
    second: Result<RawSei<'b>, SeiError>,
)
    requires
        parsed_as(bytes, first),
        parsed_as(bytes, second),
    ensures
        first is Ok <==> second is Ok,
        first is Ok ==> first->Ok_0.header == second->Ok_0.header
            && first->Ok_0.img_data@ == second->Ok_0.img_data@,
        first is Err ==> first == Err::<RawSei<'a>, SeiError>(second->Err_0),
{
}

} // verus!
