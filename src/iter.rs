use vstd::prelude::*;
use vstd::slice::slice_subrange;

use embedded_graphics::iterator::raw::RawDataSlice;
use embedded_graphics::pixelcolor::raw::{LittleEndian, RawData, RawU1};

use crate::header::SeiHeader;
use crate::raw_sei::{lemma_padded_stride, RawSei};

verus! {

/// The one-bit sample at position `k` of `row`: bit `7 - k % 8` of byte
/// `k / 8`, so each byte gives its most significant bit first.
pub open spec fn bit_sample(row: Seq<u8>, k: int) -> u8 {
    (row[k / 8] >> ((7 - k % 8) as u8)) & 1u8
}

/// The stored bytes of row `y`.
pub open spec fn row_data<'a>(sei: RawSei<'a>, y: int) -> Seq<u8> {
    let stride = sei.header.stride_bytes() as int;
    sei.img_data@.subrange(y * stride, y * stride + stride)
}

/// The raw sample of the pixel in column `x` of row `y`.
pub open spec fn pixel<'a>(sei: RawSei<'a>, x: int, y: int) -> u8 {
    bit_sample(row_data(sei, y), x)
}

/// Number of pixels in the image.
pub open spec fn pixel_count(header: SeiHeader) -> nat {
    header.width as nat * header.height as nat
}

/// The `i`-th pixel in row-major order, padding left out.
pub open spec fn pixel_at<'a>(sei: RawSei<'a>, i: int) -> u8 {
    pixel(sei, i % (sei.header.width as int), i / (sei.header.width as int))
}

/// Relies on embedded-graphics' iterator over `RawDataSlice<RawU1, _>`: it
/// yields one sample for each bit of `row`, each byte's most significant bit
/// first, and `RawU1::into_inner` gives that bit as `0` or `1`.
#[verifier::external_body]
fn unpack_bits(row: &[u8]) -> (r: Vec<u8>)
    ensures
        r@.len() == 8 * row@.len(),
        forall|k: int| 0 <= k < r@.len() ==> #[trigger] r@[k] == bit_sample(row@, k),
{
    RawDataSlice::<RawU1, LittleEndian>::new(row).into_iter().map(|s| s.into_inner()).collect()
}

/// Walks the pixels of a view row by row, left to right, and yields the raw
/// sample of each; the padding at the end of a row is stepped over.
pub struct Pixels<'a> {
    sei: RawSei<'a>,
    /// Bytes per stored row.
    stride: usize,
    /// Samples of the row being read, padding included.
    current_row: Vec<u8>,
    /// Rows loaded so far.
    rows_read: usize,
    /// Column of the next pixel in `current_row`.
    column: usize,
    /// Pixels yielded so far.
    position: usize,
}

impl<'a> Pixels<'a> {
    /// The view being walked.
    pub closed spec fn source(&self) -> RawSei<'a> {
        self.sei
    }

    /// How many pixels have been yielded.
    pub closed spec fn position(&self) -> nat {
        self.position as nat
    }

    pub closed spec fn wf(&self) -> bool {
        let w = self.sei.header.width as int;
        &&& self.sei.wf()
        &&& self.stride == self.sei.header.stride_bytes()
        &&& self.stride == self.sei.header.row_len()
        &&& self.rows_read <= self.sei.header.height
        &&& self.column <= w
        &&& self.position + w == self.rows_read * w + self.column
        &&& self.position <= pixel_count(self.sei.header)
        &&& self.rows_read > 0 ==> {
            &&& self.current_row@.len() == 8 * self.stride
            &&& forall|k: int|
                0 <= k < self.current_row@.len() ==> #[trigger] self.current_row@[k] == bit_sample(
                    row_data(self.sei, self.rows_read - 1),
                    k,
                )
        }
    }

    pub fn new(sei: RawSei<'a>) -> (r: Self)
        requires
            sei.wf(),
        ensures
            r.wf(),
            r.source() == sei,
            r.position() == 0,
    {
        let stride = (sei.data_width() as usize) * (sei.bit_depth() as usize) / 8;
        proof {
            lemma_padded_stride(sei.header);
        }
        Pixels {
            sei,
            stride,
            current_row: Vec::new(),
            rows_read: 0,
            column: sei.header.width as usize,
            position: 0,
        }
    }

    /// The next pixel's raw sample, or `None` once every pixel was yielded.
    pub fn next(&mut self) -> (r: Option<u8>)
        requires
            old(self).wf(),
        ensures
            final(self).wf(),
            final(self).source() == old(self).source(),
            final(self).position() <= pixel_count(final(self).source().header),
            old(self).position() < pixel_count(old(self).source().header) ==> {
                &&& r == Some(pixel_at(old(self).source(), old(self).position() as int))
                &&& final(self).position() == old(self).position() + 1
            },
            old(self).position() >= pixel_count(old(self).source().header) ==> {
                &&& r is None
                &&& final(self).position() == old(self).position()
            },
    {
        let w = self.sei.header.width as usize;
        let h = self.sei.header.height as usize;
        assert(w * h <= 65535 * 65535) by (nonlinear_arith)
            requires
                w <= 65535,
                h <= 65535,
        ;
        let total = w * h;
        if self.position >= total {
            return None;
        }
        assert(w > 0) by (nonlinear_arith)
            requires
                self.position < total,
                total == w * h,
        ;
        if self.column == w {
            let row = self.rows_read;
            proof {
                assert(row * w < h * w);
                assert(row < h) by (nonlinear_arith)
                    requires
                        row * w < h * w,
                ;
                assert((row + 1) * self.stride <= h * self.stride) by (nonlinear_arith)
                    requires
                        row < h,
                ;
                assert(h * self.stride == self.sei.header.row_len() * (self.sei.header.height as nat))
                    by (nonlinear_arith)
                    requires
                        h == self.sei.header.height,
                        self.stride == self.sei.header.row_len(),
                ;
                assert((row + 1) * self.stride == row * self.stride + self.stride) by (nonlinear_arith);
            }
            let len = self.sei.img_data.len();
            assert(row * self.stride + self.stride <= len);
            let start = row * self.stride;
            let bytes = slice_subrange(self.sei.img_data, start, start + self.stride);
            self.current_row = unpack_bits(bytes);
            self.rows_read = row + 1;
            self.column = 0;
            assert((row + 1) * w == row * w + w) by (nonlinear_arith);
        }
        let ghost i = self.position as int;
        proof {
            let wi = w as int;
            let y = self.rows_read - 1;
            let stride = self.stride as int;
            assert(self.column < wi);
            assert(self.rows_read > 0) by (nonlinear_arith)
                requires
                    self.position + wi == self.rows_read * wi + self.column,
                    self.column < wi,
                    self.position >= 0,
            ;
            assert(i == y * wi + self.column) by (nonlinear_arith)
                requires
                    i + wi == self.rows_read * wi + self.column,
                    y == self.rows_read - 1,
            ;
            assert(stride == (wi + 7) / 8) by (nonlinear_arith)
                requires
                    stride == (self.sei.header.nbits() * wi + 7) / 8,
                    self.sei.header.nbits() == 1,
            ;
            assert(wi <= 8 * stride) by (nonlinear_arith)
                requires
                    stride == (wi + 7) / 8,
            ;
            assert(i % wi == self.column as int && i / wi == y) by (nonlinear_arith)
                requires
                    i == y * wi + self.column,
                    0 <= self.column < wi,
                    0 <= y,
            ;
        }
        let s = self.current_row[self.column];
        self.column = self.column + 1;
        self.position = self.position + 1;
        Some(s)
    }
}

impl<'a> RawSei<'a> {
    /// Every pixel's raw sample, row by row and left to right, without the
    /// padding at the end of each row.
    pub fn samples(&self) -> (r: Vec<u8>)
        requires
            self.wf(),
        ensures
            r@.len() == pixel_count(self.header),
            forall|i: int| 0 <= i < r@.len() ==> #[trigger] r@[i] == pixel_at(*self, i),
    {
        let mut pixels = Pixels::new(*self);
        let mut out: Vec<u8> = Vec::new();
        loop
            invariant
                pixels.wf(),
                pixels.source() == *self,
                out@.len() == pixels.position(),
                forall|i: int| 0 <= i < out@.len() ==> #[trigger] out@[i] == pixel_at(*self, i),
            ensures
                out@.len() == pixel_count(self.header),
                forall|i: int| 0 <= i < out@.len() ==> #[trigger] out@[i] == pixel_at(*self, i),
            decreases pixel_count(self.header) - pixels.position(),
        {
            match pixels.next() {
                Some(s) => out.push(s),
                None => break,
            }
        }
        out
    }
}

} // verus!
