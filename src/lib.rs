//! `sei`: a parser for stacking ePaper images (.SEI).
//!
//! A header of ten bytes is followed by packed rows of pixel data. The library
//! checks a byte buffer once, then walks its pixels and decides, by the image's
//! stacking mode, which of them a compositor draws.

pub mod error;
pub mod header;
pub mod iter;
pub mod raw_sei;
pub mod settings;

use core::marker::PhantomData;

use vstd::arithmetic::div_mod::lemma_fundamental_div_mod;
use vstd::prelude::*;

use crate::error::SeiError;
use crate::iter::{pixel_at, pixel_count};
use crate::raw_sei::{parse_spec, RawSei};
use crate::settings::{BitDepth, StackingMode};

verus! {

/// The color a raw sample stands for once `invert` is applied: `true` is on
/// (black ink), `false` is off (white paper).
pub open spec fn sample_color(sample: u8, invert: bool) -> bool {
    (sample != 0) != invert
}

/// Whether a pixel of raw `sample` is drawn over the layers below, and in
/// which color: `WhiteTransparent` leaves out white pixels, `BlackTransparent`
/// black ones, `Opaque` none.
pub open spec fn shown(sample: u8, invert: bool, mode: StackingMode) -> Option<bool> {
    let on = sample_color(sample, invert);
    let transparent = (mode == StackingMode::WhiteTransparent && !on) || (mode
        == StackingMode::BlackTransparent && on);
    if transparent {
        None
    } else {
        Some(on)
    }
}

/// The pixels among the first `n` (row-major) that are drawn, as
/// `(x, y, color)`, in order.
pub open spec fn shown_prefix<'a>(sei: RawSei<'a>, invert: bool, mode: StackingMode, n: nat) -> Seq<
    (u32, u32, bool),
>
    decreases n,
{
    if n == 0 {
        Seq::empty()
    } else {
        let i = (n - 1) as int;
        let w = sei.header.width as int;
        let rest = shown_prefix(sei, invert, mode, (n - 1) as nat);
        match shown(pixel_at(sei, i), invert, mode) {
            Some(on) => rest.push(((i % w) as u32, (i / w) as u32, on)),
            None => rest,
        }
    }
}

/// Some entry of `s` is at column `x` of row `y`.
pub open spec fn draws_position(s: Seq<(u32, u32, bool)>, x: int, y: int) -> bool {
    exists|k: int| 0 <= k < s.len() && #[trigger] s[k].0 == x && s[k].1 == y
}

/// Decides whether a pixel of raw `sample` is drawn, and in which color.
pub fn composite(sample: u8, invert: bool, mode: StackingMode) -> (r: Option<bool>)
    ensures
        r == shown(sample, invert, mode),
{
    let on = (sample != 0) != invert;
    match mode {
        StackingMode::Opaque => Some(on),
        StackingMode::WhiteTransparent => if on {
            Some(on)
        } else {
            None
        },
        StackingMode::BlackTransparent => if on {
            None
        } else {
            Some(on)
        },
    }
}

/// A parsed image together with the policy knobs of a draw: stacking mode and
/// inversion. `C` is the color type that a renderer draws it in.
#[derive(Debug)]
pub struct Sei<'a, C> {
    raw_sei: RawSei<'a>,
    color_type: PhantomData<C>,
}

impl<'a, C> Clone for Sei<'a, C> {
    fn clone(&self) -> (r: Self)
        ensures
            r == *self,
    {
        proof {
            use_type_invariant(self);
        }
        Sei { raw_sei: self.raw_sei, color_type: PhantomData }
    }
}

impl<'a, C> Copy for Sei<'a, C> {

}

impl<'a, C> Sei<'a, C> {
    #[verifier::type_invariant]
    spec fn inv(self) -> bool {
        self.raw_sei.wf()
    }

    /// The image's header and pixel data.
    pub closed spec fn raw(self) -> RawSei<'a> {
        self.raw_sei
    }

    pub fn parse(bytes: &'a [u8]) -> (r: Result<Self, SeiError>)
        ensures
            r is Ok <==> parse_spec(bytes@) is Ok,
            r is Ok ==> parse_spec(bytes@) == Ok::<_, SeiError>(
                (r->Ok_0.raw().header, r->Ok_0.raw().img_data@),
            ),
            r is Err ==> parse_spec(bytes@) == Err::<(header::SeiHeader, Seq<u8>), _>(r->Err_0),
    {
        match RawSei::parse(bytes) {
            Ok(raw_sei) => Ok(Sei { raw_sei, color_type: PhantomData }),
            Err(e) => Err(e),
        }
    }

    pub fn as_raw(&self) -> (r: &RawSei<'a>)
        ensures
            *r == self.raw(),
            r.wf(),
    {
        proof {
            use_type_invariant(self);
        }
        &self.raw_sei
    }

    pub fn to_raw(self) -> (r: RawSei<'a>)
        ensures
            r == self.raw(),
            r.wf(),
    {
        proof {
            use_type_invariant(&self);
        }
        self.raw_sei
    }

    pub fn set_stacking_mode(&mut self, stacking_mode: StackingMode)
        ensures
            final(self).raw().header.settings == (settings::SeiSettings {
                stacking_mode,
                ..old(self).raw().header.settings
            }),
            final(self).raw().header.settings.stacking_mode == stacking_mode,
            final(self).raw().img_data == old(self).raw().img_data,
            final(self).raw().header == (header::SeiHeader {
                settings: final(self).raw().header.settings,
                ..old(self).raw().header
            }),
    {
        proof {
            use_type_invariant(&*self);
        }
        self.raw_sei.header.settings.stacking_mode = stacking_mode;
    }

    pub fn stacking_mode(&self) -> (r: StackingMode)
        ensures
            r == self.raw().header.settings.stacking_mode,
    {
        self.raw_sei.header.settings.stacking_mode
    }

    pub fn set_invert(&mut self, invert: bool)
        ensures
            final(self).raw().header.settings == (settings::SeiSettings {
                invert,
                ..old(self).raw().header.settings
            }),
            final(self).raw().img_data == old(self).raw().img_data,
            final(self).raw().header == (header::SeiHeader {
                settings: final(self).raw().header.settings,
                ..old(self).raw().header
            }),
    {
        proof {
            use_type_invariant(&*self);
        }
        self.raw_sei.header.settings.invert = invert;
    }

    /// Flips the inversion flag.
    pub fn invert(&mut self)
        ensures
            final(self).raw().header.settings == (settings::SeiSettings {
                invert: !old(self).raw().header.settings.invert,
                ..old(self).raw().header.settings
            }),
            final(self).raw().img_data == old(self).raw().img_data,
            final(self).raw().header == (header::SeiHeader {
                settings: final(self).raw().header.settings,
                ..old(self).raw().header
            }),
    {
        proof {
            use_type_invariant(&*self);
        }
        self.raw_sei.header.settings.invert = !self.raw_sei.header.settings.invert;
    }

    pub fn inverted(&self) -> (r: bool)
        ensures
            r == self.raw().header.settings.invert,
    {
        self.raw_sei.header.settings.invert
    }

    pub fn bit_depth(&self) -> (r: BitDepth)
        ensures
            r == self.raw().header.settings.bit_depth,
    {
        self.raw_sei.header.settings.bit_depth
    }

    pub fn width(&self) -> (r: u32)
        ensures
            r == self.raw().header.width,
    {
        self.raw_sei.width()
    }

    pub fn height(&self) -> (r: u32)
        ensures
            r == self.raw().header.height,
    {
        self.raw_sei.height()
    }

    /// The pixels to draw, as `(x, y, color)` in row-major order: every pixel
    /// of the image whose color the stacking mode keeps, after inversion.
    /// Pixels that the mode makes transparent are left out, so that the
    /// layers below show through.
    pub fn visible_pixels(&self) -> (r: Vec<(u32, u32, bool)>)
        ensures
            r@ == shown_prefix(
                self.raw(),
                self.raw().header.settings.invert,
                self.raw().header.settings.stacking_mode,
                pixel_count(self.raw().header),
            ),
    {
        proof {
            use_type_invariant(self);
        }
        let samples = self.raw_sei.samples();
        let invert = self.inverted();
        let mode = self.stacking_mode();
        let w = self.raw_sei.header.width as usize;
        let h = self.raw_sei.header.height as usize;
        let mut out: Vec<(u32, u32, bool)> = Vec::new();
        let mut i: usize = 0;
        while i < samples.len()
            invariant
                i <= samples@.len(),
                samples@.len() == pixel_count(self.raw().header),
                forall|k: int| 0 <= k < samples@.len() ==> #[trigger] samples@[k] == pixel_at(self.raw(), k),
                w == self.raw().header.width,
                h == self.raw().header.height,
                invert == self.raw().header.settings.invert,
                mode == self.raw().header.settings.stacking_mode,
                out@ == shown_prefix(self.raw(), invert, mode, i as nat),
            decreases samples@.len() - i,
        {
            assert(w > 0) by (nonlinear_arith)
                requires
                    i < w * h,
            ;
            match composite(samples[i], invert, mode) {
                Some(on) => {
                    out.push(((i % w) as u32, (i / w) as u32, on));
                },
                None => {},
            }
            i = i + 1;
        }
        out
    }

    /// Whether the rectangle at `(x, y)` of size `width` by `height` is a
    /// non-empty part of the image. Drawing a sub-image outside it does nothing.
    pub fn sub_image_in_bounds(&self, x: i32, y: i32, width: u32, height: u32) -> (r: bool)
        ensures
            r == (width > 0 && height > 0 && x >= 0 && y >= 0 && x + width
                <= self.raw().header.width && y + height <= self.raw().header.height),
    {
        if width == 0 || height == 0 || x < 0 || y < 0 {
            return false;
        }
        (x as u64) + (width as u64) <= self.width() as u64 && (y as u64) + (height as u64)
            <= self.height() as u64
    }
}

/// What is drawn from the first `n` pixels: a transparent mode never lets a
/// pixel of its transparent color through, and `Opaque` draws each of them,
/// in row-major order, in its own color.
pub proof fn lemma_shown_prefix<'a>(sei: RawSei<'a>, invert: bool, mode: StackingMode, n: nat)
    ensures
        ({
            let s = shown_prefix(sei, invert, mode, n);
            let w = sei.header.width as int;
            &&& s.len() <= n
            &&& forall|k: int| 0 <= k < s.len() ==> mode == StackingMode::WhiteTransparent ==> (
            #[trigger] s[k]).2
            &&& forall|k: int| 0 <= k < s.len() ==> mode == StackingMode::BlackTransparent ==> !(
            #[trigger] s[k]).2
            &&& mode == StackingMode::Opaque ==> {
                &&& s.len() == n
                &&& forall|k: int|
                    0 <= k < n ==> #[trigger] s[k] == ((k % w) as u32, (k / w) as u32, sample_color(
                        pixel_at(sei, k),
                        invert,
                    ))
            }
        }),
    decreases n,
{
    if n > 0 {
        lemma_shown_prefix(sei, invert, mode, (n - 1) as nat);
    }
}

/// Stacking filter: under `WhiteTransparent` no drawn pixel is white, under
/// `BlackTransparent` none is black, and under `Opaque` every pixel position
/// of the image is drawn exactly once, in its own color.
pub proof fn lemma_stacking_filter<'a>(sei: RawSei<'a>, invert: bool, mode: StackingMode)
    ensures
        ({
            let s = shown_prefix(sei, invert, mode, pixel_count(sei.header));
            let w = sei.header.width as int;
            &&& forall|k: int| 0 <= k < s.len() ==> mode == StackingMode::WhiteTransparent ==> (
            #[trigger] s[k]).2
            &&& forall|k: int| 0 <= k < s.len() ==> mode == StackingMode::BlackTransparent ==> !(
            #[trigger] s[k]).2
            &&& mode == StackingMode::Opaque ==> {
                &&& s.len() == pixel_count(sei.header)
                &&& forall|k: int|
                    0 <= k < s.len() ==> #[trigger] s[k] == ((k % w) as u32, (k / w) as u32, sample_color(
                        pixel_at(sei, k),
                        invert,
                    ))
                &&& forall|j: int, k: int|
                    0 <= j < k < s.len() ==> (#[trigger] s[j]).0 != (#[trigger] s[k]).0 || s[j].1
                        != s[k].1
                &&& forall|x: int, y: int|
                    0 <= x < w && 0 <= y < sei.header.height ==> #[trigger] draws_position(s, x, y)
            }
        }),
{
    let n = pixel_count(sei.header);
    let s = shown_prefix(sei, invert, mode, n);
    let w = sei.header.width as int;
    let h = sei.header.height as int;
    lemma_shown_prefix(sei, invert, mode, n);
    if mode == StackingMode::Opaque {
        assert(w * h <= 65535 * 65535) by (nonlinear_arith)
            requires
                0 <= w <= 65535,
                0 <= h <= 65535,
        ;
        assert forall|j: int, k: int| 0 <= j < k < s.len() implies (#[trigger] s[j]).0 != (
        #[trigger] s[k]).0 || s[j].1 != s[k].1 by {
            assert(w > 0) by (nonlinear_arith)
                requires
                    0 <= k < w * h,
                    0 <= w,
                    0 <= h,
            ;
            lemma_fundamental_div_mod(j, w);
            lemma_fundamental_div_mod(k, w);
            assert(0 <= j % w < w && 0 <= k % w < w) by (nonlinear_arith)
                requires
                    w > 0,
            ;
            assert(0 <= j / w <= j && 0 <= k / w <= k) by (nonlinear_arith)
                requires
                    w > 0,
                    0 <= j,
                    0 <= k,
            ;
        }
        assert forall|x: int, y: int| 0 <= x < w && 0 <= y < h implies #[trigger] draws_position(
            s,
            x,
            y,
        ) by {
            let k = y * w + x;
            assert(0 <= k < w * h && k % w == x && k / w == y) by (nonlinear_arith)
                requires
                    0 <= x < w,
                    0 <= y < h,
                    k == y * w + x,
            ;
            assert(s[k].0 == x && s[k].1 == y);
        }
    }
}

} // verus!
