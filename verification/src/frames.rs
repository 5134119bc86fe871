//! Normalized frames and the plane mapper.
//!
//! A `RgbFrame` is one source image resized to the target geometry and
//! held as packed interleaved RGB bytes, three per pixel in row-major
//! order. The functions here map such a frame into the layout a codec
//! expects: the packed orders for the synchronous encoder, and single
//! channel planes with their strides for the planar one.
//!
//! The planar path reuses the R, G and B channel bytes directly as the
//! luma and chroma planes, without a colorspace matrix. That keeps the
//! mapping a pure permutation of the input bytes; the picture it gives
//! is a known approximation, chosen here deliberately and documented,
//! not inferred.

use vstd::prelude::*;
use vstd::arithmetic::power2::{pow2, lemma2_to64};
use vstd::arithmetic::div_mod::{lemma_mod_multiples_basic, lemma_div_multiples_vanish};

verus! {

/// One image normalized to the target geometry: `data` holds
/// `3 * width * height` bytes, pixel after pixel, `R G B` each.
pub struct RgbFrame {
    pub width: u32,
    pub height: u32,
    pub data: Vec<u8>,
}

impl RgbFrame {
    /// A frame is well formed when both dimensions are positive and
    /// the buffer holds exactly three bytes per pixel.
    pub open spec fn wf(&self) -> bool {
        &&& self.width >= 1
        &&& self.height >= 1
        &&& self.data@.len() == 3 * self.width * self.height
    }

    pub open spec fn pixel_count(&self) -> int {
        self.width * self.height
    }
}

/// The bytes of channel `idx` of packed pixel data with `step` bytes
/// per pixel: every `step`-th byte, starting at `idx`.
pub open spec fn spec_channel(data: Seq<u8>, step: int, idx: int) -> Seq<u8>
    recommends
        step > 0,
        0 <= idx < step,
{
    Seq::new((data.len() as int / step) as nat, |k: int| data[k * step + idx])
}

/// Packed interleaved RGB bytes of a normalized frame, as the
/// synchronous encoder takes them: the frame's own representation.
pub fn create_frame(img: &RgbFrame) -> (r: Vec<u8>)
    ensures
        r@ == img.data@,
{
    img.data.clone()
}

/// The bytes of one channel of a packed buffer: every `step`-th byte
/// starting at `idx`. With `step == 3` this is the R, G or B plane of
/// an `RgbFrame`, reused directly as a codec plane.
pub fn extract_channel(data: &Vec<u8>, step: usize, idx: usize) -> (r: Vec<u8>)
    requires
        step > 0,
        idx < step,
    ensures
        r@ == spec_channel(data@, step as int, idx as int),
{
    let len: usize = data.len();
    let n: usize = len / step;
    let mut r: Vec<u8> = Vec::new();
    let mut k: usize = 0;
    while k < n
        invariant
            step > 0,
            idx < step,
            len == data@.len(),
            n == len as int / step as int,
            k <= n,
            r@.len() == k,
            forall|j: int| 0 <= j < k ==> r@[j] == data@[j * (step as int) + idx],
        decreases n - k,
    {
        proof {
            assert(k * step + idx < len) by (nonlinear_arith)
                requires
                    k < n,
                    n == len as int / step as int,
                    idx < step,
                    step > 0;
        }
        let b: u8 = data[k * step + idx];
        r.push(b);
        k = k + 1;
    }
    proof {
        assert(r@ =~= spec_channel(data@, step as int, idx as int));
    }
    r
}

/// Packed BGR bytes of a frame: each pixel's R and B swapped.
pub open spec fn spec_bgr(data: Seq<u8>) -> Seq<u8> {
    Seq::new(data.len(), |k: int| if k % 3 == 0 { data[k + 2] } else if k % 3 == 2 { data[k - 2] } else { data[k] })
}

/// Maps a frame into packed BGR order, pixel for pixel.
pub fn pack_bgr(img: &RgbFrame) -> (r: Vec<u8>)
    requires
        img.wf(),
    ensures
        r@ == spec_bgr(img.data@),
{
    let n: usize = img.data.len();
    let mut r: Vec<u8> = Vec::new();
    let mut k: usize = 0;
    proof {
        let w = img.width as int;
        let h = img.height as int;
        assert(n as int == (w * h) * 3) by (nonlinear_arith)
            requires n as int == 3 * w * h;
        lemma_mod_multiples_basic(w * h, 3);
    }
    while k < n
        invariant
            n == img.data@.len(),
            n % 3 == 0,
            k <= n,
            k % 3 == 0,
            r@.len() == k,
            forall|j: int| 0 <= j < k ==> r@[j] == spec_bgr(img.data@)[j],
        decreases n - k,
    {
        proof {
            assert(k + 2 < n) by (nonlinear_arith)
                requires k < n, k % 3 == 0, n % 3 == 0;
        }
        let b0: u8 = img.data[k + 2];
        let b1: u8 = img.data[k + 1];
        let b2: u8 = img.data[k];
        r.push(b0);
        r.push(b1);
        r.push(b2);
        proof {
            assert((k + 1) % 3 == 1 && (k + 2) % 3 == 2 && (k + 3) % 3 == 0) by (nonlinear_arith)
                requires k % 3 == 0;
        }
        k = k + 3;
    }
    proof {
        assert(r@ =~= spec_bgr(img.data@));
    }
    r
}

/// Packed BGRA bytes of a frame: each pixel's R and B swapped and an
/// opaque alpha byte appended.
pub open spec fn spec_bgra(data: Seq<u8>) -> Seq<u8> {
    Seq::new(data.len() / 3 * 4, |k: int|
        if k % 4 == 0 { data[k / 4 * 3 + 2] }
        else if k % 4 == 1 { data[k / 4 * 3 + 1] }
        else if k % 4 == 2 { data[k / 4 * 3] }
        else { 255u8 })
}

/// Maps a frame into packed BGRA order with opaque alpha.
pub fn pack_bgra(img: &RgbFrame) -> (r: Vec<u8>)
    requires
        img.wf(),
        4 * img.pixel_count() <= usize::MAX,
    ensures
        r@ == spec_bgra(img.data@),
{
    let n: usize = img.data.len();
    let mut r: Vec<u8> = Vec::new();
    let mut k: usize = 0;
    proof {
        let w = img.width as int;
        let h = img.height as int;
        assert(n as int == (w * h) * 3 && n as int == 3 * (w * h)) by (nonlinear_arith)
            requires n as int == 3 * w * h;
        lemma_mod_multiples_basic(w * h, 3);
        lemma_div_multiples_vanish(w * h, 3);
    }
    while k < n
        invariant
            n == img.data@.len(),
            n % 3 == 0,
            n / 3 * 4 <= usize::MAX,
            k <= n,
            k % 3 == 0,
            r@.len() == k / 3 * 4,
            forall|j: int| 0 <= j < k / 3 * 4 ==> r@[j] == spec_bgra(img.data@)[j],
        decreases n - k,
    {
        proof {
            assert(k + 2 < n) by (nonlinear_arith)
                requires k < n, k % 3 == 0, n % 3 == 0;
            assert(k / 3 * 4 + 4 <= n / 3 * 4) by (nonlinear_arith)
                requires k + 3 <= n, k % 3 == 0, n % 3 == 0;
        }
        let b0: u8 = img.data[k + 2];
        let b1: u8 = img.data[k + 1];
        let b2: u8 = img.data[k];
        r.push(b0);
        r.push(b1);
        r.push(b2);
        r.push(255);
        proof {
            let q = k as int / 3;
            assert((k + 3) % 3 == 0 && (k + 3) / 3 == q + 1) by (nonlinear_arith)
                requires k % 3 == 0, k as int / 3 == q;
            assert(forall|j: int| 0 <= j < (q + 1) * 4 ==> #[trigger] (j % 4) + 4 * q >= 0);
            assert forall|j: int| q * 4 <= j < (q + 1) * 4 implies r@[j] == spec_bgra(img.data@)[j] by {
                assert(j / 4 == q && (j % 4 == 0 || j % 4 == 1 || j % 4 == 2 || j % 4 == 3)) by (nonlinear_arith)
                    requires q * 4 <= j < (q + 1) * 4;
            }
            assert((q + 1) * 4 == (k + 3) as int / 3 * 4) by (nonlinear_arith)
                requires (k + 3) % 3 == 0, (k + 3) / 3 == q + 1;
        }
        k = k + 3;
    }
    proof {
        assert(n / 3 * 4 == spec_bgra(img.data@).len());
        assert(r@ =~= spec_bgra(img.data@));
    }
    r
}

/// The packed pixel orders the synchronous encoder can take.
#[derive(Clone, Copy, PartialEq, Eq, Structural, Debug)]
pub enum PackedLayout {
    Rgb,
    Bgr,
    Bgra,
}

impl PackedLayout {
    /// Bytes per pixel of this layout.
    pub open spec fn spec_bytes_per_pixel(&self) -> int {
        match self {
            PackedLayout::Rgb => 3,
            PackedLayout::Bgr => 3,
            PackedLayout::Bgra => 4,
        }
    }
}

/// The packed bytes a frame contributes under a layout: its own RGB
/// order kept, or the documented permutations of it.
pub open spec fn spec_packed(data: Seq<u8>, layout: PackedLayout) -> Seq<u8> {
    match layout {
        PackedLayout::Rgb => data,
        PackedLayout::Bgr => spec_bgr(data),
        PackedLayout::Bgra => spec_bgra(data),
    }
}

/// Maps a frame into the packed order of the given layout.
pub fn pack_frame(img: &RgbFrame, layout: &PackedLayout) -> (r: Vec<u8>)
    requires
        img.wf(),
        4 * img.pixel_count() <= usize::MAX,
    ensures
        r@ == spec_packed(img.data@, *layout),
        r@.len() == layout.spec_bytes_per_pixel() * img.pixel_count(),
{
    let r = match layout {
        PackedLayout::Rgb => create_frame(img),
        PackedLayout::Bgr => pack_bgr(img),
        PackedLayout::Bgra => pack_bgra(img),
    };
    proof {
        let w = img.width as int;
        let h = img.height as int;
        let n = img.data@.len() as int;
        assert(n == (w * h) * 3 && n == 3 * (w * h)) by (nonlinear_arith)
            requires n == 3 * w * h;
        lemma_div_multiples_vanish(w * h, 3);
        assert(4 * (w * h) == (w * h) * 4) by (nonlinear_arith);
    }
    r
}

/// The stride of a plane whose horizontal subsampling shift is `xdec`:
/// the frame width divided by `2^xdec`, rounded up, so an odd
/// dimension still covers its last column.
pub open spec fn spec_plane_stride(width: int, xdec: nat) -> int {
    (width + xdec) / pow2(xdec) as int
}

/// Computes a plane's stride as `(width + xdec) >> xdec`.
pub fn plane_stride(width: usize, xdec: usize) -> (r: usize)
    requires
        xdec <= 1,
        width + xdec <= usize::MAX,
    ensures
        r == spec_plane_stride(width as int, xdec as nat),
        width >= 1 ==> r >= 1,
{
    let s: usize = width + xdec;
    let r: usize = s >> xdec;
    proof {
        lemma2_to64();
        if xdec == 0 {
            assert(s >> 0usize == s) by (bit_vector);
        } else {
            assert(s >> 1usize == s / 2) by (bit_vector);
        }
    }
    r
}

} // verus!
