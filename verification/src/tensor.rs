//! Decoding an encoded image and normalizing it into a channel-planar tensor.
//!
//! The tensor keeps the raw 8-bit samples; the value a sample `s` denotes
//! downstream is `s / 255`, so every denoted value lies in `[0, 1]` exactly
//! when every sample lies in `[0, 255]`, which holds of every byte.

use vstd::prelude::*;

use crate::PipelineError;

verus! {

/// What decoding a byte sequence as an image yields: `None` when the bytes
/// are not a decodable image, otherwise the width, the height, and the
/// pixels as interleaved RGB bytes in row-major order.
pub uninterp spec fn decoded_image(bytes: Seq<u8>) -> Option<(nat, nat, Seq<u8>)>;

/// Index of the sample for channel `c` of pixel `(x, y)` in a channel-planar
/// buffer: all red samples first, then green, then blue, each plane
/// height-major and width-minor.
pub open spec fn planar_index(c: int, y: int, x: int, w: int, h: int) -> int {
    c * (h * w) + y * w + x
}

/// Index of the sample for channel `c` of pixel `(x, y)` in an interleaved
/// RGB buffer in row-major order.
pub open spec fn interleaved_index(c: int, y: int, x: int, w: int) -> int {
    (y * w + x) * 3 + c
}

/// A decoded image as a canonical channel-first tensor: three planes of
/// `height * width` samples each, channel order R, G, B.
pub struct NormalizedTensor {
    /// The samples, in planar order: `data[planar_index(c, y, x, width, height)]`
    /// is channel `c` of pixel `(x, y)`.
    pub data: Vec<u8>,
    /// Pixel rows of the source image.
    pub height: usize,
    /// Pixel columns of the source image.
    pub width: usize,
}

impl NormalizedTensor {
    /// Shape invariant: exactly three full planes, no padding.
    pub open spec fn wf(self) -> bool {
        self.data@.len() == 3 * ((self.height as int) * (self.width as int))
    }

    /// The sample for channel `c` of pixel `(x, y)`.
    pub open spec fn sample(self, c: int, y: int, x: int) -> u8 {
        self.data@[planar_index(c, y, x, self.width as int, self.height as int)]
    }
}

/// Relies on `image::load_from_memory` and `DynamicImage::into_rgb8`: the
/// result is a function of the bytes alone; an RGB8 buffer holds exactly
/// `3 * width * height` samples, interleaved in row-major order.
#[verifier::external_body]
fn decode_rgb(buffer: &Vec<u8>) -> (r: Result<(u32, u32, Vec<u8>), PipelineError>)
    ensures
        r matches Ok(d) ==> {
            &&& decoded_image(buffer@) == Some(((d.0 as nat), (d.1 as nat), d.2@))
            &&& d.2@.len() == 3 * ((d.1 as int) * (d.0 as int))
        },
        r matches Err(e) ==> decoded_image(buffer@) is None && e == PipelineError::Decode,
{
    match image::load_from_memory(buffer.as_slice()) {
        Ok(img) => {
            let rgb = img.into_rgb8();
            let (w, h) = rgb.dimensions();
            Ok((w, h, rgb.into_raw()))
        }
        Err(_) => Err(PipelineError::Decode),
    }
}

/// A pixel's offset inside one plane is below the plane's size.
proof fn lemma_grid_bound(y: int, x: int, w: int, h: int)
    by (nonlinear_arith)
    requires
        0 <= y < h,
        0 <= x < w,
    ensures
        0 <= y * w,
        y * w + x < h * w,
{
}

/// Planar indices respect the channel-then-row-then-column fill order.
proof fn lemma_planar_lt(c1: int, y1: int, x1: int, c2: int, y2: int, x2: int, w: int, h: int)
    by (nonlinear_arith)
    requires
        0 <= y1 < h,
        0 <= x1 < w,
        0 <= y2 < h,
        0 <= x2 < w,
        c1 < c2 || (c1 == c2 && y1 < y2) || (c1 == c2 && y1 == y2 && x1 < x2),
    ensures
        c1 * (h * w) + y1 * w + x1 < c2 * (h * w) + y2 * w + x2,
{
}

/// True of the triples that a channel-major, row-major fill has already
/// written when it stands at channel `c`, row `y`, column `x`.
spec fn filled(c2: int, y2: int, x2: int, c: int, y: int, x: int) -> bool {
    c2 < c || (c2 == c && (y2 < y || (y2 == y && x2 < x)))
}

/// Rearrange interleaved RGB samples into channel-planar order.
#[verifier::loop_isolation(false)]
fn planarize(pix: &Vec<u8>, width: usize, height: usize) -> (out: Vec<u8>)
    requires
        pix@.len() == 3 * ((height as int) * (width as int)),
    ensures
        out@.len() == 3 * ((height as int) * (width as int)),
        forall|c: int, y: int, x: int|
            0 <= c < 3 && 0 <= y < height && 0 <= x < width ==> out@[#[trigger] planar_index(
                c,
                y,
                x,
                width as int,
                height as int,
            )] == pix@[interleaved_index(c, y, x, width as int)],
{
    // Binds the samples' count to a machine word, which the index
    // arithmetic below leans on.
    let samples = pix.len();
    proof {
        assert(samples == pix@.len());
    }
    let ghost w = width as int;
    let ghost h = height as int;
    let mut out: Vec<u8> = Vec::new();
    let mut c: usize = 0;
    while c < 3
        invariant
            pix@.len() == 3 * (h * w),
            w == width as int,
            h == height as int,
            c <= 3,
            out@.len() == planar_index(c as int, 0, 0, w, h),
            forall|c2: int, y2: int, x2: int|
                0 <= c2 < 3 && 0 <= y2 < h && 0 <= x2 < w && filled(c2, y2, x2, c as int, 0, 0)
                    ==> out@[#[trigger] planar_index(c2, y2, x2, w, h)] == pix@[interleaved_index(
                    c2,
                    y2,
                    x2,
                    w,
                )],
        decreases 3 - c,
    {
        let mut y: usize = 0;
        while y < height
            invariant
                pix@.len() == 3 * (h * w),
                w == width as int,
                h == height as int,
                c < 3,
                y <= height,
                out@.len() == planar_index(c as int, y as int, 0, w, h),
                forall|c2: int, y2: int, x2: int|
                    0 <= c2 < 3 && 0 <= y2 < h && 0 <= x2 < w && filled(
                        c2,
                        y2,
                        x2,
                        c as int,
                        y as int,
                        0,
                    ) ==> out@[#[trigger] planar_index(c2, y2, x2, w, h)] == pix@[interleaved_index(
                        c2,
                        y2,
                        x2,
                        w,
                    )],
            decreases height - y,
        {
            let mut x: usize = 0;
            while x < width
                invariant
                    pix@.len() == 3 * (h * w),
                    w == width as int,
                    h == height as int,
                    c < 3,
                    y < height,
                    x <= width,
                    out@.len() == planar_index(c as int, y as int, x as int, w, h),
                    forall|c2: int, y2: int, x2: int|
                        0 <= c2 < 3 && 0 <= y2 < h && 0 <= x2 < w && filled(
                            c2,
                            y2,
                            x2,
                            c as int,
                            y as int,
                            x as int,
                        ) ==> out@[#[trigger] planar_index(c2, y2, x2, w, h)] == pix@[interleaved_index(
                            c2,
                            y2,
                            x2,
                            w,
                        )],
                decreases width - x,
            {
                proof {
                    lemma_grid_bound(y as int, x as int, w, h);
                }
                let src = (y * width + x) * 3 + c;
                let ghost prev = out@;
                out.push(pix[src]);
                proof {
                    assert forall|c2: int, y2: int, x2: int|
                        0 <= c2 < 3 && 0 <= y2 < h && 0 <= x2 < w && filled(
                            c2,
                            y2,
                            x2,
                            c as int,
                            y as int,
                            x + 1,
                        ) implies out@[#[trigger] planar_index(c2, y2, x2, w, h)] == pix@[interleaved_index(
                        c2,
                        y2,
                        x2,
                        w,
                    )] by {
                        lemma_grid_bound(y2, x2, w, h);
                        if c2 == c as int && y2 == y as int && x2 == x as int {
                            assert(planar_index(c2, y2, x2, w, h) == prev.len());
                        } else {
                            lemma_planar_lt(c2, y2, x2, c as int, y as int, x as int, w, h);
                            assert(out@[planar_index(c2, y2, x2, w, h)] == prev[planar_index(
                                c2,
                                y2,
                                x2,
                                w,
                            h)]);
                        }
                    }
                }
                x = x + 1;
            }
            proof {
                assert((y as int) * w + w == (y as int + 1) * w) by (nonlinear_arith);
            }
            y = y + 1;
        }
        proof {
            assert((c as int) * (h * w) + h * w == (c as int + 1) * (h * w))
                by (nonlinear_arith);
        }
        c = c + 1;
    }
    out
}

/// Decode an encoded image and normalize it into a channel-planar tensor.
///
/// Succeeds exactly when the bytes decode; the tensor then has the source
/// image's dimensions and, for every channel and pixel, the sample the
/// decoder produced for it.
pub fn read_buffer(buffer: &Vec<u8>) -> (r: Result<NormalizedTensor, PipelineError>)
    ensures
        r matches Ok(t) ==> {
            &&& t.wf()
            &&& decoded_image(buffer@) matches Some(d) && t.width as nat == d.0 && t.height as nat
                == d.1 && forall|c: int, y: int, x: int|
                0 <= c < 3 && 0 <= y < t.height && 0 <= x < t.width ==> t.sample(c, y, x)
                    == d.2[interleaved_index(c, y, x, t.width as int)]
        },
        r matches Err(e) ==> decoded_image(buffer@) is None && e == PipelineError::Decode,
        r is Ok <==> decoded_image(buffer@) is Some,
{
    match decode_rgb(buffer) {
        Ok((w, h, pix)) => {
            let width = w as usize;
            let height = h as usize;
            let data = planarize(&pix, width, height);
            Ok(NormalizedTensor { data, height, width })
        }
        Err(e) => Err(e),
    }
}

} // verus!
