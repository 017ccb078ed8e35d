//! Software conversion of a planar YUV 4:2:0 frame (NV12/NV21 layout:
//! full-resolution luma plane followed by an interleaved chroma plane at
//! quarter resolution) into RGBA bytes, using the usual fixed-point BT.601
//! coefficients. A source buffer too small for the stated dimensions
//! yields a neutral grey frame instead of an out-of-bounds read.

use vstd::prelude::*;
use crate::frame::MAX_FRAME_DIM;

verus! {

/// Clamp to the byte range.
pub open spec fn spec_clamp_255(v: int) -> int {
    if v < 0 {
        0
    } else if v > 255 {
        255
    } else {
        v
    }
}

/// Byte offset of the interleaved chroma pair for pixel `(x, y)`.
pub open spec fn spec_uv_index(w: int, x: int, y: int) -> int {
    w * (y / 2) + (x / 2) * 2
}

/// The chroma-blue sample for pixel `(x, y)`, neutral when the buffer
/// ends early.
pub open spec fn spec_u_at(yuv: Seq<u8>, w: int, h: int, x: int, y: int) -> int {
    let idx = w * h + spec_uv_index(w, x, y);
    if idx < yuv.len() {
        yuv[idx] as int
    } else {
        128
    }
}

/// The chroma-red sample for pixel `(x, y)`, neutral when the buffer
/// ends early.
pub open spec fn spec_v_at(yuv: Seq<u8>, w: int, h: int, x: int, y: int) -> int {
    let idx = w * h + spec_uv_index(w, x, y) + 1;
    if idx < yuv.len() {
        yuv[idx] as int
    } else {
        128
    }
}

/// Red channel from luma and chroma-red.
pub open spec fn spec_red(yv: int, vv: int) -> int {
    spec_clamp_255(yv + (351 * (vv - 128)) / 256)
}

/// Green channel from luma and both chroma samples.
pub open spec fn spec_green(yv: int, uv: int, vv: int) -> int {
    spec_clamp_255(yv - (86 * (uv - 128) + 179 * (vv - 128)) / 256)
}

/// Blue channel from luma and chroma-blue.
pub open spec fn spec_blue(yv: int, uv: int) -> int {
    spec_clamp_255(yv + (443 * (uv - 128)) / 256)
}

/// Quotient by 256, rounded toward negative infinity (what an
/// arithmetic right shift by eight computes), for small magnitudes.
fn floor_shift8(t: i32) -> (r: i32)
    requires
        -8388608 <= t <= 8388607,
    ensures
        r == t as int / 256,
{
    proof {
        vstd::arithmetic::div_mod::lemma_hoist_over_denominator(t as int, 32768, 256nat);
    }
    (t + 8388608) / 256 - 32768
}

/// Clamp an intermediate channel value to the byte range.
fn clamp_255(v: i32) -> (r: i32)
    ensures
        r == spec_clamp_255(v as int),
{
    if v < 0 {
        0
    } else if v > 255 {
        255
    } else {
        v
    }
}

/// Convert a packed YUV 4:2:0 frame to RGBA (alpha 255). When the
/// source is smaller than a full frame, every output byte is the
/// neutral value 128 instead of reading out of bounds.
pub fn convert_yuv_to_rgba(yuv: &[u8], width: u32, height: u32) -> (rgba: Vec<u8>)
    requires
        0 < width <= MAX_FRAME_DIM,
        0 < height <= MAX_FRAME_DIM,
    ensures
        rgba@.len() == 4 * (width * height),
        yuv@.len() < width * height + (width * height) / 2 ==> forall|k: int|
            0 <= k < rgba@.len() ==> rgba@[k] == 128u8,
        yuv@.len() >= width * height + (width * height) / 2 ==> forall|p: int|
            #![trigger yuv@[p]]
            0 <= p < width * height ==> {
                let x = p % (width as int);
                let y = p / (width as int);
                &&& rgba@[4 * p] == spec_red(yuv@[p] as int, spec_v_at(yuv@, width as int, height as int, x, y)) as u8
                &&& rgba@[4 * p + 1] == spec_green(
                    yuv@[p] as int,
                    spec_u_at(yuv@, width as int, height as int, x, y),
                    spec_v_at(yuv@, width as int, height as int, x, y),
                ) as u8
                &&& rgba@[4 * p + 2] == spec_blue(
                    yuv@[p] as int,
                    spec_u_at(yuv@, width as int, height as int, x, y),
                ) as u8
                &&& rgba@[4 * p + 3] == 255u8
            },
{
    proof {
        assert(width * height <= 16384int * 16384int) by (nonlinear_arith)
            requires
                0 < width <= 16384,
                0 < height <= 16384,
        ;
    }
    let w: usize = width as usize;
    let h: usize = height as usize;
    let frame_size: usize = w * h;

    if yuv.len() < frame_size + frame_size / 2 {
        let grey: Vec<u8> = vec![128u8; frame_size * 4];
        return grey;
    }

    let mut rgba: Vec<u8> = Vec::new();
    let mut p: usize = 0;
    while p < frame_size
        invariant
            p <= frame_size,
            frame_size == width * height,
            frame_size <= 268435456,
            w == width,
            h == height,
            0 < w <= 16384,
            0 < h <= 16384,
            yuv@.len() >= frame_size + frame_size / 2,
            rgba@.len() == 4 * p,
            forall|q: int|
                #![trigger yuv@[q]]
                0 <= q < p ==> {
                    let x = q % (w as int);
                    let y = q / (w as int);
                    &&& rgba@[4 * q] == spec_red(yuv@[q] as int, spec_v_at(yuv@, w as int, h as int, x, y)) as u8
                    &&& rgba@[4 * q + 1] == spec_green(
                        yuv@[q] as int,
                        spec_u_at(yuv@, w as int, h as int, x, y),
                        spec_v_at(yuv@, w as int, h as int, x, y),
                    ) as u8
                    &&& rgba@[4 * q + 2] == spec_blue(
                        yuv@[q] as int,
                        spec_u_at(yuv@, w as int, h as int, x, y),
                    ) as u8
                    &&& rgba@[4 * q + 3] == 255u8
                },
        decreases frame_size - p,
    {
        let x: usize = p % w;
        let y: usize = p / w;
        proof {
            assert(p as int / (w as int) < h) by (nonlinear_arith)
                requires
                    0 <= p < w * h,
                    0 < w,
            ;
            assert(w * ((p as int / (w as int)) / 2) <= w * (h / 2) && w * (h / 2) * 2 <= w * h)
                by (nonlinear_arith)
                requires
                    0 <= p as int / (w as int) < h,
                    0 < w <= 16384,
                    0 < h <= 16384,
            ;
            assert((p as int % (w as int)) / 2 * 2 < w) by (nonlinear_arith)
                requires
                    0 <= p as int % (w as int) < w,
            ;
        }
        let uv_idx: usize = frame_size + w * (y / 2) + (x / 2) * 2;
        let y_val: i32 = yuv[p] as i32;
        let u_val: i32 = if uv_idx < yuv.len() {
            yuv[uv_idx] as i32
        } else {
            128
        };
        let v_val: i32 = if uv_idx + 1 < yuv.len() {
            yuv[uv_idx + 1] as i32
        } else {
            128
        };
        let r = clamp_255(y_val + floor_shift8(351 * (v_val - 128)));
        let g = clamp_255(y_val - floor_shift8(86 * (u_val - 128) + 179 * (v_val - 128)));
        let b = clamp_255(y_val + floor_shift8(443 * (u_val - 128)));
        rgba.push(r as u8);
        rgba.push(g as u8);
        rgba.push(b as u8);
        rgba.push(255u8);
        p = p + 1;
    }
    rgba
}

} // verus!
