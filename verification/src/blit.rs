//! Scaled blits with nearest sampling, modelled exactly.
//!
//! A blit copies a `src_w` by `src_h` rectangle from the top-left of a
//! source texture into the whole of a destination of independent size.
//! With nearest filtering, each destination pixel takes the source pixel
//! whose centre is nearest to the destination pixel's centre: destination
//! coordinate `d` out of `dst_extent` samples source coordinate
//! `floor((d + 1/2) * src_extent / dst_extent)`. Linear filtering mixes
//! neighbouring pixels in driver-defined fractional arithmetic and is left
//! to the GPU path; the model always samples nearest.

use vstd::arithmetic::div_mod::{
    lemma_div_pos_is_pos, lemma_fundamental_div_mod, lemma_fundamental_div_mod_converse_div,
    lemma_fundamental_div_mod_converse_mod, lemma_multiply_divide_lt,
};
use vstd::prelude::*;

use crate::pixels::MAX_TEXTURE_DIM;

verus! {

/// Source coordinate sampled for destination coordinate `d`, when a source
/// extent of `src_extent` pixels is mapped onto a destination extent of
/// `dst_extent` pixels.
pub open spec fn nearest_coord(d: int, src_extent: int, dst_extent: int) -> int {
    ((2 * d + 1) * src_extent) / (2 * dst_extent)
}

/// Nearest sampling never leaves the source extent.
pub proof fn lemma_nearest_coord_in_range(d: int, src_extent: int, dst_extent: int)
    requires
        0 <= d < dst_extent,
        1 <= src_extent,
    ensures
        0 <= nearest_coord(d, src_extent, dst_extent) < src_extent,
{
    let num = (2 * d + 1) * src_extent;
    assert(0 <= num && num < (2 * dst_extent) * src_extent) by (nonlinear_arith)
        requires
            0 <= d < dst_extent,
            1 <= src_extent,
            num == (2 * d + 1) * src_extent,
    ;
    lemma_div_pos_is_pos(num, 2 * dst_extent);
    lemma_multiply_divide_lt(num, 2 * dst_extent, src_extent);
}

/// Mapping an extent onto itself samples the same coordinate.
pub proof fn lemma_nearest_coord_identity(d: int, extent: int)
    requires
        0 <= d < extent,
    ensures
        nearest_coord(d, extent, extent) == d,
{
    assert(d * (2 * extent) + extent == (2 * d + 1) * extent) by (nonlinear_arith);
    lemma_fundamental_div_mod_converse_div((2 * d + 1) * extent, 2 * extent, d, extent);
}

/// The pixels a nearest-filtered blit writes: destination pixel `(x, y)`
/// takes source pixel `(nearest_coord(x), nearest_coord(y))`, read from a
/// source buffer of row stride `src_stride`.
pub open spec fn scaled_view(
    src: Seq<u32>,
    src_stride: int,
    src_w: int,
    src_h: int,
    dst_w: int,
    dst_h: int,
) -> Seq<u32> {
    Seq::new(
        (dst_w * dst_h) as nat,
        |i: int|
            src[nearest_coord(i / dst_w, src_h, dst_h) * src_stride
                + nearest_coord(i % dst_w, src_w, dst_w)],
    )
}

/// Blitting a source rectangle onto a destination of the same size copies
/// it pixel for pixel. In particular, a frame blitted in, copied by an
/// identity dispatch, and blitted out again at the same size is returned
/// exactly.
pub proof fn lemma_scaled_view_identity(src: Seq<u32>, w: int, h: int)
    requires
        1 <= w,
        1 <= h,
        src.len() == w * h,
    ensures
        scaled_view(src, w, w, h, w, h) == src,
{
    let view = scaled_view(src, w, w, h, w, h);
    assert forall|i: int| 0 <= i < w * h implies view[i] == src[i] by {
        let x = i % w;
        let y = i / w;
        lemma_div_pos_is_pos(i, w);
        lemma_fundamental_div_mod(i, w);
        assert(y < h) by (nonlinear_arith)
            requires
                i < w * h,
                i == w * y + x,
                0 <= x < w,
                0 <= y,
        ;
        lemma_nearest_coord_identity(x, w);
        lemma_nearest_coord_identity(y, h);
    }
    assert(view =~= src);
}

/// The round trip: a frame blitted into a slot of its own size, copied
/// unchanged by an identity dispatch, and blitted out again into a target
/// of the same size equals the original frame exactly.
pub proof fn lemma_identity_round_trip(src: Seq<u32>, w: int, h: int)
    requires
        1 <= w,
        1 <= h,
        src.len() == w * h,
    ensures
        scaled_view(scaled_view(src, w, w, h, w, h), w, w, h, w, h) == src,
{
    lemma_scaled_view_identity(src, w, h);
}

/// Executable form of [`nearest_coord`].
fn nearest_coord_exec(d: u32, src_extent: u32, dst_extent: u32) -> (r: u32)
    requires
        d < dst_extent,
        1 <= src_extent <= MAX_TEXTURE_DIM,
        dst_extent <= MAX_TEXTURE_DIM,
    ensures
        r == nearest_coord(d as int, src_extent as int, dst_extent as int),
        r < src_extent,
{
    proof {
        assert((2 * (d as int) + 1) * (src_extent as int) <= 0x1FFFF * 0xFFFF)
            by (nonlinear_arith)
            requires
                d < dst_extent <= 0xFFFF,
                1 <= src_extent <= 0xFFFF,
        ;
        lemma_nearest_coord_in_range(d as int, src_extent as int, dst_extent as int);
    }
    let n: u64 = (2 * (d as u64) + 1) * (src_extent as u64);
    let q: u64 = n / (2 * (dst_extent as u64));
    q as u32
}

/// Copy a scaled rectangle out of `src` with nearest sampling.
///
/// `src` holds at least `src_h` rows of `src_stride` pixels; the blit reads
/// the top-left `src_w` by `src_h` rectangle and fills a fresh `dst_w` by
/// `dst_h` buffer.
pub fn blit_scaled(
    src: &Vec<u32>,
    src_stride: u32,
    src_w: u32,
    src_h: u32,
    dst_w: u32,
    dst_h: u32,
) -> (r: Vec<u32>)
    requires
        1 <= src_w <= src_stride <= MAX_TEXTURE_DIM,
        1 <= src_h <= MAX_TEXTURE_DIM,
        src_h * src_stride <= src@.len(),
        1 <= dst_w <= MAX_TEXTURE_DIM,
        1 <= dst_h <= MAX_TEXTURE_DIM,
    ensures
        r@ == scaled_view(src@, src_stride as int, src_w as int, src_h as int, dst_w as int,
            dst_h as int),
        r@.len() == dst_w * dst_h,
{
    let ghost view = scaled_view(src@, src_stride as int, src_w as int, src_h as int,
        dst_w as int, dst_h as int);
    proof {
        assert(view.len() == dst_w * dst_h);
    }
    let mut out: Vec<u32> = Vec::new();
    let mut y: u32 = 0;
    while y < dst_h
        invariant
            y <= dst_h,
            1 <= src_w <= src_stride <= MAX_TEXTURE_DIM,
            1 <= src_h <= MAX_TEXTURE_DIM,
            src_h * src_stride <= src@.len(),
            1 <= dst_w <= MAX_TEXTURE_DIM,
            1 <= dst_h <= MAX_TEXTURE_DIM,
            view == scaled_view(src@, src_stride as int, src_w as int, src_h as int,
                dst_w as int, dst_h as int),
            view.len() == dst_w * dst_h,
            out@.len() == y * dst_w,
            forall|i: int| 0 <= i < y * dst_w ==> out@[i] == view[i],
        decreases dst_h - y,
    {
        let sy: u32 = nearest_coord_exec(y, src_h, dst_h);
        let mut x: u32 = 0;
        proof {
            assert(y * dst_w + dst_w <= dst_w * dst_h) by (nonlinear_arith)
                requires
                    y < dst_h,
                    1 <= dst_w,
            ;
        }
        while x < dst_w
            invariant
                x <= dst_w,
                y < dst_h,
                1 <= src_w <= src_stride <= MAX_TEXTURE_DIM,
                1 <= src_h <= MAX_TEXTURE_DIM,
                src_h * src_stride <= src@.len(),
                1 <= dst_w <= MAX_TEXTURE_DIM,
                1 <= dst_h <= MAX_TEXTURE_DIM,
                sy == nearest_coord(y as int, src_h as int, dst_h as int),
                sy < src_h,
                view == scaled_view(src@, src_stride as int, src_w as int, src_h as int,
                    dst_w as int, dst_h as int),
                view.len() == dst_w * dst_h,
                y * dst_w + dst_w <= dst_w * dst_h,
                out@.len() == y * dst_w + x,
                forall|i: int| 0 <= i < y * dst_w + x ==> out@[i] == view[i],
            decreases dst_w - x,
        {
            let sx: u32 = nearest_coord_exec(x, src_w, dst_w);
            proof {
                assert(sy * src_stride + sx < src_h * src_stride) by (nonlinear_arith)
                    requires
                        0 <= sy < src_h,
                        0 <= sx < src_w,
                        src_w <= src_stride,
                        1 <= src_stride,
                ;
                assert(sy * src_stride + sx < src@.len());
                assert(sy * src_stride + sx <= 0xFFFE0001) by (nonlinear_arith)
                    requires
                        0 <= sy <= 0xFFFE,
                        0 <= sx <= 0xFFFE,
                        0 <= src_stride <= 0xFFFF,
                ;
            }
            let src_index: usize = (sy as usize) * (src_stride as usize) + (sx as usize);
            let pixel: u32 = src[src_index];
            out.push(pixel);
            proof {
                let i = y * dst_w + x;
                assert((dst_w as int) * (y as int) + (x as int) == i) by (nonlinear_arith)
                    requires
                        i == y * dst_w + x,
                ;
                lemma_fundamental_div_mod_converse_div(i as int, dst_w as int, y as int, x as int);
                lemma_fundamental_div_mod_converse_mod(i as int, dst_w as int, y as int, x as int);
                assert(view[i as int] == src@[
                    nearest_coord(y as int, src_h as int, dst_h as int) * (src_stride as int)
                        + nearest_coord(x as int, src_w as int, dst_w as int)]);
                assert(out@[i as int] == view[i as int]);
            }
            x = x + 1;
        }
        proof {
            assert(y * dst_w + dst_w == (y + 1) * dst_w) by (nonlinear_arith);
        }
        y = y + 1;
    }
    proof {
        assert(out@.len() == dst_h * dst_w);
        assert(dst_h * dst_w == dst_w * dst_h) by (nonlinear_arith);
        assert forall|i: int| 0 <= i < view.len() implies out@[i] == view[i] by {
        }
        assert(out@ =~= view);
    }
    out
}

} // verus!
