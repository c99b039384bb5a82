//! Processing-resolution scaling.
//!
//! Each frame may be processed at a reduced internal resolution: the host
//! dimensions are multiplied by a scale factor clamped to [1/8, 1], with a
//! floor of 2 pixels per axis. The factor is carried in thousandths, so
//! the arithmetic is exact and a factor of 1000 reproduces the host
//! dimensions bit for bit. Filter quality at or above one half selects
//! bilinear filtering for the GPU path.

use vstd::prelude::*;

use crate::pixels::MAX_TEXTURE_DIM;

verus! {

/// Smallest accepted resolution scale, in thousandths (one eighth).
pub const MIN_RESOLUTION_SCALE_MILLI: u32 = 125;

/// Largest accepted resolution scale, in thousandths (one).
pub const MAX_RESOLUTION_SCALE_MILLI: u32 = 1000;

/// Filter quality at or above this threshold, in thousandths, selects
/// bilinear filtering.
pub const BILINEAR_THRESHOLD_MILLI: u32 = 500;

/// Fewest pixels per axis a processing resolution may have.
pub const MIN_PROCESSING_EXTENT: u32 = 2;

/// The scale clamped into the accepted range.
pub open spec fn clamped_scale(scale_milli: int) -> int {
    if scale_milli < MIN_RESOLUTION_SCALE_MILLI {
        MIN_RESOLUTION_SCALE_MILLI as int
    } else if scale_milli > MAX_RESOLUTION_SCALE_MILLI {
        MAX_RESOLUTION_SCALE_MILLI as int
    } else {
        scale_milli
    }
}

/// The processing extent for one axis: the host extent scaled by the
/// clamped factor, rounded down, with a floor of two pixels.
pub open spec fn processing_extent_spec(host: int, scale_milli: int) -> int {
    let scaled = (host * clamped_scale(scale_milli)) / 1000;
    if scaled < MIN_PROCESSING_EXTENT {
        MIN_PROCESSING_EXTENT as int
    } else {
        scaled
    }
}

/// The processing extent never exceeds the texture-dimension limit when
/// the host extent respects it, and never drops below two pixels.
pub proof fn lemma_processing_extent_bounds(host: int, scale_milli: int)
    requires
        2 <= host <= MAX_TEXTURE_DIM,
    ensures
        2 <= processing_extent_spec(host, scale_milli) <= host,
{
    let c = clamped_scale(scale_milli);
    assert(host * c <= host * 1000) by (nonlinear_arith)
        requires
            c <= 1000,
            0 <= host,
    ;
    assert((host * 1000) / 1000 == host) by {
        vstd::arithmetic::div_mod::lemma_fundamental_div_mod_converse_div(
            host * 1000, 1000, host, 0);
    }
    vstd::arithmetic::div_mod::lemma_div_is_ordered(host * c, host * 1000, 1000);
}

/// Executable form of [`processing_extent_spec`].
pub fn processing_extent(host: u32, scale_milli: u32) -> (r: u32)
    requires
        2 <= host <= MAX_TEXTURE_DIM,
    ensures
        r == processing_extent_spec(host as int, scale_milli as int),
        2 <= r <= host,
{
    let clamped: u32 = if scale_milli < MIN_RESOLUTION_SCALE_MILLI {
        MIN_RESOLUTION_SCALE_MILLI
    } else if scale_milli > MAX_RESOLUTION_SCALE_MILLI {
        MAX_RESOLUTION_SCALE_MILLI
    } else {
        scale_milli
    };
    proof {
        lemma_processing_extent_bounds(host as int, scale_milli as int);
        assert(host * clamped <= 0xFFFF * 1000) by (nonlinear_arith)
            requires
                0 <= host <= 0xFFFF,
                0 <= clamped <= 1000,
        ;
    }
    let scaled: u64 = ((host as u64) * (clamped as u64)) / 1000;
    if scaled < MIN_PROCESSING_EXTENT as u64 {
        MIN_PROCESSING_EXTENT
    } else {
        scaled as u32
    }
}

/// The processing dimensions for a frame: each host axis scaled the same
/// way.
pub fn processing_dims(host_w: u32, host_h: u32, scale_milli: u32) -> (r: (u32, u32))
    requires
        2 <= host_w <= MAX_TEXTURE_DIM,
        2 <= host_h <= MAX_TEXTURE_DIM,
    ensures
        r.0 == processing_extent_spec(host_w as int, scale_milli as int),
        r.1 == processing_extent_spec(host_h as int, scale_milli as int),
        2 <= r.0 <= host_w,
        2 <= r.1 <= host_h,
{
    (processing_extent(host_w, scale_milli), processing_extent(host_h, scale_milli))
}

/// Whether the given filter quality selects bilinear filtering.
pub fn use_bilinear(filter_quality_milli: u32) -> (r: bool)
    ensures
        r == (filter_quality_milli >= BILINEAR_THRESHOLD_MILLI),
{
    filter_quality_milli >= BILINEAR_THRESHOLD_MILLI
}

} // verus!
