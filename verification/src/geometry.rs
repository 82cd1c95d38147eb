//! Crop resolution: how much of a requested crop can be applied while keeping
//! at least [`MIN_EXTENT`] pixels along each axis.
//!
//! Crop margins come from metadata and are not trusted. Along each axis the
//! requested margins are honoured as far as they leave [`MIN_EXTENT`] pixels,
//! and cut back where they would leave fewer.

use vstd::prelude::*;

verus! {

/// Smallest width and height that a cropped image may have.
pub const MIN_EXTENT: usize = 10;

/// The smaller of two integers.
pub open spec fn min_int(a: int, b: int) -> int {
    if a <= b {
        a
    } else {
        b
    }
}

/// First kept pixel along an axis of `extent` pixels when `lead` pixels are
/// to be cropped before it.
pub open spec fn crop_origin(extent: int, lead: int) -> int {
    min_int(lead, extent - MIN_EXTENT)
}

/// Number of pixels kept along an axis of `extent` pixels when `lead` pixels
/// are to be cropped before and `trail` pixels after.
pub open spec fn crop_extent(extent: int, lead: int, trail: int) -> int {
    extent - min_int(lead + trail, extent - MIN_EXTENT)
}

/// Resolves the crop along one axis: returns the origin and the kept extent.
///
/// The margins may be of any size; their sum is never formed where it could
/// overflow.
pub fn resolve_axis(extent: usize, lead: usize, trail: usize) -> (r: (usize, usize))
    requires
        extent >= MIN_EXTENT,
    ensures
        r.0 == crop_origin(extent as int, lead as int),
        r.1 == crop_extent(extent as int, lead as int, trail as int),
{
    let slack: usize = extent - MIN_EXTENT;
    if lead >= slack {
        (slack, MIN_EXTENT)
    } else if trail >= slack - lead {
        (lead, MIN_EXTENT)
    } else {
        (lead, extent - (lead + trail))
    }
}

/// Whatever the margins, an axis of at least [`MIN_EXTENT`] pixels keeps at
/// least [`MIN_EXTENT`] of them, and the kept pixels lie inside the axis.
pub proof fn lemma_min_size(extent: int, lead: int, trail: int)
    requires
        extent >= MIN_EXTENT,
        lead >= 0,
        trail >= 0,
    ensures
        crop_extent(extent, lead, trail) >= MIN_EXTENT,
        crop_extent(extent, lead, trail) <= extent,
        0 <= crop_origin(extent, lead),
        crop_origin(extent, lead) + crop_extent(extent, lead, trail) <= extent,
{
}

/// Margins that leave at least [`MIN_EXTENT`] pixels are applied in full.
pub proof fn lemma_crop_applied(extent: int, lead: int, trail: int)
    requires
        lead >= 0,
        trail >= 0,
        lead + trail + MIN_EXTENT <= extent,
    ensures
        crop_origin(extent, lead) == lead,
        crop_extent(extent, lead, trail) == extent - lead - trail,
{
}

} // verus!
