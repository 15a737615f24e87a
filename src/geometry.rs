//! Crop and resize arithmetic: which rectangle survives a symmetric crop,
//! and which size a rescale asks for.

use vstd::prelude::*;

verus! {

/// Largest accepted scale, in millionths (a factor of 10).
pub const MAX_SCALE_MILLIONTHS: u32 = 10_000_000;

/// The scale 1.0, in millionths.
pub const UNIT_SCALE_MILLIONTHS: u32 = 1_000_000;

/// A uniform scale factor held in millionths: `millionths == 1_000_000` is 1.0.
#[derive(Clone, Copy, Debug, PartialEq, Eq, Structural)]
pub struct Scale {
    pub millionths: u32,
}

impl Scale {
    pub open spec fn wf(self) -> bool {
        self.millionths <= MAX_SCALE_MILLIONTHS
    }

    /// A scale of `millionths` millionths, clamped to the largest accepted scale.
    pub fn new(millionths: u32) -> (r: Scale)
        ensures
            r.wf(),
            millionths <= MAX_SCALE_MILLIONTHS ==> r.millionths == millionths,
            millionths > MAX_SCALE_MILLIONTHS ==> r.millionths == MAX_SCALE_MILLIONTHS,
    {
        if millionths > MAX_SCALE_MILLIONTHS {
            Scale { millionths: MAX_SCALE_MILLIONTHS }
        } else {
            Scale { millionths }
        }
    }

    /// The scale 1.0, which keeps every size of at least 2.
    pub fn identity() -> (r: Scale)
        ensures
            r.wf(),
            r.millionths == UNIT_SCALE_MILLIONTHS,
    {
        Scale { millionths: UNIT_SCALE_MILLIONTHS }
    }
}

/// The part of an image that a crop keeps.
#[derive(Clone, Copy, Debug, PartialEq, Eq, Structural)]
pub struct CropRect {
    pub x: u32,
    pub y: u32,
    pub width: u32,
    pub height: u32,
}

/// A crop margin that leaves nothing of an image on at least one axis.
#[derive(Clone, Copy, Debug, PartialEq, Eq, Structural)]
pub struct CropRejected {
    pub margin: u32,
    pub width: u32,
    pub height: u32,
}

/// A margin fits when twice of it is less than both sides.
pub open spec fn crop_fits(width: u32, height: u32, margin: u32) -> bool {
    2 * margin < width && 2 * margin < height
}

/// What a crop by `margin` on each of the four sides yields: the whole image
/// for margin 0, the inner rectangle where the margin fits, a rejection else.
pub open spec fn crop_spec(width: u32, height: u32, margin: u32) -> Result<CropRect, CropRejected> {
    if margin == 0 {
        Ok(CropRect { x: 0, y: 0, width, height })
    } else if crop_fits(width, height, margin) {
        Ok(
            CropRect {
                x: margin,
                y: margin,
                width: (width - 2 * margin) as u32,
                height: (height - 2 * margin) as u32,
            },
        )
    } else {
        Err(CropRejected { margin, width, height })
    }
}

/// `round(dim * millionths / 1_000_000)`, halves rounded up.
pub open spec fn rounded_scale(dim: u32, millionths: u32) -> int {
    (dim * millionths + 500_000) / 1_000_000
}

/// The size that a rescale asks for on one axis: the rounded product, at
/// least 2, and at most the largest `u32`.
pub open spec fn scaled_dim(dim: u32, millionths: u32) -> u32 {
    let r = rounded_scale(dim, millionths);
    if r < 2 {
        2
    } else if r > u32::MAX {
        u32::MAX
    } else {
        r as u32
    }
}

/// Removes `margin` pixels from each side of a `width` x `height` image.
pub fn compute_crop(width: u32, height: u32, margin: u32) -> (r: Result<CropRect, CropRejected>)
    ensures
        r == crop_spec(width, height, margin),
{
    if margin == 0 {
        return Ok(CropRect { x: 0, y: 0, width, height });
    }
    let total: u64 = 2 * (margin as u64);
    if total < width as u64 && total < height as u64 {
        Ok(
            CropRect {
                x: margin,
                y: margin,
                width: (width as u64 - total) as u32,
                height: (height as u64 - total) as u32,
            },
        )
    } else {
        Err(CropRejected { margin, width, height })
    }
}

fn scale_dim(dim: u32, millionths: u32) -> (r: u32)
    requires
        millionths <= MAX_SCALE_MILLIONTHS,
    ensures
        r == scaled_dim(dim, millionths),
{
    assert(dim * millionths <= 0xffff_ffff * 10_000_000) by (nonlinear_arith)
        requires
            dim <= 0xffff_ffff,
            millionths <= 10_000_000,
    ;
    let r: u64 = ((dim as u64) * (millionths as u64) + 500_000) / 1_000_000;
    if r < 2 {
        2
    } else if r > u32::MAX as u64 {
        u32::MAX
    } else {
        r as u32
    }
}

/// The size that rescaling a `width` x `height` image by `scale` asks for.
pub fn compute_resize(width: u32, height: u32, scale: Scale) -> (r: (u32, u32))
    requires
        scale.wf(),
    ensures
        r == (scaled_dim(width, scale.millionths), scaled_dim(height, scale.millionths)),
{
    (scale_dim(width, scale.millionths), scale_dim(height, scale.millionths))
}

/// A margin that fits leaves `width - 2 * margin` by `height - 2 * margin`
/// pixels, starting `margin` pixels in from the top-left corner.
pub proof fn lemma_crop_fitting_margin(width: u32, height: u32, margin: u32)
    requires
        crop_fits(width, height, margin),
    ensures
        crop_spec(width, height, margin) == Ok::<CropRect, CropRejected>(
            CropRect {
                x: margin,
                y: margin,
                width: (width - 2 * margin) as u32,
                height: (height - 2 * margin) as u32,
            },
        ),
{
}

/// A positive margin whose double reaches either side is rejected, and the
/// rejection carries the margin and the size it was tried on.
pub proof fn lemma_crop_oversized_margin(width: u32, height: u32, margin: u32)
    requires
        margin > 0,
        2 * margin >= width || 2 * margin >= height,
    ensures
        crop_spec(width, height, margin) == Err::<CropRect, CropRejected>(
            CropRejected { margin, width, height },
        ),
{
}

/// Margin 0 keeps the whole image, whatever its size.
pub proof fn lemma_crop_zero_margin(width: u32, height: u32)
    ensures
        crop_spec(width, height, 0) == Ok::<CropRect, CropRejected>(
            CropRect { x: 0, y: 0, width, height },
        ),
{
}

/// For every accepted scale, each side becomes its rounded product, raised to
/// 2 where it falls short, as long as the product fits in a `u32`.
pub proof fn lemma_resize_rounds_and_floors(dim: u32, scale: Scale)
    requires
        scale.wf(),
        rounded_scale(dim, scale.millionths) <= u32::MAX,
    ensures
        scaled_dim(dim, scale.millionths) as int == if rounded_scale(dim, scale.millionths) < 2 {
            2
        } else {
            rounded_scale(dim, scale.millionths)
        },
{
}

/// Scale 1.0 keeps every side of at least 2 pixels.
pub proof fn lemma_resize_identity(dim: u32)
    requires
        dim >= 2,
    ensures
        scaled_dim(dim, UNIT_SCALE_MILLIONTHS) == dim,
{
    assert((dim * 1_000_000 + 500_000) / 1_000_000 == dim) by (nonlinear_arith);
}

} // verus!
