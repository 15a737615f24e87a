//! Converting one image: decode, crop, rescale, encode as a one-frame GIF.

use vstd::prelude::*;
use crate::geometry::{
    compute_crop, compute_resize, crop_spec, scaled_dim, CropRect, CropRejected, Scale,
    MAX_SCALE_MILLIONTHS, UNIT_SCALE_MILLIONTHS,
};
use crate::raster::{
    cut_out, decode, decoded_size, encode_gif, gif_signature, resample, Filter, Raster, GIF_MAX_SIDE,
};

verus! {

/// What every file of a batch is converted with.
#[derive(Clone, Copy, Debug, PartialEq, Eq, Structural)]
pub struct ConversionRequest {
    pub scale: Scale,
    pub crop_margin: u32,
    pub filter: Filter,
}

impl ConversionRequest {
    pub open spec fn wf(self) -> bool {
        self.scale.wf()
    }

    /// A request with the scale clamped to the largest accepted one.
    pub fn new(scale_millionths: u32, crop_margin: u32, filter: Filter) -> (r: ConversionRequest)
        ensures
            r.wf(),
            r.crop_margin == crop_margin,
            r.filter == filter,
            scale_millionths <= MAX_SCALE_MILLIONTHS ==> r.scale.millionths == scale_millionths,
            scale_millionths > MAX_SCALE_MILLIONTHS ==> r.scale.millionths == MAX_SCALE_MILLIONTHS,
    {
        ConversionRequest { scale: Scale::new(scale_millionths), crop_margin, filter }
    }
}

/// Why one image could not be converted.
#[derive(Clone, Copy, Debug, PartialEq, Eq, Structural)]
pub enum ConvertError {
    /// The bytes are no image that the codec can read.
    Decode,
    /// The crop margin leaves nothing of the image.
    CropRejected(CropRejected),
    /// The codec could not encode the result as a GIF.
    Encode,
}

/// The sizes that one conversion goes through.
#[derive(Clone, Copy, Debug, PartialEq, Eq, Structural)]
pub struct Plan {
    pub source_width: u32,
    pub source_height: u32,
    /// The part of the source that is kept (all of it for margin 0).
    pub crop: CropRect,
    pub target_width: u32,
    pub target_height: u32,
}

/// The plan for a `width` x `height` source: crop first, then rescale what
/// is left; a margin that does not fit fails the whole conversion.
pub open spec fn plan_spec(width: u32, height: u32, req: ConversionRequest) -> Result<
    Plan,
    ConvertError,
> {
    match crop_spec(width, height, req.crop_margin) {
        Err(e) => Err(ConvertError::CropRejected(e)),
        Ok(rect) => Ok(
            Plan {
                source_width: width,
                source_height: height,
                crop: rect,
                target_width: scaled_dim(rect.width, req.scale.millionths),
                target_height: scaled_dim(rect.height, req.scale.millionths),
            },
        ),
    }
}

/// The plan for converting a `width` x `height` image under `req`.
pub fn plan_conversion(width: u32, height: u32, req: &ConversionRequest) -> (r: Result<
    Plan,
    ConvertError,
>)
    requires
        req.wf(),
    ensures
        r == plan_spec(width, height, *req),
{
    match compute_crop(width, height, req.crop_margin) {
        Err(e) => Err(ConvertError::CropRejected(e)),
        Ok(rect) => {
            let (target_width, target_height) = compute_resize(rect.width, rect.height, req.scale);
            Ok(
                Plan {
                    source_width: width,
                    source_height: height,
                    crop: rect,
                    target_width,
                    target_height,
                },
            )
        },
    }
}

/// Whether a plan's target fits a GIF frame.
pub open spec fn fits_gif(p: Plan) -> bool {
    p.target_width <= GIF_MAX_SIDE && p.target_height <= GIF_MAX_SIDE
}

/// What converting an image of decoded size `size` (none: undecodable)
/// yields: a decode failure, a crop rejection, an encode failure for a target
/// too large for a GIF frame, or the plan that the GIF was made by.
pub open spec fn outcome_spec(size: Option<(u32, u32)>, req: ConversionRequest) -> Result<
    Plan,
    ConvertError,
> {
    match size {
        None => Err(ConvertError::Decode),
        Some((w, h)) => match plan_spec(w, h, req) {
            Err(e) => Err(e),
            Ok(p) => if fits_gif(p) {
                Ok(p)
            } else {
                Err(ConvertError::Encode)
            },
        },
    }
}

/// What converting an image whose decoder reported `size` yields, without
/// the pixels: the plan, or the error that the conversion ends in.
pub fn expected_outcome(size: Option<(u32, u32)>, req: &ConversionRequest) -> (r: Result<
    Plan,
    ConvertError,
>)
    requires
        req.wf(),
    ensures
        r == outcome_spec(size, *req),
{
    match size {
        None => Err(ConvertError::Decode),
        Some((w, h)) => match plan_conversion(w, h, req) {
            Err(e) => Err(e),
            Ok(p) => if p.target_width <= GIF_MAX_SIDE && p.target_height <= GIF_MAX_SIDE {
                Ok(p)
            } else {
                Err(ConvertError::Encode)
            },
        },
    }
}

/// Crops and rescales a whole decoded image under `req` by the plan for its
/// size, and returns the result, which shows the plan's crop of the source at
/// the target size, resampled with the requested filter, with that plan; a
/// crop margin that does not fit the size is the only failure.
pub fn transform(img: &Raster, req: &ConversionRequest) -> (r: Result<(Raster, Plan), ConvertError>)
    requires
        req.wf(),
        img.region_of() == (CropRect { x: 0, y: 0, width: img.width_of(), height: img.height_of() }),
    ensures
        match plan_spec(img.width_of(), img.height_of(), *req) {
            Err(e) => r == Err::<(Raster, Plan), ConvertError>(e),
            Ok(p) => r matches Ok((out, q)) && q == p && out.width_of() == p.target_width
                && out.height_of() == p.target_height && out.region_of() == p.crop
                && out.filter_of() == Some(req.filter),
        },
{
    let plan = match plan_conversion(img.width(), img.height(), req) {
        Ok(p) => p,
        Err(e) => return Err(e),
    };
    let out = if req.crop_margin > 0 {
        let cropped = cut_out(img, plan.crop);
        resample(&cropped, plan.target_width, plan.target_height, req.filter)
    } else {
        resample(img, plan.target_width, plan.target_height, req.filter)
    };
    Ok((out, plan))
}

/// A converted image: the GIF stream and the plan that produced it.
pub struct Converted {
    pub gif: Vec<u8>,
    pub plan: Plan,
}

/// Converts the encoded image `data`, of the format that the file extension
/// `ext` names, into a one-frame GIF under `req`. What comes out is decided by
/// the size the decoder finds: see `outcome_spec`.
/// A crop rejection comes before anything is encoded, and a success holds a
/// GIF stream.
pub fn convert(ext: &[u8], data: &[u8], req: &ConversionRequest) -> (r: Result<Converted, ConvertError>)
    requires
        req.wf(),
    ensures
        outcome_spec(decoded_size(ext@, data@), *req) matches Ok(p) ==> r matches Ok(c) && c.plan == p
            && c.gif@.len() >= 6 && c.gif@.subrange(0, 6) == gif_signature(),
        outcome_spec(decoded_size(ext@, data@), *req) matches Err(e) ==> r == Err::<
            Converted,
            ConvertError,
        >(e),
{
    let img = match decode(ext, data) {
        Some(img) => img,
        None => return Err(ConvertError::Decode),
    };
    let (out, plan) = match transform(&img, req) {
        Ok(done) => done,
        Err(e) => return Err(e),
    };
    match encode_gif(out) {
        Some(gif) => Ok(Converted { gif, plan }),
        None => Err(ConvertError::Encode),
    }
}

/// A positive margin whose double reaches either side of the image fails
/// the conversion with a crop rejection, so no GIF is produced for it.
pub proof fn lemma_oversized_margin_fails(width: u32, height: u32, req: ConversionRequest)
    requires
        req.crop_margin > 0,
        2 * req.crop_margin >= width || 2 * req.crop_margin >= height,
    ensures
        plan_spec(width, height, req) == Err::<Plan, ConvertError>(
            ConvertError::CropRejected(CropRejected { margin: req.crop_margin, width, height }),
        ),
{
}

/// Where the margin fits, the crop keeps exactly `width - 2 * margin` by
/// `height - 2 * margin` pixels, and the target size is that rescaled.
pub proof fn lemma_fitting_margin_plan(width: u32, height: u32, req: ConversionRequest)
    requires
        2 * req.crop_margin < width,
        2 * req.crop_margin < height,
    ensures
        plan_spec(width, height, req) matches Ok(p) && p.crop.width == width - 2 * req.crop_margin
            && p.crop.height == height - 2 * req.crop_margin && p.target_width == scaled_dim(
            p.crop.width,
            req.scale.millionths,
        ) && p.target_height == scaled_dim(p.crop.height, req.scale.millionths),
{
}

/// Margin 0 and scale 1.0 leave every image of at least 2 x 2 pixels at its
/// size.
pub proof fn lemma_identity_plan(width: u32, height: u32, filter: Filter)
    requires
        width >= 2,
        height >= 2,
    ensures
        plan_spec(
            width,
            height,
            (ConversionRequest { scale: Scale { millionths: UNIT_SCALE_MILLIONTHS }, crop_margin: 0, filter }),
        )
            matches Ok(p) && p.target_width == width && p.target_height == height,
{
    crate::geometry::lemma_resize_identity(width);
    crate::geometry::lemma_resize_identity(height);
}

} // verus!
