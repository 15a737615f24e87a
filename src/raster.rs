//! The image codec this library drives: decoding, cutting out, resampling
//! and GIF encoding, each one call into the `image` crate.

use vstd::prelude::*;
use crate::geometry::CropRect;

verus! {

#[verifier::external_type_specification]
#[verifier::external_body]
pub struct ExDynamicImage(image::DynamicImage);

/// The resampling algorithm used when an image is resized.
#[derive(Clone, Copy, Debug, PartialEq, Eq, Structural)]
pub enum Filter {
    Nearest,
    Triangle,
    CatmullRom,
    Gaussian,
    Lanczos3,
}

impl Filter {
    /// The filter used when none is chosen.
    pub fn default_filter() -> (r: Filter)
        ensures
            r == Filter::Lanczos3,
    {
        Filter::Lanczos3
    }
}

/// The six bytes that open every GIF89a stream.
pub open spec fn gif_signature() -> Seq<u8> {
    seq![0x47u8, 0x49u8, 0x46u8, 0x38u8, 0x39u8, 0x61u8]
}

/// Largest side, in pixels, that a GIF frame can have.
pub const GIF_MAX_SIDE: u32 = 65535;

/// What the codec makes of `data` when the format is chosen by the file
/// extension `ext` (as `image::open` chooses it): the decoded image's width
/// and height, or nothing where no format has that extension or the bytes are
/// no image of that format.
pub uninterp spec fn decoded_size(ext: Seq<u8>, data: Seq<u8>) -> Option<(u32, u32)>;

/// A decoded image together with its size in pixels, the rectangle of the
/// decoded source that it shows, and the filter it was last resampled with.
/// The size is measured by the codec whenever a value is made; none of these
/// can be set from outside.
pub struct Raster {
    image: image::DynamicImage,
    width: u32,
    height: u32,
    region: CropRect,
    filter: Option<Filter>,
}

impl Raster {
    pub closed spec fn width_of(&self) -> u32 {
        self.width
    }

    pub closed spec fn height_of(&self) -> u32 {
        self.height
    }

    /// The rectangle of the decoded source that these pixels show.
    pub closed spec fn region_of(&self) -> CropRect {
        self.region
    }

    /// The filter of the last resampling, if there was one.
    pub closed spec fn filter_of(&self) -> Option<Filter> {
        self.filter
    }

    /// Width in pixels.
    pub fn width(&self) -> (r: u32)
        ensures
            r == self.width_of(),
    {
        self.width
    }

    /// Height in pixels.
    pub fn height(&self) -> (r: u32)
        ensures
            r == self.height_of(),
    {
        self.height
    }

    /// The rectangle of the decoded source that these pixels show.
    pub fn region(&self) -> (r: CropRect)
        ensures
            r == self.region_of(),
    {
        self.region
    }

    /// The filter of the last resampling, if there was one.
    pub fn filter(&self) -> (r: Option<Filter>)
        ensures
            r == self.filter_of(),
    {
        self.filter
    }

    /// The pixels.
    pub fn image(&self) -> &image::DynamicImage {
        &self.image
    }
}

/// Relies on `ImageFormat::from_extension` and `ImageReader::with_format(..)
/// .decode()`, the two steps of `image::open` once the file is read: picks the
/// format by the extension, then decodes the bytes as that format or fails.
/// `width` and `height` of the result give its size.
#[verifier::external_body]
pub(crate) fn decode(ext: &[u8], data: &[u8]) -> (r: Option<Raster>)
    ensures
        r matches Some(img) ==> decoded_size(ext@, data@) == Some((img.width_of(), img.height_of()))
            && img.region_of() == (CropRect { x: 0, y: 0, width: img.width_of(), height: img.height_of() })
            && img.filter_of().is_none(),
        r.is_none() ==> decoded_size(ext@, data@).is_none(),
{
    let format = image::ImageFormat::from_extension(std::str::from_utf8(ext).ok()?)?;
    let reader = image::ImageReader::with_format(std::io::Cursor::new(data), format);
    let image = reader.decode().ok()?;
    let (width, height) = (image.width(), image.height());
    let region = CropRect { x: 0, y: 0, width, height };
    Some(Raster { image, width, height, region, filter: None })
}

/// Relies on `DynamicImage::crop_imm`: a copy of the pixels inside `rect`,
/// which has exactly the rectangle's size where it lies within the image.
/// Cut from a whole decoded source, it shows `rect` of that source.
#[verifier::external_body]
pub(crate) fn cut_out(img: &Raster, rect: CropRect) -> (r: Raster)
    requires
        img.region_of() == (CropRect { x: 0, y: 0, width: img.width_of(), height: img.height_of() }),
        rect.x + rect.width <= img.width_of(),
        rect.y + rect.height <= img.height_of(),
    ensures
        r.width_of() == rect.width,
        r.height_of() == rect.height,
        r.region_of() == rect,
        r.filter_of() == img.filter_of(),
{
    let image = img.image.crop_imm(rect.x, rect.y, rect.width, rect.height);
    let (width, height) = (image.width(), image.height());
    Raster { image, width, height, region: rect, filter: img.filter }
}

/// Relies on `DynamicImage::resize_exact`: resamples the image with `filter`
/// to exactly `width` x `height`, whatever the aspect ratio. It shows the same
/// part of the source as before.
#[verifier::external_body]
pub(crate) fn resample(img: &Raster, width: u32, height: u32, filter: Filter) -> (r: Raster)
    ensures
        r.width_of() == width,
        r.height_of() == height,
        r.region_of() == img.region_of(),
        r.filter_of() == Some(filter),
{
    let kind = match filter {
        Filter::Nearest => image::imageops::FilterType::Nearest,
        Filter::Triangle => image::imageops::FilterType::Triangle,
        Filter::CatmullRom => image::imageops::FilterType::CatmullRom,
        Filter::Gaussian => image::imageops::FilterType::Gaussian,
        Filter::Lanczos3 => image::imageops::FilterType::Lanczos3,
    };
    let image = img.image.resize_exact(width, height, kind);
    let (width, height) = (image.width(), image.height());
    Raster { image, width, height, region: img.region, filter: Some(filter) }
}

/// Relies on `GifEncoder::encode_frame`, given the image as one RGBA frame
/// (`Frame::new` of `into_rgba8`), writing into a `Vec`: it fails only where
/// a side does not fit a GIF frame's 16 bits, and the stream then starts
/// with the GIF89a header that `gif::Encoder::new` writes before any frame.
#[verifier::external_body]
pub(crate) fn encode_gif(img: Raster) -> (r: Option<Vec<u8>>)
    requires
        img.width_of() > 0,
        img.height_of() > 0,
    ensures
        r.is_some() == (img.width_of() <= GIF_MAX_SIDE && img.height_of() <= GIF_MAX_SIDE),
        r matches Some(bytes) ==> bytes@.len() >= 6 && bytes@.subrange(0, 6) == gif_signature(),
{
    let mut out: Vec<u8> = Vec::new();
    let done = image::codecs::gif::GifEncoder::new(&mut out).encode_frame(
        image::Frame::new(img.image.into_rgba8()),
    );
    match done {
        Ok(()) => Some(out),
        Err(_) => None,
    }
}

} // verus!
