use vstd::prelude::*;
use image::RgbImage;

verus! {

/// An RGB image of the `image` crate (`image::RgbImage`), held opaquely; its
/// contents are known to verified code through `raster_bytes`,
/// `raster_width` and `raster_height`.
#[verifier::external_body]
pub struct RgbRaster {
    image: RgbImage,
}

impl RgbRaster {
    /// The width of the image.
    pub fn width(&self) -> (w: u32)
        ensures
            w == raster_width(*self),
    {
        raster_width_of(self)
    }

    /// The height of the image.
    pub fn height(&self) -> (h: u32)
        ensures
            h == raster_height(*self),
    {
        raster_height_of(self)
    }

    /// The bytes of the image, row by row, three per pixel.
    pub fn into_raw(self) -> (bytes: Vec<u8>)
        ensures
            bytes@ == raster_bytes(self),
    {
        raster_into_raw(self)
    }
}

/// The subpixel bytes the image holds, row by row, three per pixel.
pub uninterp spec fn raster_bytes(img: RgbRaster) -> Seq<u8>;

/// The width the image was made with.
pub uninterp spec fn raster_width(img: RgbRaster) -> u32;

/// The height the image was made with.
pub uninterp spec fn raster_height(img: RgbRaster) -> u32;

/// `image::ImageBuffer::<Rgb<u8>, Vec<u8>>::from_raw`: returns an image when
/// `3 * width` and `3 * width * height` fit in `usize` (the crate computes the
/// needed length with `checked_mul` in that order) and the needed length is at
/// most the length of `buf`; the image then keeps `buf` as its data together
/// with the two dimensions. Returns `None` otherwise.
#[verifier::external_body]
pub(crate) fn raster_from_raw(width: u32, height: u32, buf: Vec<u8>) -> (res: Option<RgbRaster>)
    ensures
        res is Some <==> {
            &&& 3 * width <= usize::MAX
            &&& 3 * width * height <= usize::MAX
            &&& 3 * width * height <= buf@.len()
        },
        res matches Some(img) ==> {
            &&& raster_bytes(img) == buf@
            &&& raster_width(img) == width
            &&& raster_height(img) == height
        },
{
    RgbImage::from_raw(width, height, buf).map(|image| RgbRaster { image })
}

/// `image::ImageBuffer::width`: the width the image was made with.
#[verifier::external_body]
fn raster_width_of(img: &RgbRaster) -> (w: u32)
    ensures
        w == raster_width(*img),
{
    img.image.width()
}

/// `image::ImageBuffer::height`: the height the image was made with.
#[verifier::external_body]
fn raster_height_of(img: &RgbRaster) -> (h: u32)
    ensures
        h == raster_height(*img),
{
    img.image.height()
}

/// `image::ImageBuffer::into_raw`: hands out the buffer the image holds.
#[verifier::external_body]
fn raster_into_raw(img: RgbRaster) -> (bytes: Vec<u8>)
    ensures
        bytes@ == raster_bytes(img),
{
    img.image.into_raw()
}

} // verus!
