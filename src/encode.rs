use image::codecs::jpeg::JpegEncoder;
use image::codecs::png::PngEncoder;
use image::{ExtendedColorType, ImageEncoder, ImageError};
use vstd::prelude::*;

verus! {

/// `image::ImageError`, which the encoders report; carried as an opaque value.
#[verifier::external_type_specification]
#[verifier::external_body]
pub struct ExImageError(ImageError);

/// The PNG file (8-bit RGB, default compression and filter) of an image
/// given as raw RGB bytes.
pub uninterp spec fn png_encoded(pixels: Seq<u8>, width: u32, height: u32) -> Seq<u8>;

/// The JPEG file (8-bit RGB, quality 75) of an image given as raw RGB bytes.
pub uninterp spec fn jpeg_encoded(pixels: Seq<u8>, width: u32, height: u32) -> Seq<u8>;

/// Relies on `image::codecs::png::PngEncoder::write_image` with `Rgb8`: on
/// success the bytes written depend on the pixels and dimensions alone. It
/// panics unless the buffer holds exactly three bytes per pixel, and fails
/// only on a zero width or height (the `png` encoder's header check; image
/// data is split into chunks, and writing to a vector cannot fail).
#[verifier::external_body]
pub(crate) fn encode_png(pixels: &Vec<u8>, width: u32, height: u32) -> (r: Result<
    Vec<u8>,
    ImageError,
>)
    requires
        pixels@.len() == width * height * 3,
    ensures
        r matches Ok(b) ==> b@ == png_encoded(pixels@, width, height),
        width > 0 && height > 0 ==> r is Ok,
{
    let mut buffer = Vec::new();
    PngEncoder::new(&mut buffer).write_image(
        pixels.as_slice(),
        width,
        height,
        ExtendedColorType::Rgb8,
    ).map(move |_| buffer)
}

/// Relies on `image::codecs::jpeg::JpegEncoder::write_image` with `Rgb8`: on
/// success the bytes written depend on the pixels and dimensions alone. It
/// panics unless the buffer holds exactly three bytes per pixel, and fails
/// only when a side is outside 1 to 65535 (`encode_image`'s size check;
/// writing to a vector cannot fail).
#[verifier::external_body]
pub(crate) fn encode_jpeg(pixels: &Vec<u8>, width: u32, height: u32) -> (r: Result<
    Vec<u8>,
    ImageError,
>)
    requires
        pixels@.len() == width * height * 3,
    ensures
        r matches Ok(b) ==> b@ == jpeg_encoded(pixels@, width, height),
        0 < width <= 65535 && 0 < height <= 65535 ==> r is Ok,
{
    let mut buffer = Vec::new();
    JpegEncoder::new(&mut buffer).write_image(
        pixels.as_slice(),
        width,
        height,
        ExtendedColorType::Rgb8,
    ).map(move |_| buffer)
}

} // verus!
