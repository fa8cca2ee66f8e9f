use vstd::prelude::*;
use image::ImageEncoder;

verus! {

/// What decoding these PNG bytes into 8-bit RGBA gives: width, height and
/// pixels; none when the bytes are not a PNG the `image` crate can read.
pub uninterp spec fn png_decoded(png: Seq<u8>) -> Option<(u32, u32, Seq<u8>)>;

/// The PNG bytes that the `image` crate's PNG encoder writes for these RGBA
/// pixels; none when it reports an error.
pub uninterp spec fn png_encoded(rgba: Seq<u8>, width: u32, height: u32) -> Option<Seq<u8>>;

/// The `image` crate's thumbnail, fitted within 128 by 128 pixels, of an RGBA image.
pub uninterp spec fn thumbnail_128(width: u32, height: u32, rgba: Seq<u8>) -> (u32, u32, Seq<u8>);

/// The pixels of `bottom` once the `image` crate's `overlay` has blended `top` onto it at (`x`, `y`).
pub uninterp spec fn overlaid(
    bottom: Seq<u8>,
    bottom_width: u32,
    bottom_height: u32,
    top: Seq<u8>,
    top_width: u32,
    top_height: u32,
    x: i64,
    y: i64,
) -> Seq<u8>;

/// Whether `RgbaImage::from_raw` accepts a buffer of `len` bytes for a
/// `width` by `height` image: the bytes of a row and of all rows fit in `usize`,
/// and the buffer holds them.
pub open spec fn rgba_fits(width: u32, height: u32, len: int) -> bool {
    4 * width <= usize::MAX && 4 * width * height <= usize::MAX && 4 * width * height <= len
}

/// Calls `image::load_from_memory_with_format` with the PNG format and converts
/// the image to 8-bit RGBA. Trusted: a success is `png_decoded` of the bytes,
/// a failure means `png_decoded` is none. The error's text is not stated.
#[verifier::external_body]
pub(crate) fn decode_png(png: &[u8]) -> (decoded: Result<(u32, u32, Vec<u8>), String>)
    ensures
        match decoded {
            Ok((width, height, rgba)) => png_decoded(png@) == Some((width, height, rgba@)),
            Err(_) => png_decoded(png@) is None,
        },
{
    match image::load_from_memory_with_format(png, image::ImageFormat::Png) {
        Ok(image) => {
            let rgba = image.into_rgba8();
            Ok((rgba.width(), rgba.height(), rgba.into_raw()))
        },
        Err(error) => Err(error.to_string()),
    }
}

/// Calls `write_image` of `image::codecs::png::PngEncoder` with 8-bit RGBA
/// pixels. Trusted: a success is `png_encoded` of the arguments, a failure means
/// it is none; the encoder panics unless the buffer holds exactly
/// `4 * width * height` bytes, which `requires` leaves out.
#[verifier::external_body]
pub(crate) fn encode_png(rgba: &[u8], width: u32, height: u32) -> (png: Result<Vec<u8>, String>)
    requires
        rgba@.len() == 4 * width * height,
    ensures
        match png {
            Ok(bytes) => png_encoded(rgba@, width, height) == Some(bytes@),
            Err(_) => png_encoded(rgba@, width, height) is None,
        },
{
    let mut png = Vec::new();
    match image::codecs::png::PngEncoder::new(&mut png).write_image(
        rgba,
        width,
        height,
        image::ExtendedColorType::Rgba8,
    ) {
        Ok(()) => Ok(png),
        Err(error) => Err(error.to_string()),
    }
}

/// Calls `thumbnail(128, 128)` of `image::DynamicImage` on the RGBA image.
/// Trusted: the result is `thumbnail_128` of the arguments; it fits within 128
/// by 128 pixels and is at least one pixel wide and high (the crate scales to
/// the largest size within the bounds and never below one pixel), and its buffer
/// holds exactly its pixels.
#[verifier::external_body]
pub(crate) fn thumbnail(width: u32, height: u32, rgba: Vec<u8>) -> (thumb: (u32, u32, Vec<u8>))
    requires
        rgba_fits(width, height, rgba@.len() as int),
    ensures
        (thumb.0, thumb.1, thumb.2@) == thumbnail_128(width, height, rgba@),
        1 <= thumb.0 <= 128,
        1 <= thumb.1 <= 128,
        thumb.2@.len() == 4 * thumb.0 * thumb.1,
{
    let pixels = image::RgbaImage::from_raw(width, height, rgba).unwrap();
    let thumb = image::DynamicImage::ImageRgba8(pixels).thumbnail(128, 128).into_rgba8();
    (thumb.width(), thumb.height(), thumb.into_raw())
}

/// Calls `image::imageops::overlay` to blend `top` onto `bottom` at (`x`, `y`).
/// Trusted: the result is `overlaid` of the arguments, with the size of `bottom`;
/// `RgbaImage::from_raw` accepts both buffers because their sizes fit (`rgba_fits`).
#[verifier::external_body]
pub(crate) fn overlay(
    bottom: Vec<u8>,
    bottom_width: u32,
    bottom_height: u32,
    top: Vec<u8>,
    top_width: u32,
    top_height: u32,
    x: i64,
    y: i64,
) -> (blended: Vec<u8>)
    requires
        bottom@.len() == 4 * bottom_width * bottom_height,
        top@.len() == 4 * top_width * top_height,
        rgba_fits(bottom_width, bottom_height, bottom@.len() as int),
        rgba_fits(top_width, top_height, top@.len() as int),
    ensures
        blended@ == overlaid(bottom@, bottom_width, bottom_height, top@, top_width, top_height, x, y),
        blended@.len() == bottom@.len(),
{
    let mut under = image::RgbaImage::from_raw(bottom_width, bottom_height, bottom).unwrap();
    let over = image::RgbaImage::from_raw(top_width, top_height, top).unwrap();
    image::imageops::overlay(&mut under, &over, x, y);
    under.into_raw()
}

} // verus!
