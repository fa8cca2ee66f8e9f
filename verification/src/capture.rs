use vstd::prelude::*;
use vstd::string::*;
use crate::image_ops::{copy_rows, lemma_region_pixel, region_bytes};
use crate::raster::{decode_png, encode_png, overlay, overlaid, png_decoded, png_encoded, rgba_fits, thumbnail, thumbnail_128};
use crate::text::joined;

verus! {

/// A screenshot: its size in pixels, the PNG bytes, and the decoded 8-bit RGBA
/// pixels, row after row.
#[derive(Debug)]
pub struct CapturedImage {
    pub width: u32,
    pub height: u32,
    /// The PNG bytes.
    pub png: Vec<u8>,
    /// The decoded RGBA pixels for rendering and editing.
    pub rgba: Vec<u8>,
}

/// A screenshot as values: size, PNG bytes and RGBA pixels.
#[verifier::ext_equal]
pub struct ImageView {
    pub width: u32,
    pub height: u32,
    pub png: Seq<u8>,
    pub rgba: Seq<u8>,
}

impl View for CapturedImage {
    type V = ImageView;

    open spec fn view(&self) -> ImageView {
        ImageView { width: self.width, height: self.height, png: self.png@, rgba: self.rgba@ }
    }
}

impl CapturedImage {
    /// A copy of the screenshot.
    pub fn duplicate(&self) -> (copy: Self)
        ensures
            copy@ == self@,
    {
        CapturedImage {
            width: self.width,
            height: self.height,
            png: self.png.clone(),
            rgba: self.rgba.clone(),
        }
    }
}

/// An RGBA image: size in pixels and pixels row after row.
#[derive(Debug)]
pub struct RgbaPixels {
    pub width: u32,
    pub height: u32,
    pub rgba: Vec<u8>,
}

/// The prefix of the message for bytes that are not a PNG.
pub open spec fn decode_failed_prefix() -> Seq<char> {
    "failed to decode screenshot: "@
}

/// Makes a screenshot of PNG bytes and the decoder's outcome for them; a
/// failure's text follows `decode_failed_prefix`.
pub fn image_from_decoded(png: Vec<u8>, decoded: Result<(u32, u32, Vec<u8>), String>) -> (image: Result<CapturedImage, String>)
    ensures
        match (decoded, image) {
            (Ok((width, height, rgba)), Ok(image)) => image.width == width && image.height == height
                && image.png@ == png@ && image.rgba@ == rgba@,
            (Err(e), Err(message)) => message@ == decode_failed_prefix() + e@,
            _ => false,
        },
{
    match decoded {
        Ok((width, height, rgba)) => Ok(CapturedImage { width, height, png, rgba }),
        Err(error) => Err(joined("failed to decode screenshot: ", error.as_str())),
    }
}

/// Decodes a PNG screenshot, keeping its bytes beside the RGBA pixels.
pub fn decode(png: Vec<u8>) -> (image: Result<CapturedImage, String>)
    ensures
        match png_decoded(png@) {
            Some((width, height, rgba)) => image matches Ok(i) && i.width == width && i.height == height
                && i.png@ == png@ && i.rgba@ == rgba,
            None => image matches Err(m) && m@.len() >= decode_failed_prefix().len() && m@.subrange(
                0,
                decode_failed_prefix().len() as int,
            ) == decode_failed_prefix(),
        },
{
    let decoded = decode_png(png.as_slice());
    let ghost failed = decoded is Err;
    let ghost bytes = png@;
    let image = image_from_decoded(png, decoded);
    proof {
        if failed {
            let m = image->Err_0;
            assert(m@.subrange(0, decode_failed_prefix().len() as int) =~= decode_failed_prefix());
        }
    }
    image
}

/// The message for a selection without area.
pub open spec fn empty_selection_message() -> Seq<char> {
    "Selection is empty"@
}

/// The message for pixels that do not fill the screenshot's size.
pub open spec fn invalid_pixels_message() -> Seq<char> {
    "Invalid screenshot pixels"@
}

/// The smaller of two numbers.
pub open spec fn min_u32(a: int, b: int) -> int {
    if a <= b {
        a
    } else {
        b
    }
}

/// The pixels from (`x`, `y`) to (`right`, `bottom`) of a `width` by `height`
/// screenshot, as the `image` crate's `crop_imm` gives them: the rectangle is
/// first cut down to the screenshot.
pub open spec fn cropped(width: u32, height: u32, rgba: Seq<u8>, x: u32, y: u32, right: u32, bottom: u32) -> Result<(u32, u32, Seq<u8>), Seq<char>> {
    if right <= x || bottom <= y {
        Err(empty_selection_message())
    } else if !rgba_fits(width, height, rgba.len() as int) {
        Err(invalid_pixels_message())
    } else {
        let cx = min_u32(x as int, width as int);
        let cy = min_u32(y as int, height as int);
        let cw = min_u32(right - x, width - cx);
        let ch = min_u32(bottom - y, height - cy);
        Ok((cw as u32, ch as u32, region_bytes(rgba, 4 * width, 4 * cx, cy, 4 * cw, ch)))
    }
}

/// Cuts the pixel rectangle from (`x`, `y`) to (`right`, `bottom`) out of the
/// screenshot, keeping what lies inside it.
pub fn crop_pixels(source: &CapturedImage, x: u32, y: u32, right: u32, bottom: u32) -> (result: Result<RgbaPixels, String>)
    ensures
        match (cropped(source.width, source.height, source.rgba@, x, y, right, bottom), result) {
            (Ok((w, h, rgba)), Ok(pixels)) => pixels.width == w && pixels.height == h && pixels.rgba@ == rgba,
            (Err(e), Err(message)) => message@ == e,
            _ => false,
        },
{
    if right <= x || bottom <= y {
        return Err(String::from_str("Selection is empty"));
    }
    let per_row = match (source.width as usize).checked_mul(4) {
        Some(n) => n,
        None => return Err(String::from_str("Invalid screenshot pixels")),
    };
    let needed = match per_row.checked_mul(source.height as usize) {
        Some(n) => n,
        None => {
            proof {
                assert(4 * source.width * source.height == per_row * source.height) by (nonlinear_arith)
                    requires per_row == source.width * 4;
            }
            return Err(String::from_str("Invalid screenshot pixels"));
        },
    };
    proof {
        assert(4 * source.width * source.height == per_row * source.height) by (nonlinear_arith)
            requires per_row == source.width * 4;
    }
    if needed > source.rgba.len() {
        return Err(String::from_str("Invalid screenshot pixels"));
    }
    let cx = if x <= source.width { x } else { source.width };
    let cy = if y <= source.height { y } else { source.height };
    let cw = if right - x <= source.width - cx { right - x } else { source.width - cx };
    let ch = if bottom - y <= source.height - cy { bottom - y } else { source.height - cy };
    if cw == 0 || ch == 0 {
        let ghost empty = region_bytes(source.rgba@, 4 * source.width, 4 * cx, cy as int, 4 * cw, ch as int);
        proof {
            assert(4 * cw * ch == 0) by (nonlinear_arith)
                requires cw == 0 || ch == 0;
            assert(empty =~= Seq::<u8>::empty());
        }
        return Ok(RgbaPixels { width: cw, height: ch, rgba: Vec::new() });
    }
    proof {
        assert((cy + ch - 1) * (4 * source.width) + 4 * cx + 4 * cw <= (cy + ch) * (4 * source.width)) by (nonlinear_arith)
            requires cx + cw <= source.width;
        assert((cy + ch) * (4 * source.width) <= source.height * (4 * source.width)) by (nonlinear_arith)
            requires cy + ch <= source.height;
        assert(source.height * (4 * source.width) == per_row * source.height) by (nonlinear_arith)
            requires per_row == source.width * 4;
    }
    let rgba = copy_rows(source.rgba.as_slice(), per_row, cx as usize * 4, cy as usize, cw as usize * 4, ch as usize);
    Ok(RgbaPixels { width: cw, height: ch, rgba })
}

/// The message when a freehand selection covers no pixel.
pub open spec fn empty_lasso_message() -> Seq<char> {
    "Selection is empty; draw an area to capture"@
}

/// The pixels with every pixel outside the selection cleared, color channels included.
pub open spec fn masked(rgba: Seq<u8>, inside: Seq<bool>) -> Seq<u8> {
    Seq::new(rgba.len(), |k: int| if inside[k / 4] { rgba[k] } else { 0u8 })
}

/// Clears every pixel outside a freehand selection, given which pixels (row
/// after row) lie inside it; fails when none does.
pub fn apply_mask(pixels: &mut RgbaPixels, inside: &Vec<bool>) -> (result: Result<(), String>)
    requires
        old(pixels).rgba@.len() == 4 * old(pixels).width * old(pixels).height,
        inside@.len() == old(pixels).width * old(pixels).height,
    ensures
        final(pixels).width == old(pixels).width,
        final(pixels).height == old(pixels).height,
        final(pixels).rgba@ == masked(old(pixels).rgba@, inside@),
        result is Ok <==> exists|p: int| 0 <= p < inside@.len() && inside@[p],
        result matches Err(m) ==> m@ == empty_lasso_message(),
{
    let n = pixels.rgba.len();
    let ghost before = pixels.rgba@;
    let ghost width = pixels.width;
    let ghost height = pixels.height;
    proof {
        assert(n == 4 * inside@.len()) by (nonlinear_arith)
            requires n == 4 * width * height, inside@.len() == width * height;
    }
    let mut selected = false;
    let mut k: usize = 0;
    while k < n
        invariant
            n == before.len(),
            n == 4 * inside@.len(),
            pixels.width == width,
            pixels.height == height,
            pixels.rgba@.len() == n,
            k <= n,
            forall|j: int| 0 <= j < k ==> #[trigger] pixels.rgba@[j] == masked(before, inside@)[j],
            forall|j: int| k <= j < n ==> #[trigger] pixels.rgba@[j] == before[j],
            selected <==> exists|p: int| 0 <= p < k / 4 + (if k % 4 == 0 { 0int } else { 1int }) && inside@[p],
        decreases n - k,
    {
        if inside[k / 4] {
            selected = true;
        } else {
            pixels.rgba.set(k, 0);
        }
        proof {
            let p = k as int / 4;
            if inside@[p] {
                assert(0 <= p < (k + 1) / 4 + (if (k + 1) % 4 == 0 { 0int } else { 1int }));
            }
            assert forall|q: int| 0 <= q < (k + 1) / 4 + (if (k + 1) % 4 == 0 { 0int } else { 1int }) && inside@[q]
                implies q == p || (0 <= q < k / 4 + (if k % 4 == 0 { 0int } else { 1int }) && inside@[q]) by {}
        }
        k = k + 1;
    }
    proof {
        assert(pixels.rgba@ =~= masked(before, inside@));
    }
    if selected {
        Ok(())
    } else {
        Err(String::from_str("Selection is empty; draw an area to capture"))
    }
}

/// Makes a screenshot of cropped pixels and the PNG encoder's outcome for them.
pub fn image_from_encoded(pixels: RgbaPixels, encoded: Result<Vec<u8>, String>) -> (image: Result<CapturedImage, String>)
    ensures
        match (encoded, image) {
            (Ok(png), Ok(image)) => image.width == pixels.width && image.height == pixels.height
                && image.png@ == png@ && image.rgba@ == pixels.rgba@,
            (Err(e), Err(message)) => message@ == e@,
            _ => false,
        },
{
    match encoded {
        Ok(png) => Ok(CapturedImage { width: pixels.width, height: pixels.height, png, rgba: pixels.rgba }),
        Err(error) => Err(error),
    }
}

/// Encodes cropped pixels as a PNG screenshot.
pub fn encode_pixels(pixels: RgbaPixels) -> (image: Result<CapturedImage, String>)
    requires
        pixels.rgba@.len() == 4 * pixels.width * pixels.height,
    ensures
        match png_encoded(pixels.rgba@, pixels.width, pixels.height) {
            Some(png) => image matches Ok(i) && i.width == pixels.width && i.height == pixels.height
                && i.png@ == png && i.rgba@ == pixels.rgba@,
            None => image is Err,
        },
{
    let encoded = encode_png(pixels.rgba.as_slice(), pixels.width, pixels.height);
    image_from_encoded(pixels, encoded)
}

/// The 128 by 128 transparent canvas of a notification icon.
pub open spec fn blank_icon() -> Seq<u8> {
    Seq::new(65536, |i: int| 0u8)
}

/// The notification icon of a screenshot: its thumbnail within 128 by 128
/// pixels, centered on a transparent 128 by 128 canvas, as PNG bytes; none when
/// the encoder fails.
pub open spec fn notification_icon(width: u32, height: u32, rgba: Seq<u8>) -> Option<Seq<u8>> {
    let (tw, th, thumb) = thumbnail_128(width, height, rgba);
    png_encoded(
        overlaid(blank_icon(), 128, 128, thumb, tw, th, ((128 - tw) / 2) as i64, ((128 - th) / 2) as i64),
        128,
        128,
    )
}

/// The PNG icon for the capture notification.
pub fn notification_thumbnail(image: &CapturedImage) -> (icon: Result<Vec<u8>, String>)
    ensures
        !rgba_fits(image.width, image.height, image.rgba@.len() as int) ==> (icon matches Err(m) && m@
            == invalid_pixels_message()),
        rgba_fits(image.width, image.height, image.rgba@.len() as int) ==> match notification_icon(
            image.width,
            image.height,
            image.rgba@,
        ) {
            Some(png) => icon matches Ok(bytes) && bytes@ == png,
            None => icon is Err,
        },
{
    let per_row = match (image.width as usize).checked_mul(4) {
        Some(n) => n,
        None => return Err(String::from_str("Invalid screenshot pixels")),
    };
    let needed = match per_row.checked_mul(image.height as usize) {
        Some(n) => n,
        None => {
            proof {
                assert(4 * image.width * image.height == per_row * image.height) by (nonlinear_arith)
                    requires per_row == image.width * 4;
            }
            return Err(String::from_str("Invalid screenshot pixels"));
        },
    };
    proof {
        assert(4 * image.width * image.height == per_row * image.height) by (nonlinear_arith)
            requires per_row == image.width * 4;
    }
    if needed > image.rgba.len() {
        return Err(String::from_str("Invalid screenshot pixels"));
    }
    let (tw, th, thumb) = thumbnail(image.width, image.height, image.rgba.clone());
    let square: Vec<u8> = vec![0u8; 65536];
    proof {
        assert(square@ =~= blank_icon());
    }
    proof {
        assert(4 * tw * th <= 65536) by (nonlinear_arith)
            requires tw <= 128, th <= 128;
    }
    let blended = overlay(square, 128, 128, thumb, tw, th, ((128 - tw) / 2) as i64, ((128 - th) / 2) as i64);
    encode_png(blended.as_slice(), 128, 128)
}

/// Masking a second time with the same selection changes nothing.
pub proof fn lemma_mask_twice(rgba: Seq<u8>, inside: Seq<bool>)
    requires
        rgba.len() == 4 * inside.len(),
    ensures
        masked(masked(rgba, inside), inside) == masked(rgba, inside),
{
    assert(masked(masked(rgba, inside), inside) =~= masked(rgba, inside));
}

/// A crop to a rectangle inside the screenshot (whose pixels fill its size)
/// succeeds and keeps the rectangle whole: it is `right - x` pixels wide and
/// `bottom - y` high, and its pixel (`i`, `j`) is the screenshot's pixel (`x + i`, `y + j`).
pub proof fn lemma_crop_inside(width: u32, height: u32, rgba: Seq<u8>, x: u32, y: u32, right: u32, bottom: u32)
    requires
        x < right <= width,
        y < bottom <= height,
        rgba_fits(width, height, rgba.len() as int),
    ensures
        cropped(width, height, rgba, x, y, right, bottom) matches Ok((w, h, out)) && w == right - x && h
            == bottom - y && out.len() == 4 * w * h && forall|i: int, j: int, c: int|
            0 <= i < w && 0 <= j < h && 0 <= c < 4 ==> #[trigger] out[(j * w + i) * 4 + c] == rgba[((y + j)
                * width + x + i) * 4 + c],
{
    let w = (right - x) as u32;
    let h = (bottom - y) as u32;
    let out = region_bytes(rgba, 4 * width, 4 * x, y as int, 4 * w, h as int);
    assert((4 * w) * h == 4 * w * h) by (nonlinear_arith);
    assert forall|i: int, j: int, c: int|
        0 <= i < w && 0 <= j < h && 0 <= c < 4 implies #[trigger] out[(j * w + i) * 4 + c] == rgba[((y + j)
        * width + x + i) * 4 + c] by {
        lemma_region_pixel(rgba, width as int, x as int, y as int, w as int, h as int, i, j, c);
    }
}

} // verus!
