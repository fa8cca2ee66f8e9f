use vstd::prelude::*;
use vstd::arithmetic::div_mod::lemma_fundamental_div_mod_converse;
use vstd::arithmetic::mul::{lemma_mul_inequality, lemma_mul_is_distributive_add_other_way};
use crate::capture::CapturedImage;
use crate::raster::{encode_png, png_encoded};
use crate::text::joined;
use vstd::string::*;

verus! {

/// The bytes of a rectangle of a row-major image, row after row: `row_bytes`
/// bytes from each of `rows` rows, starting at byte `first` of row `top`, in an
/// image whose rows are `stride` bytes long.
pub open spec fn region_bytes(rgba: Seq<u8>, stride: int, first: int, top: int, row_bytes: int, rows: int) -> Seq<u8> {
    Seq::new(
        (row_bytes * rows) as nat,
        |k: int| rgba[(top + k / row_bytes) * stride + first + k % row_bytes],
    )
}

proof fn lemma_row_split(k: int, r: int, w: int)
    requires
        w > 0,
        r * w <= k < r * w + w,
    ensures
        k / w == r,
        k % w == k - r * w,
{
    lemma_fundamental_div_mod_converse(k, w, r, k - r * w);
}

/// Copies `rows` rows of `row_bytes` bytes, starting at byte `first` of row `top`.
pub(crate) fn copy_rows(rgba: &[u8], stride: usize, first: usize, top: usize, row_bytes: usize, rows: usize) -> (out: Vec<u8>)
    requires
        row_bytes > 0,
        first + row_bytes <= stride,
        rows > 0 ==> (top + rows - 1) * stride + first + row_bytes <= rgba@.len(),
    ensures
        out@ == region_bytes(rgba@, stride as int, first as int, top as int, row_bytes as int, rows as int),
{
    let len = rgba.len();
    let mut out: Vec<u8> = Vec::new();
    let mut r: usize = 0;
    while r < rows
        invariant
            row_bytes > 0,
            first + row_bytes <= stride,
            rows > 0 ==> (top + rows - 1) * stride + first + row_bytes <= rgba@.len(),
            len == rgba@.len(),
            r <= rows,
            out@.len() == r * row_bytes,
            forall|k: int|
                0 <= k < out@.len() ==> #[trigger] out@[k] == rgba@[(top + k / row_bytes as int) * stride
                    + first + k % row_bytes as int],
        decreases rows - r,
    {
        proof {
            assert((top + rows - 1) <= (top + rows - 1) * stride) by (nonlinear_arith)
                requires stride >= 1, top + rows - 1 >= 0;
            lemma_mul_inequality(top + r, top + rows - 1, stride as int);
            lemma_mul_is_distributive_add_other_way(row_bytes as int, r as int, 1);
        }
        let start = (top + r) * stride + first;
        let end = start + row_bytes;
        let ghost before = out@;
        out.extend_from_slice(&rgba[start..end]);
        proof {
            assert forall|k: int| 0 <= k < out@.len() implies #[trigger] out@[k] == rgba@[(top + k
                / row_bytes as int) * stride + first + k % row_bytes as int] by {
                if k < before.len() {
                    assert(out@[k] == before[k]);
                } else {
                    lemma_row_split(k, r as int, row_bytes as int);
                }
            }
        }
        r = r + 1;
    }
    proof {
        assert(r * row_bytes == row_bytes * r) by (nonlinear_arith);
        assert(out@ =~= region_bytes(rgba@, stride as int, first as int, top as int, row_bytes as int, rows as int));
    }
    out
}


/// The message for an empty region.
pub open spec fn region_empty_message() -> Seq<char> {
    "image region is empty"@
}

/// The message for a region whose far edge does not fit in a `u32`.
pub open spec fn region_overflow_message() -> Seq<char> {
    "image region overflowed"@
}

/// The message for a region outside the screenshot or its pixels.
pub open spec fn region_exceeded_message() -> Seq<char> {
    "image region exceeded screenshot bounds"@
}

/// The message for a region whose pixels do not fit in memory.
pub open spec fn region_too_large_message() -> Seq<char> {
    "image region is too large"@
}

/// The RGBA bytes of the `width` by `height` region at (`left`, `top`) of an
/// image `image_width` by `image_height` whose pixels are `rgba`, or the error.
pub open spec fn extracted_region(
    image_width: u32,
    image_height: u32,
    rgba: Seq<u8>,
    left: u32,
    top: u32,
    width: u32,
    height: u32,
) -> Result<Seq<u8>, Seq<char>> {
    if width == 0 || height == 0 {
        Err(region_empty_message())
    } else if left + width > u32::MAX || top + height > u32::MAX {
        Err(region_overflow_message())
    } else if left + width > image_width || top + height > image_height {
        Err(region_exceeded_message())
    } else if 4 * width * height > usize::MAX {
        Err(region_too_large_message())
    } else if (top + height - 1) * (4 * image_width) + 4 * (left + width) > rgba.len() {
        Err(region_exceeded_message())
    } else {
        Ok(region_bytes(rgba, 4 * image_width, 4 * left, top as int, 4 * width, height as int))
    }
}

/// Whether an executable result holds the bytes or message of a specified one.
pub open spec fn bytes_result_is(result: Result<Vec<u8>, String>, expected: Result<Seq<u8>, Seq<char>>) -> bool {
    match (result, expected) {
        (Ok(bytes), Ok(e)) => bytes@ == e,
        (Err(message), Err(e)) => message@ == e,
        _ => false,
    }
}

/// Copies the RGBA pixels of a region of the screenshot, row after row.
pub fn extract_rgba(image: &CapturedImage, left: u32, top: u32, width: u32, height: u32) -> (result: Result<Vec<u8>, String>)
    requires
        width > 0 && height > 0 && left + width <= image.width && top + height <= image.height
            ==> 4 * image.width * (top + height) <= usize::MAX,
    ensures
        bytes_result_is(result, extracted_region(image.width, image.height, image.rgba@, left, top, width, height)),
{
    if width == 0 || height == 0 {
        return Err(String::from_str("image region is empty"));
    }
    let right = match left.checked_add(width) {
        Some(right) => right,
        None => return Err(String::from_str("image region overflowed")),
    };
    let bottom = match top.checked_add(height) {
        Some(bottom) => bottom,
        None => return Err(String::from_str("image region overflowed")),
    };
    if right > image.width || bottom > image.height {
        return Err(String::from_str("image region exceeded screenshot bounds"));
    }
    proof {
        assert(4 * image.width <= 4 * image.width * (top + height)) by (nonlinear_arith)
            requires top + height >= 1;
        assert(4 * image.width * (top + height - 1) <= 4 * image.width * (top + height)) by (nonlinear_arith);
        assert((top + height - 1) * (4 * image.width) == 4 * image.width * (top + height - 1)) by (nonlinear_arith);
    }
    let source_stride = image.width as usize * 4;
    let crop_stride = width as usize * 4;
    let capacity = match crop_stride.checked_mul(height as usize) {
        Some(capacity) => capacity,
        None => {
            proof {
                assert(4 * width * height == crop_stride * height) by (nonlinear_arith)
                    requires crop_stride == width * 4;
            }
            return Err(String::from_str("image region is too large"));
        },
    };
    proof {
        assert(4 * width * height == crop_stride * height) by (nonlinear_arith)
            requires crop_stride == width * 4;
    }
    proof {
        assert((bottom - 1) * source_stride + source_stride == bottom * source_stride) by (nonlinear_arith);
        assert(bottom * source_stride == 4 * image.width * (top + height)) by (nonlinear_arith)
            requires source_stride == image.width * 4, bottom == top + height;
    }
    let last_end = (bottom as usize - 1) * source_stride + left as usize * 4 + crop_stride;
    if last_end > image.rgba.len() {
        return Err(String::from_str("image region exceeded screenshot bounds"));
    }
    let rgba = copy_rows(image.rgba.as_slice(), source_stride, left as usize * 4, top as usize, crop_stride, height as usize);
    Ok(rgba)
}


/// The message for a selection without area.
pub open spec fn selection_empty_message() -> Seq<char> {
    "selection is empty"@
}

/// The prefix of the message for a failed PNG encoding.
pub open spec fn encode_failed_prefix() -> Seq<char> {
    "failed to encode screenshot: "@
}

/// Passes encoded PNG bytes on, and puts the encoding failure's text after `encode_failed_prefix`.
pub fn png_or_error(encoded: Result<Vec<u8>, String>) -> (result: Result<Vec<u8>, String>)
    ensures
        match (encoded, result) {
            (Ok(bytes), Ok(png)) => png@ == bytes@,
            (Err(e), Err(message)) => message@ == encode_failed_prefix() + e@,
            _ => false,
        },
{
    match encoded {
        Ok(png) => Ok(png),
        Err(error) => Err(joined("failed to encode screenshot: ", error.as_str())),
    }
}

/// The PNG of the pixel rectangle from (`left`, `top`) to (`right`, `bottom`),
/// whose edges lie within the screenshot.
pub fn region_to_png(image: &CapturedImage, left: u32, top: u32, right: u32, bottom: u32) -> (result: Result<Vec<u8>, String>)
    requires
        right <= image.width,
        bottom <= image.height,
        4 * image.width * bottom <= usize::MAX,
    ensures
        right <= left || bottom <= top ==> (result matches Err(m) && m@ == selection_empty_message()),
        left < right && top < bottom ==> match extracted_region(
            image.width,
            image.height,
            image.rgba@,
            left,
            top,
            (right - left) as u32,
            (bottom - top) as u32,
        ) {
            Err(e) => result matches Err(m) && m@ == e,
            Ok(rgba) => match png_encoded(rgba, (right - left) as u32, (bottom - top) as u32) {
                Some(png) => result matches Ok(bytes) && bytes@ == png,
                None => result matches Err(m) && m@.len() >= encode_failed_prefix().len()
                    && m@.subrange(0, encode_failed_prefix().len() as int) == encode_failed_prefix(),
            },
        },
{
    if right <= left || bottom <= top {
        return Err(String::from_str("selection is empty"));
    }
    let width = right - left;
    let height = bottom - top;
    let rgba = match extract_rgba(image, left, top, width, height) {
        Ok(rgba) => rgba,
        Err(error) => return Err(error),
    };
    proof {
        assert(rgba@.len() == 4 * width * height) by (nonlinear_arith)
            requires rgba@.len() == (4 * width) * height;
    }
    let encoded = encode_png(rgba.as_slice(), width, height);
    let ghost before = encoded;
    let result = png_or_error(encoded);
    proof {
        if result is Err && before is Err {
            let m = result->Err_0;
            assert(m@.subrange(0, encode_failed_prefix().len() as int) =~= encode_failed_prefix());
        }
    }
    result
}

/// Byte `c` of pixel (`i`, `j`) of a `w` by `h` region cut at (`x`, `y`) out of
/// an image `image_width` pixels wide is byte `c` of pixel (`x + i`, `y + j`) of the image.
pub proof fn lemma_region_pixel(rgba: Seq<u8>, image_width: int, x: int, y: int, w: int, h: int, i: int, j: int, c: int)
    requires
        0 <= i < w,
        0 <= j < h,
        0 <= c < 4,
    ensures
        0 <= (j * w + i) * 4 + c < 4 * w * h,
        region_bytes(rgba, 4 * image_width, 4 * x, y, 4 * w, h)[(j * w + i) * 4 + c] == rgba[((y + j)
            * image_width + x + i) * 4 + c],
{
    let k = (j * w + i) * 4 + c;
    assert(k == j * (4 * w) + (4 * i + c)) by (nonlinear_arith)
        requires k == (j * w + i) * 4 + c;
    assert(j * (4 * w) <= k < j * (4 * w) + 4 * w) by (nonlinear_arith)
        requires k == j * (4 * w) + (4 * i + c), 0 <= 4 * i + c < 4 * w, j >= 0;
    assert(k < 4 * w * h) by (nonlinear_arith)
        requires k < j * (4 * w) + 4 * w, j + 1 <= h, w > 0;
    assert(0 <= k) by (nonlinear_arith)
        requires k == j * (4 * w) + (4 * i + c), j >= 0, i >= 0, c >= 0, w > 0;
    lemma_row_split(k, j, 4 * w);
    assert((y + j) * (4 * image_width) + 4 * x + (4 * i + c) == ((y + j) * image_width + x + i) * 4 + c)
        by (nonlinear_arith);
    assert((4 * w) * h == 4 * w * h) by (nonlinear_arith);
}

/// A region that lies inside the screenshot (with pixels filling its size) is
/// cut out whole: it is `width` by `height` pixels, and its pixel (`i`, `j`)
/// is the screenshot's pixel (`left + i`, `top + j`).
pub proof fn lemma_region_inside(
    image_width: u32,
    image_height: u32,
    rgba: Seq<u8>,
    left: u32,
    top: u32,
    width: u32,
    height: u32,
)
    requires
        0 < width,
        0 < height,
        left + width <= image_width,
        top + height <= image_height,
        4 * image_width * image_height <= rgba.len(),
        4 * width * height <= usize::MAX,
    ensures
        extracted_region(image_width, image_height, rgba, left, top, width, height) matches Ok(out) && out.len()
            == 4 * width * height && forall|i: int, j: int, c: int|
            0 <= i < width && 0 <= j < height && 0 <= c < 4 ==> #[trigger] out[(j * width + i) * 4 + c]
                == rgba[((top + j) * image_width + left + i) * 4 + c],
{
    assert((top + height - 1) * (4 * image_width) + 4 * (left + width) <= 4 * image_width * image_height)
        by (nonlinear_arith)
        requires left + width <= image_width, top + height <= image_height, height >= 1;
    let out = region_bytes(rgba, 4 * image_width, 4 * left, top as int, 4 * width, height as int);
    assert((4 * width) * height == 4 * width * height) by (nonlinear_arith);
    assert forall|i: int, j: int, c: int|
        0 <= i < width && 0 <= j < height && 0 <= c < 4 implies #[trigger] out[(j * width + i) * 4 + c]
        == rgba[((top + j) * image_width + left + i) * 4 + c] by {
        lemma_region_pixel(rgba, image_width as int, left as int, top as int, width as int, height as int, i, j, c);
    }
}

} // verus!


