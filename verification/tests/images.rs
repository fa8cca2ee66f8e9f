use popshot::capture::{apply_mask, crop_pixels, decode, encode_pixels, notification_thumbnail, CapturedImage, RgbaPixels};
use popshot::image_ops::{extract_rgba, region_to_png};

/// A `width` by `height` image whose pixel (x, y) is [x, y, 7, 255].
fn pixels(width: u32, height: u32) -> Vec<u8> {
    let mut rgba = Vec::new();
    for y in 0..height {
        for x in 0..width {
            rgba.extend_from_slice(&[x as u8, y as u8, 7, 255]);
        }
    }
    rgba
}

fn screenshot(width: u32, height: u32) -> CapturedImage {
    let rgba = pixels(width, height);
    let png = encode_pixels(RgbaPixels { width, height, rgba }).unwrap().png;
    decode(png).unwrap()
}

#[test]
fn png_round_trip() {
    let image = screenshot(4, 3);
    assert_eq!((image.width, image.height), (4, 3));
    assert_eq!(image.rgba, pixels(4, 3));
    assert!(image.png.starts_with(&[0x89, b'P', b'N', b'G']));
}

#[test]
fn decoding_garbage_fails() {
    let error = decode(b"not a png".to_vec()).unwrap_err();
    assert!(error.starts_with("failed to decode screenshot: "));
}

#[test]
fn extract_copies_rows() {
    let image = screenshot(4, 3);
    let rgba = extract_rgba(&image, 1, 1, 2, 2).unwrap();
    assert_eq!(rgba, vec![1, 1, 7, 255, 2, 1, 7, 255, 1, 2, 7, 255, 2, 2, 7, 255]);
}

#[test]
fn extract_errors() {
    let image = screenshot(4, 3);
    assert_eq!(extract_rgba(&image, 0, 0, 0, 1).unwrap_err(), "image region is empty");
    assert_eq!(extract_rgba(&image, u32::MAX, 0, 2, 1).unwrap_err(), "image region overflowed");
    assert_eq!(extract_rgba(&image, 3, 0, 2, 1).unwrap_err(), "image region exceeded screenshot bounds");
    let short = CapturedImage { width: 4, height: 3, png: Vec::new(), rgba: vec![0; 10] };
    assert_eq!(extract_rgba(&short, 0, 0, 4, 3).unwrap_err(), "image region exceeded screenshot bounds");
}

#[test]
fn region_png_decodes_to_the_region() {
    let image = screenshot(4, 3);
    let png = region_to_png(&image, 2, 0, 4, 3).unwrap();
    let region = decode(png).unwrap();
    assert_eq!((region.width, region.height), (2, 3));
    assert_eq!(region.rgba, extract_rgba(&image, 2, 0, 2, 3).unwrap());
    assert_eq!(region_to_png(&image, 2, 0, 2, 3).unwrap_err(), "selection is empty");
}

#[test]
fn crop_clamps_to_the_screenshot() {
    let image = screenshot(4, 3);
    let cropped = crop_pixels(&image, 3, 1, 10, 10).unwrap();
    assert_eq!((cropped.width, cropped.height), (1, 2));
    assert_eq!(cropped.rgba, vec![3, 1, 7, 255, 3, 2, 7, 255]);
    assert_eq!(crop_pixels(&image, 2, 2, 2, 3).unwrap_err(), "Selection is empty");
    let short = CapturedImage { width: 4, height: 3, png: Vec::new(), rgba: vec![0; 10] };
    assert_eq!(crop_pixels(&short, 0, 0, 1, 1).unwrap_err(), "Invalid screenshot pixels");
}

#[test]
fn mask_clears_outside_pixels_completely() {
    let mut cropped = RgbaPixels { width: 2, height: 1, rgba: vec![1, 2, 3, 4, 5, 6, 7, 8] };
    assert!(apply_mask(&mut cropped, &vec![false, true]).is_ok());
    assert_eq!(cropped.rgba, vec![0, 0, 0, 0, 5, 6, 7, 8]);
    let mut none = RgbaPixels { width: 1, height: 1, rgba: vec![1, 2, 3, 4] };
    assert_eq!(apply_mask(&mut none, &vec![false]).unwrap_err(), "Selection is empty; draw an area to capture");
    assert_eq!(none.rgba, vec![0, 0, 0, 0]);
}

#[test]
fn notification_icon_is_square() {
    let image = screenshot(4, 2);
    let icon = decode(notification_thumbnail(&image).unwrap()).unwrap();
    assert_eq!((icon.width, icon.height), (128, 128));
    // The thumbnail is 128 by 64, centered: the top rows stay transparent.
    assert_eq!(&icon.rgba[0..4], &[0, 0, 0, 0]);
    assert_eq!(icon.rgba[(64 * 128 + 64) * 4 + 3], 255);
    let short = CapturedImage { width: 4, height: 3, png: Vec::new(), rgba: vec![0; 10] };
    assert_eq!(notification_thumbnail(&short).unwrap_err(), "Invalid screenshot pixels");
}

#[test]
fn masking_twice_changes_nothing() {
    let mut pixels = RgbaPixels { width: 2, height: 1, rgba: vec![1, 2, 3, 4, 5, 6, 7, 8] };
    let inside = vec![true, false];
    assert!(apply_mask(&mut pixels, &inside).is_ok());
    let once = pixels.rgba.clone();
    assert!(apply_mask(&mut pixels, &inside).is_ok());
    assert_eq!(pixels.rgba, once);
}
