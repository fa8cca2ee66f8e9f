use popshot::cache::{
    cache_cutoff, capture_file_name, capture_id, captures_to_remove, is_cached_file, is_capture_file_name, is_private_capture,
    load, store, valid_id, CachedCapture,
};
use popshot::capture::{encode_pixels, RgbaPixels};

const ID: &str = "67e55044-10b1-426f-9247-bb680e5fe0c8";

#[test]
fn only_canonical_uuids_are_ids() {
    assert!(valid_id(ID));
    assert!(!valid_id("67E55044-10B1-426F-9247-BB680E5FE0C8"));
    assert!(!valid_id("67e5504410b1426f9247bb680e5fe0c8"));
    assert!(!valid_id("{67e55044-10b1-426f-9247-bb680e5fe0c8}"));
    assert!(!valid_id("../../etc/passwd"));
    assert!(!valid_id(""));
}

#[test]
fn capture_file_names_round_trip() {
    let name = capture_file_name(ID);
    assert_eq!(name, format!("{ID}.png"));
    assert!(is_capture_file_name(&name));
    assert!(!is_capture_file_name(ID));
    assert!(!is_capture_file_name("notes.png"));
    assert!(!is_capture_file_name(&format!("{ID}.jpg")));
    assert!(!is_capture_file_name(".png"));
}

#[test]
fn only_private_regular_files_are_read() {
    assert!(is_private_capture(true, 1000, 1000, 0o100600));
    assert!(!is_private_capture(false, 1000, 1000, 0o100600));
    assert!(!is_private_capture(true, 0, 1000, 0o100600));
    assert!(!is_private_capture(true, 1000, 1000, 0o100644));
    assert!(is_cached_file(0o100600));
    assert!(!is_cached_file(0o040700));
    assert!(!is_cached_file(0o120777));
}

#[test]
fn cutoff_is_a_day_back() {
    assert_eq!(cache_cutoff(100_000, 5), (100_000 - 86_400, 5));
}

fn shot(seconds: i64, name: &str) -> CachedCapture {
    CachedCapture { modified: (seconds, 0), name: name.to_string() }
}

#[test]
fn expired_captures_go() {
    let now = 1_000_000u64;
    let shots = vec![shot(now as i64 - 90_000, "a.png"), shot(now as i64 - 10, "b.png")];
    assert_eq!(captures_to_remove(now, 0, &shots), vec!["a.png".to_string()]);
}

#[test]
fn only_the_twenty_newest_stay() {
    let now = 1_000_000u64;
    let mut shots = Vec::new();
    for i in 0..25 {
        shots.push(shot(now as i64 - 100 + i, &format!("{i:02}.png")));
    }
    // Equal times: names break the tie, the greater name counting as newer.
    shots.push(shot(now as i64 - 100, "00b.png"));
    let removed = captures_to_remove(now, 0, &shots);
    let expected: Vec<String> = vec!["00.png", "01.png", "02.png", "03.png", "04.png", "00b.png"]
        .into_iter()
        .map(String::from)
        .collect();
    assert_eq!(removed, expected);
}

#[test]
fn storing_reports_the_id_or_the_failure() {
    assert_eq!(store(0x67e55044_10b1_426f_9247_bb680e5fe0c8, Ok(())), Ok(ID.to_string()));
    assert_eq!(capture_id(0x67e55044_10b1_426f_9247_bb680e5fe0c8), ID);
    assert!(valid_id(&capture_id(u128::MAX)));
    assert_eq!(
        store(7, Err("No space left on device".to_string())),
        Err("Could not cache screenshot: No space left on device".to_string())
    );
}

#[test]
fn loading_decodes_the_cached_png() {
    let rgba = vec![10, 20, 30, 255, 40, 50, 60, 128];
    let png = encode_pixels(RgbaPixels { width: 2, height: 1, rgba: rgba.clone() }).unwrap().png;
    let image = load(Ok(png.clone())).unwrap();
    assert_eq!((image.width, image.height), (2, 1));
    assert_eq!(image.rgba, rgba);
    assert_eq!(image.png, png);
    assert_eq!(
        load(Err("Capture is not a private regular file".to_string())).unwrap_err(),
        "Cached screenshot is unavailable: Capture is not a private regular file"
    );
    assert!(load(Ok(b"GIF89a".to_vec())).unwrap_err().starts_with("failed to decode screenshot: "));
}
