use popshot::locations::{auto_save_name, decimal, folder_target, save_report, save_target, screenshot_path};

fn uris(list: &[&str]) -> Vec<String> {
    list.iter().map(|uri| uri.to_string()).collect()
}

#[test]
fn screenshot_uris_must_name_local_files() {
    assert_eq!(screenshot_path("file:///tmp/Screenshot%20A.png"), Ok(b"/tmp/Screenshot A.png".to_vec()));
    assert_eq!(screenshot_path("file:///tmp/%FF.png"), Ok(b"/tmp/\xFF.png".to_vec()));
    assert_eq!(
        screenshot_path("https://example.com/a.png"),
        Err("unsupported screenshot URI: https://example.com/a.png".to_string())
    );
    assert!(screenshot_path("not a uri").unwrap_err().starts_with("invalid screenshot URI: "));
    assert_eq!(
        screenshot_path("file://server/share/a.png"),
        Err("invalid screenshot file URI: file://server/share/a.png".to_string())
    );
}

#[test]
fn save_targets() {
    assert_eq!(save_target(true, uris(&["file:///tmp/a.png"])), Ok(None));
    assert_eq!(save_target(false, Vec::new()), Err("No file selected".to_string()));
    assert_eq!(save_target(false, uris(&["file:///home/u/a.png", "file:///b.png"])), Ok(Some(b"/home/u/a.png".to_vec())));
    assert_eq!(save_target(false, uris(&["file:///home/u/%FF.png"])), Ok(Some(b"/home/u/\xFF.png".to_vec())));
    assert_eq!(save_target(false, uris(&["mailto:someone@example.com"])), Err("Choose a local file".to_string()));
    assert_eq!(save_target(false, uris(&["::"])), Err("Choose a local file".to_string()));
}

#[test]
fn folder_targets() {
    assert_eq!(folder_target(true, Vec::new()), Ok(None));
    assert_eq!(folder_target(false, Vec::new()), Err("No folder selected".to_string()));
    assert_eq!(folder_target(false, uris(&["file:///home/u/Pictures"])), Ok(Some("/home/u/Pictures".to_string())));
    assert_eq!(folder_target(false, uris(&["file:///home/u/%FF"])), Err("Folder path is not valid UTF-8".to_string()));
    assert_eq!(folder_target(false, uris(&["https://example.com/"])), Err("Choose a local folder".to_string()));
}

#[test]
fn save_reports() {
    assert_eq!(save_report(None), Ok("Save cancelled".to_string()));
    assert_eq!(save_report(Some(("/tmp/a.png".to_string(), Ok(())))), Ok("Saved to /tmp/a.png".to_string()));
    assert_eq!(
        save_report(Some(("/tmp/a.png".to_string(), Err("Permission denied".to_string())))),
        Err("Could not save screenshot: Permission denied".to_string())
    );
}

#[test]
fn decimal_texts() {
    assert_eq!(decimal(0), "0");
    assert_eq!(decimal(7), "7");
    assert_eq!(decimal(1700000000), "1700000000");
    assert_eq!(decimal(u64::MAX), "18446744073709551615");
}

#[test]
fn auto_save_names() {
    assert_eq!(
        auto_save_name(true, 1700000000, 0x67e55044_10b1_426f_9247_bb680e5fe0c8),
        Ok("Screenshot-1700000000-67e55044-10b1-426f-9247-bb680e5fe0c8.png".to_string())
    );
    assert_eq!(
        auto_save_name(false, 1700000000, 1),
        Err("Choose an absolute save location in Settings".to_string())
    );
}
