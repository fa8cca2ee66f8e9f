use popshot::activation::Request;
use popshot::capture::CapturedImage;
use popshot::delivery::delivery_outcome;
use popshot::model::{shortcut, AppState, Effect, Event, SettingKey, Slot, StoredSettings};
use popshot::output_selection::CaptureMode;

fn stored() -> StoredSettings {
    StoredSettings { show_preview: None, copy_on_capture: None, auto_save: None, show_notification: None }
}

fn image() -> CapturedImage {
    CapturedImage { width: 1, height: 1, png: vec![1, 2, 3], rgba: vec![9, 9, 9, 255] }
}

fn request(mode: Option<CaptureMode>) -> Request {
    Request { capture_id: None, mode, token: None }
}

fn kinds(effects: &[Effect]) -> Vec<String> {
    effects
        .iter()
        .map(|e| format!("{e:?}").split(|c: char| !c.is_alphanumeric()).next().unwrap().to_string())
        .collect()
}

#[test]
fn defaults_apply_to_missing_settings() {
    let state = AppState::new(stored(), "/home/u/Pictures/Screenshots".to_string(), None);
    assert!(!state.show_preview && state.copy_on_capture && !state.auto_save && state.show_notification);
    assert_eq!(state.settings_error, None);
    let failed = AppState::new(stored(), String::new(), Some("no config".to_string()));
    assert_eq!(failed.settings_error.as_deref(), Some("Couldn’t load settings: no config"));
}

#[test]
fn area_capture_flow() {
    let mut state = AppState::new(stored(), String::new(), None);
    let effects = state.update(Event::Activated(request(Some(CaptureMode::Rectangle))));
    assert_eq!(kinds(&effects), ["RefreshImage", "Capture"]);
    assert!(state.busy);

    let effects = state.update(Event::Captured(Ok(image())));
    assert_eq!(kinds(&effects), ["RefreshImage", "OpenOverlay"]);
    assert!(state.selecting && !state.busy);
    assert_eq!(state.shown, Some(Slot::Source));
    assert!(state.shows_selection(state.overlay));

    let effects = state.update(Event::Select);
    assert_eq!(kinds(&effects), ["Crop"]);
    let effects = state.update(Event::Cropped(Ok(image())));
    assert_eq!(kinds(&effects), ["RefreshImage", "CloseOverlay", "Deliver"]);
    match &effects[2] {
        Effect::Deliver { png, copy, save_folder, notify } => {
            assert_eq!(png, &vec![1, 2, 3]);
            assert!(*copy && *notify);
            assert_eq!(save_folder, &None);
        }
        other => panic!("unexpected {other:?}"),
    }
    assert_eq!(state.status, "Finishing capture…");

    // Escape while delivering does nothing.
    assert!(state.update(Event::Cancel).is_empty());

    let effects = state.update(Event::Prepared(Ok((Some("id".to_string()), "Copied to clipboard".to_string()))));
    assert_eq!(kinds(&effects), ["Notify"]);
    assert!(state.busy);
    let effects = state.update(Event::Notified(Ok(())));
    assert_eq!(kinds(&effects), ["Exit"]);
}

#[test]
fn escape_during_selection_quits() {
    let mut state = AppState::new(stored(), String::new(), None);
    state.update(Event::Activated(request(None)));
    state.update(Event::Captured(Ok(image())));
    assert_eq!(kinds(&state.update(Event::Cancel)), ["Exit"]);
}

#[test]
fn fullscreen_capture_skips_the_overlay() {
    let mut state = AppState::new(stored(), String::new(), None);
    state.update(Event::Activated(request(Some(CaptureMode::Fullscreen))));
    let effects = state.update(Event::Captured(Ok(image())));
    assert_eq!(kinds(&effects), ["RefreshImage", "RefreshImage", "Deliver"]);
    assert!(state.result.is_some() && state.source.is_none());
}

#[test]
fn unkept_capture_opens_the_editor() {
    let settings = StoredSettings {
        show_preview: Some(false),
        copy_on_capture: Some(false),
        auto_save: Some(false),
        show_notification: Some(false),
    };
    let mut state = AppState::new(settings, String::new(), None);
    state.update(Event::Activated(request(Some(CaptureMode::Fullscreen))));
    state.update(Event::Captured(Ok(image())));
    let effects = state.update(Event::Prepared(Ok((None, "Screenshot captured".to_string()))));
    assert_eq!(kinds(&effects), ["OpenPreview"]);
    assert!(state.preview.is_some() && state.result.is_some());
}

#[test]
fn new_snip_waits_for_the_editor_to_close() {
    let mut state = AppState::new(stored(), String::new(), None);
    state.update(Event::Captured(Err("portal failed".to_string())));
    let preview = state.preview.unwrap();
    assert_eq!(state.status_detail.as_deref(), Some("portal failed"));
    let effects = state.update(Event::NewSnip);
    assert_eq!(kinds(&effects), ["CloseWindow"]);
    assert_eq!(state.closing_preview, Some(preview));
    let effects = state.update(Event::Closed(preview));
    assert_eq!(kinds(&effects), ["RefreshImage", "Capture"]);
    assert!(state.return_to_editor);
}

#[test]
fn preview_requests_wait_while_busy() {
    let mut state = AppState::new(stored(), String::new(), None);
    state.update(Event::Activated(request(None)));
    let cached = Request { capture_id: Some("abc".to_string()), mode: None, token: Some("t".to_string()) };
    assert!(state.update(Event::Activated(cached)).is_empty());
    assert!(state.pending_preview.is_some());
    // The capture fails: the queued preview loads instead of the editor showing the error.
    state.busy = true;
    let effects = state.update(Event::Captured(Err("x".to_string())));
    assert_eq!(kinds(&effects), ["OpenPreview"]);
    let effects = state.update(Event::Back);
    assert_eq!(kinds(&effects), ["RefreshImage", "LoadCached"]);
    assert_eq!(state.activation_token.as_deref(), Some("t"));
    let effects = state.update(Event::PreviewLoaded(Ok(image())));
    assert_eq!(kinds(&effects), ["RefreshImage", "ActivateWindow"]);
    assert_eq!(state.status, "Screenshot ready");
}

#[test]
fn copy_and_save_report_status() {
    let mut state = AppState::new(stored(), String::new(), None);
    state.update(Event::PreviewLoaded(Ok(image())));
    assert_eq!(kinds(&state.update(Event::Copy)), ["CopyToClipboard"]);
    assert_eq!(state.status, "Copying image…");
    state.update(Event::Done(Ok("Saved to /tmp/a.png".to_string())));
    assert_eq!(state.status, "Screenshot saved");
    assert_eq!(kinds(&state.update(Event::Save)), ["SaveAs"]);
    state.update(Event::Done(Err("disk full".to_string())));
    assert_eq!(state.status, "Couldn’t finish. Try again; your screenshot is safe.");
    assert_eq!(state.status_detail.as_deref(), Some("disk full"));
    assert!(state.result.is_some());
}

#[test]
fn settings_are_persisted_before_they_apply() {
    let mut state = AppState::new(stored(), String::new(), None);
    state.update(Event::PreviewLoaded(Ok(image())));
    state.update(Event::Settings);
    assert!(state.settings_open);
    assert_eq!(kinds(&state.update(Event::Toggle(SettingKey::AutoSave, true))), ["PersistSetting"]);
    assert!(!state.auto_save);
    state.update(Event::Persisted(SettingKey::AutoSave, true, Ok(())));
    assert!(state.auto_save);
    state.update(Event::Persisted(SettingKey::ShowPreview, true, Err("read-only".to_string())));
    assert!(!state.show_preview);
    assert_eq!(state.settings_error.as_deref(), Some("Couldn’t save settings: read-only"));
    let preview = state.preview.unwrap();
    assert!(state.update(Event::CloseRequested(preview)).is_empty());
    assert!(!state.settings_open);
}

#[test]
fn delivery_outcomes() {
    assert_eq!(delivery_outcome(None, None, None), Ok((None, "Screenshot captured".to_string())));
    assert_eq!(
        delivery_outcome(Some(Ok(())), Some(Ok("/p/s.png".to_string())), Some(Ok("id".to_string()))),
        Ok((Some("id".to_string()), "Copied to clipboard. Saved to /p/s.png".to_string()))
    );
    assert_eq!(
        delivery_outcome(Some(Err("no wl-copy".to_string())), Some(Ok("/p".to_string())), Some(Err("cache".to_string()))),
        Err("Saved to /p. no wl-copy. cache".to_string())
    );
}

#[test]
fn keyboard_shortcuts() {
    assert!(matches!(shortcut("c", true), Some(Event::Copy)));
    assert!(matches!(shortcut("s", true), Some(Event::Save)));
    assert!(matches!(shortcut("l", false), Some(Event::Mode(CaptureMode::Freehand))));
    assert!(shortcut("c", false).is_none());
    assert!(shortcut("r", true).is_none());
}

#[test]
fn copying_again_after_a_failed_copy() {
    let mut state = AppState::new(stored(), String::new(), None);
    state.update(Event::PreviewLoaded(Ok(image())));
    state.update(Event::Copy);
    state.update(Event::Done(Err("failed to start wl-copy".to_string())));
    let effects = state.update(Event::Copy);
    assert_eq!(kinds(&effects), ["CopyToClipboard"]);
    match &effects[0] {
        Effect::CopyToClipboard(png) => assert_eq!(png, &vec![1, 2, 3]),
        other => panic!("unexpected {other:?}"),
    }
}
