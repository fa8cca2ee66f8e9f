use vstd::prelude::*;
use vstd::string::*;
use crate::activation::{copy_text, opt_text, Request, RequestView};
use crate::capture::{CapturedImage, ImageView};
use crate::output_selection::CaptureMode;
use crate::text::{joined, text_eq, text_starts_with};

verus! {

/// Which screenshot the window shows: the one being selected from, or the result.
#[derive(Debug, Clone, Copy, PartialEq, Eq, Structural)]
pub enum Slot {
    Source,
    Result,
}

/// A boolean setting that the user can change.
#[derive(Debug, Clone, Copy, PartialEq, Eq, Structural)]
pub enum SettingKey {
    ShowPreview,
    CopyOnCapture,
    AutoSave,
    ShowNotification,
}

/// Settings as stored; a key that could not be read is absent.
pub struct StoredSettings {
    pub show_preview: Option<bool>,
    pub copy_on_capture: Option<bool>,
    pub auto_save: Option<bool>,
    pub show_notification: Option<bool>,
}

/// What the application asks its surroundings to do, in order.
#[derive(Debug)]
pub enum Effect {
    /// Take a screenshot of the desktop; answered by `Event::Captured`.
    Capture,
    /// Open the selection overlay window.
    OpenOverlay(u64),
    /// Close the selection overlay window.
    CloseOverlay(u64),
    /// Open the editor window.
    OpenPreview(u64),
    /// Raise a window with an activation token.
    ActivateWindow(u64, String),
    /// Give a window the keyboard focus.
    FocusWindow(u64),
    /// Close a window; answered by `Event::Closed`.
    CloseWindow(u64),
    /// Give the editor window its title.
    SetTitle(u64),
    /// Crop the source screenshot to the selection; answered by `Event::Cropped`.
    Crop,
    /// Copy, save and cache a finished capture as configured; answered by `Event::Prepared`.
    Deliver { png: Vec<u8>, copy: bool, save_folder: Option<String>, notify: bool },
    /// Copy PNG bytes to the clipboard; answered by `Event::Done`.
    CopyToClipboard(Vec<u8>),
    /// Ask where to save PNG bytes and save them; answered by `Event::Done`.
    SaveAs(Vec<u8>),
    /// Show the capture notification; answered by `Event::Notified`.
    Notify { image: CapturedImage, capture_id: String, status: String },
    /// Load a cached capture; answered by `Event::PreviewLoaded`.
    LoadCached(String),
    /// Ask for a folder for automatic saving; answered by `Event::SaveLocation`.
    ChooseSaveLocation,
    /// Store a setting; answered by `Event::Persisted`.
    PersistSetting(SettingKey, bool),
    /// Store the folder for automatic saving; answered by `Event::LocationPersisted`.
    PersistSaveLocation(String),
    /// Show the screenshot in `shown` anew.
    RefreshImage,
    /// Quit the application.
    Exit,
}

/// What happened: user input, window events, and the answers to effects.
#[derive(Debug)]
pub enum Event {
    Captured(Result<CapturedImage, String>),
    Mode(CaptureMode),
    /// The user finished a selection (held by the surroundings).
    Select,
    Cropped(Result<CapturedImage, String>),
    Drag(bool),
    Copy,
    NewSnip,
    Save,
    Done(Result<String, String>),
    Settings,
    Back,
    Toggle(SettingKey, bool),
    Persisted(SettingKey, bool, Result<(), String>),
    ChooseSaveLocation,
    SaveLocation(Result<Option<String>, String>),
    LocationPersisted(String, Result<(), String>),
    Notified(Result<(), String>),
    Activated(Request),
    PreviewLoaded(Result<CapturedImage, String>),
    Prepared(Result<(Option<String>, String), String>),
    CloseRequested(u64),
    Cancel,
    Opened(u64),
    Closed(u64),
}

/// An effect as values.
pub enum EffectView {
    Capture,
    OpenOverlay(u64),
    CloseOverlay(u64),
    OpenPreview(u64),
    ActivateWindow(u64, Seq<char>),
    FocusWindow(u64),
    CloseWindow(u64),
    SetTitle(u64),
    Crop,
    Deliver { png: Seq<u8>, copy: bool, save_folder: Option<Seq<char>>, notify: bool },
    CopyToClipboard(Seq<u8>),
    SaveAs(Seq<u8>),
    Notify { image: ImageView, capture_id: Seq<char>, status: Seq<char> },
    LoadCached(Seq<char>),
    ChooseSaveLocation,
    PersistSetting(SettingKey, bool),
    PersistSaveLocation(Seq<char>),
    RefreshImage,
    Exit,
}

impl View for Effect {
    type V = EffectView;

    open spec fn view(&self) -> EffectView {
        match self {
            Effect::Capture => EffectView::Capture,
            Effect::OpenOverlay(w) => EffectView::OpenOverlay(*w),
            Effect::CloseOverlay(w) => EffectView::CloseOverlay(*w),
            Effect::OpenPreview(w) => EffectView::OpenPreview(*w),
            Effect::ActivateWindow(w, t) => EffectView::ActivateWindow(*w, t@),
            Effect::FocusWindow(w) => EffectView::FocusWindow(*w),
            Effect::CloseWindow(w) => EffectView::CloseWindow(*w),
            Effect::SetTitle(w) => EffectView::SetTitle(*w),
            Effect::Crop => EffectView::Crop,
            Effect::Deliver { png, copy, save_folder, notify } => EffectView::Deliver {
                png: png@,
                copy: *copy,
                save_folder: opt_text(*save_folder),
                notify: *notify,
            },
            Effect::CopyToClipboard(png) => EffectView::CopyToClipboard(png@),
            Effect::SaveAs(png) => EffectView::SaveAs(png@),
            Effect::Notify { image, capture_id, status } => EffectView::Notify {
                image: image@,
                capture_id: capture_id@,
                status: status@,
            },
            Effect::LoadCached(id) => EffectView::LoadCached(id@),
            Effect::ChooseSaveLocation => EffectView::ChooseSaveLocation,
            Effect::PersistSetting(k, v) => EffectView::PersistSetting(*k, *v),
            Effect::PersistSaveLocation(p) => EffectView::PersistSaveLocation(p@),
            Effect::RefreshImage => EffectView::RefreshImage,
            Effect::Exit => EffectView::Exit,
        }
    }
}

/// The views of a list of effects.
pub open spec fn effects_view(effects: Seq<Effect>) -> Seq<EffectView> {
    effects.map_values(|e: Effect| e@)
}

/// An event as values.
pub enum EventView {
    Captured(Result<ImageView, Seq<char>>),
    Mode(CaptureMode),
    Select,
    Cropped(Result<ImageView, Seq<char>>),
    Drag(bool),
    Copy,
    NewSnip,
    Save,
    Done(Result<Seq<char>, Seq<char>>),
    Settings,
    Back,
    Toggle(SettingKey, bool),
    Persisted(SettingKey, bool, Result<(), Seq<char>>),
    ChooseSaveLocation,
    SaveLocation(Result<Option<Seq<char>>, Seq<char>>),
    LocationPersisted(Seq<char>, Result<(), Seq<char>>),
    Notified(Result<(), Seq<char>>),
    Activated(RequestView),
    PreviewLoaded(Result<ImageView, Seq<char>>),
    Prepared(Result<(Option<Seq<char>>, Seq<char>), Seq<char>>),
    CloseRequested(u64),
    Cancel,
    Opened(u64),
    Closed(u64),
}

/// An image result as values.
pub open spec fn image_result(r: Result<CapturedImage, String>) -> Result<ImageView, Seq<char>> {
    match r {
        Ok(i) => Ok(i@),
        Err(e) => Err(e@),
    }
}

/// A unit result as values.
pub open spec fn unit_result(r: Result<(), String>) -> Result<(), Seq<char>> {
    match r {
        Ok(()) => Ok(()),
        Err(e) => Err(e@),
    }
}

/// A text result as values.
pub open spec fn text_result(r: Result<String, String>) -> Result<Seq<char>, Seq<char>> {
    match r {
        Ok(t) => Ok(t@),
        Err(e) => Err(e@),
    }
}

impl View for Event {
    type V = EventView;

    open spec fn view(&self) -> EventView {
        match self {
            Event::Captured(r) => EventView::Captured(image_result(*r)),
            Event::Mode(m) => EventView::Mode(*m),
            Event::Select => EventView::Select,
            Event::Cropped(r) => EventView::Cropped(image_result(*r)),
            Event::Drag(d) => EventView::Drag(*d),
            Event::Copy => EventView::Copy,
            Event::NewSnip => EventView::NewSnip,
            Event::Save => EventView::Save,
            Event::Done(r) => EventView::Done(text_result(*r)),
            Event::Settings => EventView::Settings,
            Event::Back => EventView::Back,
            Event::Toggle(k, v) => EventView::Toggle(*k, *v),
            Event::Persisted(k, v, r) => EventView::Persisted(*k, *v, unit_result(*r)),
            Event::ChooseSaveLocation => EventView::ChooseSaveLocation,
            Event::SaveLocation(r) => EventView::SaveLocation(
                match r {
                    Ok(p) => Ok(opt_text(*p)),
                    Err(e) => Err(e@),
                },
            ),
            Event::LocationPersisted(p, r) => EventView::LocationPersisted(p@, unit_result(*r)),
            Event::Notified(r) => EventView::Notified(unit_result(*r)),
            Event::Activated(req) => EventView::Activated(req@),
            Event::PreviewLoaded(r) => EventView::PreviewLoaded(image_result(*r)),
            Event::Prepared(r) => EventView::Prepared(
                match r {
                    Ok((id, status)) => Ok((opt_text(*id), status@)),
                    Err(e) => Err(e@),
                },
            ),
            Event::CloseRequested(w) => EventView::CloseRequested(*w),
            Event::Cancel => EventView::Cancel,
            Event::Opened(w) => EventView::Opened(*w),
            Event::Closed(w) => EventView::Closed(*w),
        }
    }
}

/// The application's state as values.
pub struct StateView {
    pub show_preview: bool,
    pub copy_on_capture: bool,
    pub auto_save: bool,
    pub save_location: Seq<char>,
    pub show_notification: bool,
    pub return_to_editor: bool,
    pub capture_mode: Option<CaptureMode>,
    pub settings_open: bool,
    pub settings_error: Option<Seq<char>>,
    pub pending_preview: Option<RequestView>,
    pub activation_token: Option<Seq<char>>,
    pub overlay: u64,
    pub preview: Option<u64>,
    pub closing_preview: Option<u64>,
    pub source: Option<ImageView>,
    pub result: Option<ImageView>,
    pub shown: Option<Slot>,
    pub selecting: bool,
    pub dragging: bool,
    pub busy: bool,
    pub status: Seq<char>,
    pub status_detail: Option<Seq<char>>,
    pub next_window: u64,
}

/// The state of the application between events: its settings, the windows it
/// has open, the screenshots it holds, and what it is busy with. Window
/// identifiers are numbers that the surroundings map to real windows.
pub struct AppState {
    pub show_preview: bool,
    pub copy_on_capture: bool,
    pub auto_save: bool,
    pub save_location: String,
    pub show_notification: bool,
    pub return_to_editor: bool,
    pub capture_mode: Option<CaptureMode>,
    pub settings_open: bool,
    pub settings_error: Option<String>,
    pub pending_preview: Option<Request>,
    pub activation_token: Option<String>,
    pub overlay: u64,
    pub preview: Option<u64>,
    pub closing_preview: Option<u64>,
    pub source: Option<CapturedImage>,
    pub result: Option<CapturedImage>,
    pub shown: Option<Slot>,
    pub selecting: bool,
    pub dragging: bool,
    pub busy: bool,
    pub status: String,
    pub status_detail: Option<String>,
    /// The window identifier to hand out next.
    pub next_window: u64,
}

/// An optional screenshot as values.
pub open spec fn opt_image(image: Option<CapturedImage>) -> Option<ImageView> {
    match image {
        Some(i) => Some(i@),
        None => None,
    }
}

/// An optional request as values.
pub open spec fn opt_request(request: Option<Request>) -> Option<RequestView> {
    match request {
        Some(r) => Some(r@),
        None => None,
    }
}

impl View for AppState {
    type V = StateView;

    open spec fn view(&self) -> StateView {
        StateView {
            show_preview: self.show_preview,
            copy_on_capture: self.copy_on_capture,
            auto_save: self.auto_save,
            save_location: self.save_location@,
            show_notification: self.show_notification,
            return_to_editor: self.return_to_editor,
            capture_mode: self.capture_mode,
            settings_open: self.settings_open,
            settings_error: opt_text(self.settings_error),
            pending_preview: opt_request(self.pending_preview),
            activation_token: opt_text(self.activation_token),
            overlay: self.overlay,
            preview: self.preview,
            closing_preview: self.closing_preview,
            source: opt_image(self.source),
            result: opt_image(self.result),
            shown: self.shown,
            selecting: self.selecting,
            dragging: self.dragging,
            busy: self.busy,
            status: self.status@,
            status_detail: opt_text(self.status_detail),
            next_window: self.next_window,
        }
    }
}

/// The window identifier after `n`.
pub open spec fn next_id(n: u64) -> u64 {
    if n == u64::MAX {
        0
    } else {
        (n + 1) as u64
    }
}

/// A queued preview request names a capture.
pub open spec fn state_wf(s: StateView) -> bool {
    s.pending_preview matches Some(r) ==> r.capture_id is Some
}

/// Show the editor: focus it when it is open, else open it under a new identifier.
#[verifier::opaque]
pub open spec fn open_preview(s: StateView) -> (StateView, Seq<EffectView>) {
    match s.preview {
        Some(id) => focus_preview(s, id),
        None => (
            StateView { preview: Some(s.next_window), next_window: next_id(s.next_window), ..s },
            seq![EffectView::OpenPreview(s.next_window)],
        ),
    }
}

/// Raise the editor with the pending activation token, which is used up, or just focus it.
#[verifier::opaque]
pub open spec fn focus_preview(s: StateView, id: u64) -> (StateView, Seq<EffectView>) {
    match s.activation_token {
        Some(token) => (StateView { activation_token: None, ..s }, seq![EffectView::ActivateWindow(id, token)]),
        None => (s, seq![EffectView::FocusWindow(id)]),
    }
}

/// Drop the screenshots and take a new one, under a new overlay identifier.
#[verifier::opaque]
pub open spec fn restart_capture(s: StateView) -> (StateView, Seq<EffectView>) {
    (
        StateView {
            source: None,
            result: None,
            shown: None,
            dragging: false,
            busy: true,
            status: Seq::empty(),
            status_detail: None,
            overlay: s.next_window,
            next_window: next_id(s.next_window),
            ..s
        },
        seq![EffectView::RefreshImage, EffectView::Capture],
    )
}

/// Load a cached capture for the editor.
#[verifier::opaque]
pub open spec fn load_preview(s: StateView, r: RequestView) -> (StateView, Seq<EffectView>) {
    (
        StateView { activation_token: r.token, busy: true, source: None, result: None, shown: None, ..s },
        seq![EffectView::RefreshImage, EffectView::LoadCached(r.capture_id.unwrap())],
    )
}

/// Start a capture, unless one is under way, settings are open or the editor is
/// closing; an open editor is closed first and the capture starts once it is gone.
#[verifier::opaque]
pub open spec fn activate(s: StateView, return_to_editor: bool, mode: Option<CaptureMode>) -> (StateView, Seq<EffectView>) {
    if s.selecting || s.busy || s.settings_open || s.closing_preview is Some {
        (s, Seq::empty())
    } else {
        let s1 = StateView { return_to_editor, capture_mode: mode, ..s };
        match s1.preview {
            None => restart_capture(s1),
            Some(id) => (
                StateView { preview: None, closing_preview: Some(id), ..s1 },
                seq![EffectView::CloseWindow(id)],
            ),
        }
    }
}

/// Copy the result to the clipboard when idle.
#[verifier::opaque]
pub open spec fn copy_result(s: StateView) -> (StateView, Seq<EffectView>) {
    match s.result {
        None => (s, Seq::empty()),
        Some(image) => if s.busy || s.settings_open || s.closing_preview is Some {
            (s, Seq::empty())
        } else {
            (
                StateView { busy: true, status: "Copying image…"@, status_detail: None, ..s },
                seq![EffectView::CopyToClipboard(image.png)],
            )
        },
    }
}

/// End a selection: crop to the selected region, or take the whole screenshot.
#[verifier::opaque]
pub open spec fn finish_start(s: StateView, has_region: bool) -> (StateView, Seq<EffectView>) {
    if !s.selecting || s.source is None {
        (s, Seq::empty())
    } else if has_region {
        (s, seq![EffectView::Crop])
    } else {
        finish_with(s, Ok(s.source.unwrap()))
    }
}

/// Use the captured image: show it, close the overlay (unless capturing the full
/// screen without one) and deliver it as configured; on failure show the error.
#[verifier::opaque]
pub open spec fn finish_with(s: StateView, r: Result<ImageView, Seq<char>>) -> (StateView, Seq<EffectView>) {
    match r {
        Ok(image) => (
            StateView {
                result: Some(image),
                shown: Some(Slot::Result),
                source: None,
                selecting: false,
                status: "Finishing capture…"@,
                busy: true,
                ..s
            },
            seq![EffectView::RefreshImage] + (if s.capture_mode == Some(CaptureMode::Fullscreen) {
                Seq::empty()
            } else {
                seq![EffectView::CloseOverlay(s.overlay)]
            }) + seq![
                EffectView::Deliver {
                    png: image.png,
                    copy: s.copy_on_capture,
                    save_folder: if s.auto_save { Some(s.save_location) } else { None },
                    notify: s.show_notification,
                },
            ],
        ),
        Err(e) => (StateView { status: e, ..s }, Seq::empty()),
    }
}

/// After an event that returns nothing itself: load a queued preview once idle.
#[verifier::opaque]
pub open spec fn load_pending(s: StateView) -> (StateView, Seq<EffectView>) {
    if !s.busy && !s.selecting && !s.settings_open && s.closing_preview is None && s.pending_preview is Some {
        load_preview(StateView { pending_preview: None, ..s }, s.pending_preview.unwrap())
    } else {
        (s, Seq::empty())
    }
}

/// Sets a boolean setting.
pub open spec fn with_setting(s: StateView, key: SettingKey, value: bool) -> StateView {
    match key {
        SettingKey::ShowPreview => StateView { show_preview: value, ..s },
        SettingKey::CopyOnCapture => StateView { copy_on_capture: value, ..s },
        SettingKey::AutoSave => StateView { auto_save: value, ..s },
        SettingKey::ShowNotification => StateView { show_notification: value, ..s },
    }
}

/// Whether the editor opens when a capture is finished: unless a cached capture
/// waits to be shown, when the user asked for it, when the capture started
/// from the editor, or when nothing else would keep the screenshot.
pub open spec fn opens_editor(s: StateView) -> bool {
    s.pending_preview is None && (s.show_preview || s.return_to_editor || (!s.copy_on_capture && !s.auto_save
        && !s.show_notification))
}

/// The text that replaces a finished copy's or save's status.
pub open spec fn done_status(status: Seq<char>) -> Seq<char> {
    if status.len() >= 9 && status.subrange(0, 9) == "Saved to "@ {
        "Screenshot saved"@
    } else {
        status
    }
}

/// The prefix of the message when a setting cannot be stored.
pub open spec fn settings_save_failed() -> Seq<char> {
    "Couldn’t save settings: "@
}

/// On an activation request: queue or load a cached capture, or start a capture.
#[verifier::opaque]
pub open spec fn on_activated(s: StateView, r: RequestView) -> (StateView, Seq<EffectView>) {
    if r.capture_id is Some {
        if s.busy || s.selecting || s.settings_open || s.closing_preview is Some {
            (StateView { pending_preview: Some(r), ..s }, Seq::empty())
        } else {
            load_preview(s, r)
        }
    } else {
        activate(StateView { activation_token: r.token, ..s }, false, r.mode)
    }
}

/// The first part of handling a delivered capture: the status is shown and the
/// editor opened if called for.
#[verifier::opaque]
pub open spec fn prepared_editor(s: StateView, status: Seq<char>) -> (StateView, Seq<EffectView>) {
    let s1 = StateView { busy: false, status, status_detail: None, ..s };
    if opens_editor(s1) {
        open_preview(s1)
    } else {
        (s1, Seq::empty())
    }
}

/// When a finished capture was delivered: show the status, open the editor if
/// called for, then notify (with the cache id), load a queued preview, or quit
/// when no editor is open.
#[verifier::opaque]
pub open spec fn on_prepared(s: StateView, id: Option<Seq<char>>, status: Seq<char>) -> (StateView, Seq<EffectView>) {
    let (s2, editor) = prepared_editor(s, status);
    match id {
        Some(capture_id) => (
            StateView { busy: true, ..s2 },
            editor + seq![EffectView::Notify { image: s2.result.unwrap(), capture_id, status: s2.status }],
        ),
        None => match s2.pending_preview {
            Some(r) => load_preview(StateView { pending_preview: None, ..s2 }, r),
            None => if s2.preview is Some {
                (s2, editor)
            } else {
                (s2, seq![EffectView::Exit])
            },
        },
    }
}

/// When a cached capture was loaded: load a queued one instead, or show it (or the error) in the editor.
#[verifier::opaque]
pub open spec fn on_preview_loaded(s: StateView, r: Result<ImageView, Seq<char>>) -> (StateView, Seq<EffectView>) {
    let s1 = StateView { busy: false, ..s };
    match s1.pending_preview {
        Some(req) => load_preview(StateView { pending_preview: None, ..s1 }, req),
        None => match r {
            Ok(image) => {
                let (s2, effects) = open_preview(
                    StateView {
                        shown: Some(Slot::Result),
                        result: Some(image),
                        status: "Screenshot ready"@,
                        status_detail: None,
                        ..s1
                    },
                );
                (s2, seq![EffectView::RefreshImage] + effects)
            },
            Err(error) => open_preview(
                StateView {
                    status: "Cached screenshot is no longer available."@,
                    status_detail: Some(error),
                    ..s1
                },
            ),
        },
    }
}

/// When a setting was stored, or failed to be.
#[verifier::opaque]
pub open spec fn on_persisted(s: StateView, key: SettingKey, value: bool, r: Result<(), Seq<char>>) -> (StateView, Seq<EffectView>) {
    match r {
        Ok(()) => load_pending(StateView { settings_error: None, ..with_setting(s, key, value) }),
        Err(error) => load_pending(StateView { settings_error: Some(settings_save_failed() + error), ..s }),
    }
}

/// When the user chose (or did not choose) a folder for automatic saving.
#[verifier::opaque]
pub open spec fn on_save_location(s: StateView, r: Result<Option<Seq<char>>, Seq<char>>) -> (StateView, Seq<EffectView>) {
    let s1 = StateView { busy: false, ..s };
    match r {
        Ok(Some(path)) => (s1, seq![EffectView::PersistSaveLocation(path)]),
        Ok(None) => load_pending(s1),
        Err(error) => load_pending(StateView { settings_error: Some(error), ..s1 }),
    }
}

/// When the folder for automatic saving was stored, or failed to be.
#[verifier::opaque]
pub open spec fn on_location_persisted(s: StateView, path: Seq<char>, r: Result<(), Seq<char>>) -> (StateView, Seq<EffectView>) {
    match r {
        Ok(()) => load_pending(StateView { save_location: path, settings_error: None, ..s }),
        Err(error) => load_pending(StateView { settings_error: Some(settings_save_failed() + error), ..s }),
    }
}

/// When the notification was shown, or failed to be.
#[verifier::opaque]
pub open spec fn on_notified(s: StateView, r: Result<(), Seq<char>>) -> (StateView, Seq<EffectView>) {
    match r {
        Ok(()) => {
            let s1 = StateView { busy: false, status_detail: None, ..s };
            match s1.pending_preview {
                Some(req) => load_preview(StateView { pending_preview: None, ..s1 }, req),
                None => if s1.preview is Some {
                    (s1, Seq::empty())
                } else {
                    (s1, seq![EffectView::Exit])
                },
            }
        },
        Err(error) => open_preview(
            StateView {
                busy: false,
                status: s.status + ". Couldn’t show a notification."@,
                status_detail: Some(error),
                ..s
            },
        ),
    }
}

/// When the desktop screenshot arrived: select from it (or use it whole in
/// full-screen mode), or show the error in the editor.
#[verifier::opaque]
pub open spec fn on_captured(s: StateView, r: Result<ImageView, Seq<char>>) -> (StateView, Seq<EffectView>) {
    match r {
        Ok(image) => {
            let s1 = StateView { busy: false, shown: Some(Slot::Source), source: Some(image), selecting: true, ..s };
            if s1.capture_mode == Some(CaptureMode::Fullscreen) {
                let (s2, effects) = finish_start(s1, false);
                (s2, seq![EffectView::RefreshImage] + effects)
            } else {
                (s1, seq![EffectView::RefreshImage, EffectView::OpenOverlay(s1.overlay)])
            }
        },
        Err(error) => open_preview(
            StateView {
                busy: false,
                status: "Couldn’t take a screenshot. Please try again."@,
                status_detail: Some(error),
                ..s
            },
        ),
    }
}

/// When the user picks a mode: full screen captures at once; another mode applies to the selection.
#[verifier::opaque]
pub open spec fn on_mode(s: StateView, mode: CaptureMode) -> (StateView, Seq<EffectView>) {
    if mode == CaptureMode::Fullscreen && !s.dragging {
        finish_start(s, false)
    } else if s.selecting && !s.dragging {
        load_pending(StateView { capture_mode: Some(mode), status: Seq::empty(), ..s })
    } else {
        load_pending(s)
    }
}

/// When the user asks to save the result.
#[verifier::opaque]
pub open spec fn on_save(s: StateView) -> (StateView, Seq<EffectView>) {
    if !s.busy && !s.settings_open && s.closing_preview is None && s.result is Some {
        (
            StateView { busy: true, status: "Saving image…"@, status_detail: None, ..s },
            seq![EffectView::SaveAs(s.result.unwrap().png)],
        )
    } else {
        load_pending(s)
    }
}

/// When a copy or save finished: show its status, or the error with the image kept.
#[verifier::opaque]
pub open spec fn on_done(s: StateView, r: Result<Seq<char>, Seq<char>>) -> (StateView, Seq<EffectView>) {
    let s1 = StateView { busy: false, ..s };
    match r {
        Ok(status) => load_pending(StateView { status: done_status(status), status_detail: None, ..s1 }),
        Err(error) => load_pending(
            StateView {
                status: "Couldn’t finish. Try again; your screenshot is safe."@,
                status_detail: Some(error),
                ..s1
            },
        ),
    }
}

/// What the application does on an event: its next state and its effects.
pub open spec fn transition(s: StateView, e: EventView) -> (StateView, Seq<EffectView>) {
    match e {
        EventView::Activated(r) => on_activated(s, r),
        EventView::NewSnip => if s.preview is Some {
            activate(s, true, None)
        } else {
            load_pending(s)
        },
        EventView::Prepared(Ok((id, status))) => on_prepared(s, id, status),
        EventView::Prepared(Err(error)) => open_preview(
            StateView {
                busy: false,
                status: "Couldn’t finish capturing. Copy or save your screenshot."@,
                status_detail: Some(error),
                ..s
            },
        ),
        EventView::PreviewLoaded(r) => on_preview_loaded(s, r),
        EventView::Settings => if s.preview is Some {
            load_pending(StateView { settings_open: true, ..s })
        } else {
            load_pending(s)
        },
        EventView::Back => load_pending(StateView { settings_open: false, ..s }),
        EventView::Toggle(key, value) => (s, seq![EffectView::PersistSetting(key, value)]),
        EventView::Persisted(key, value, r) => on_persisted(s, key, value, r),
        EventView::ChooseSaveLocation => if !s.busy {
            (StateView { busy: true, ..s }, seq![EffectView::ChooseSaveLocation])
        } else {
            load_pending(s)
        },
        EventView::SaveLocation(r) => on_save_location(s, r),
        EventView::LocationPersisted(path, r) => on_location_persisted(s, path, r),
        EventView::Notified(r) => on_notified(s, r),
        EventView::Captured(r) => on_captured(s, r),
        EventView::Mode(mode) => on_mode(s, mode),
        EventView::Select => finish_start(s, true),
        EventView::Cropped(r) => if s.selecting && s.source is Some {
            finish_with(s, r)
        } else {
            (s, Seq::empty())
        },
        EventView::Drag(dragging) => load_pending(StateView { dragging, ..s }),
        EventView::Copy => copy_result(s),
        EventView::Save => on_save(s),
        EventView::Done(r) => on_done(s, r),
        EventView::CloseRequested(id) => if s.settings_open && s.preview == Some(id) {
            load_pending(StateView { settings_open: false, ..s })
        } else {
            dismiss(s)
        },
        EventView::Cancel => dismiss(s),
        EventView::Opened(id) => if s.preview == Some(id) {
            let (s2, effects) = focus_preview(s, id);
            (s2, seq![EffectView::SetTitle(id)] + effects)
        } else {
            load_pending(s)
        },
        EventView::Closed(id) => if s.closing_preview == Some(id) {
            restart_capture(StateView { closing_preview: None, ..s })
        } else {
            load_pending(s)
        },
    }
}

/// Escape or closing a window: nothing while busy (writes finish first); else
/// show a queued preview instead of the overlay, or quit.
#[verifier::opaque]
pub open spec fn dismiss(s: StateView) -> (StateView, Seq<EffectView>) {
    if s.busy {
        (s, Seq::empty())
    } else {
        match s.pending_preview {
            Some(r) => {
                let (s2, effects) = load_preview(
                    StateView { pending_preview: None, selecting: false, ..s },
                    r,
                );
                (s2, seq![EffectView::CloseOverlay(s.overlay)] + effects)
            },
            None => (s, seq![EffectView::Exit]),
        }
    }
}

/// The state at start-up: settings as stored (with defaults for keys that could
/// not be read), no window, nothing captured.
pub open spec fn initial_state(stored: StoredSettings, save_location: Seq<char>, load_error: Option<Seq<char>>) -> StateView {
    StateView {
        show_preview: match stored.show_preview { Some(v) => v, None => false },
        copy_on_capture: match stored.copy_on_capture { Some(v) => v, None => true },
        auto_save: match stored.auto_save { Some(v) => v, None => false },
        save_location,
        show_notification: match stored.show_notification { Some(v) => v, None => true },
        return_to_editor: false,
        capture_mode: None,
        settings_open: false,
        settings_error: match load_error {
            Some(e) => Some("Couldn’t load settings: "@ + e),
            None => None,
        },
        pending_preview: None,
        activation_token: None,
        overlay: 0,
        preview: None,
        closing_preview: None,
        source: None,
        result: None,
        shown: None,
        selecting: false,
        dragging: false,
        busy: false,
        status: Seq::empty(),
        status_detail: None,
        next_window: 1,
    }
}

/// Appends effects to a list.
fn add_effects(effects: &mut Vec<Effect>, more: Vec<Effect>)
    ensures
        effects_view(final(effects)@) == effects_view(old(effects)@) + effects_view(more@),
{
    let mut more = more;
    let ghost a = effects@;
    let ghost b = more@;
    effects.append(&mut more);
    proof {
        assert(effects_view(effects@) =~= effects_view(a) + effects_view(b));
    }
}

/// A list of one effect.
fn one(effect: Effect) -> (effects: Vec<Effect>)
    ensures
        effects_view(effects@) == seq![effect@],
{
    let mut effects = Vec::new();
    effects.push(effect);
    proof {
        assert(effects_view(effects@) =~= seq![effect@]);
    }
    effects
}

/// A list of two effects.
fn two(first: Effect, second: Effect) -> (effects: Vec<Effect>)
    ensures
        effects_view(effects@) == seq![first@, second@],
{
    let mut effects = Vec::new();
    effects.push(first);
    effects.push(second);
    proof {
        assert(effects_view(effects@) =~= seq![first@, second@]);
    }
    effects
}

/// No effect.
fn none() -> (effects: Vec<Effect>)
    ensures
        effects_view(effects@) == Seq::<EffectView>::empty(),
{
    let effects = Vec::new();
    proof {
        assert(effects_view(effects@) =~= Seq::<EffectView>::empty());
    }
    effects
}

impl AppState {
    /// The state at start-up, from the stored settings, the folder for
    /// automatic saving, and the error that kept the settings from loading, if any.
    pub fn new(stored: StoredSettings, save_location: String, load_error: Option<String>) -> (state: Self)
        ensures
            state@ == initial_state(stored, save_location@, opt_text(load_error)),
            state_wf(state@),
    {
        let settings_error = match load_error {
            Some(error) => Some(joined("Couldn’t load settings: ", error.as_str())),
            None => None,
        };
        AppState {
            show_preview: match stored.show_preview { Some(v) => v, None => false },
            copy_on_capture: match stored.copy_on_capture { Some(v) => v, None => true },
            auto_save: match stored.auto_save { Some(v) => v, None => false },
            save_location,
            show_notification: match stored.show_notification { Some(v) => v, None => true },
            return_to_editor: false,
            capture_mode: None,
            settings_open: false,
            settings_error,
            pending_preview: None,
            activation_token: None,
            overlay: 0,
            preview: None,
            closing_preview: None,
            source: None,
            result: None,
            shown: None,
            selecting: false,
            dragging: false,
            busy: false,
            status: String::new(),
            status_detail: None,
            next_window: 1,
        }
    }

    fn fresh_window(&mut self) -> (id: u64)
        ensures
            id == old(self).next_window,
            final(self)@ == (StateView { next_window: next_id(old(self).next_window), ..old(self)@ }),
    {
        let id = self.next_window;
        self.next_window = if id == u64::MAX { 0 } else { id + 1 };
        id
    }

    fn focus_preview(&mut self, id: u64) -> (effects: Vec<Effect>)
        ensures
            final(self)@.pending_preview == old(self)@.pending_preview,
            final(self)@.result == old(self)@.result,
            final(self)@ == focus_preview(old(self)@, id).0,
            effects_view(effects@) == focus_preview(old(self)@, id).1,
    {
        proof {
            reveal(focus_preview);
        }
        match self.activation_token.take() {
            Some(token) => one(Effect::ActivateWindow(id, token)),
            None => one(Effect::FocusWindow(id)),
        }
    }

    fn open_preview(&mut self) -> (effects: Vec<Effect>)
        ensures
            final(self)@.pending_preview == old(self)@.pending_preview,
            final(self)@.result == old(self)@.result,
            final(self)@ == open_preview(old(self)@).0,
            effects_view(effects@) == open_preview(old(self)@).1,
    {
        proof {
            reveal(open_preview);
        }
        if let Some(id) = self.preview {
            return self.focus_preview(id);
        }
        let id = self.fresh_window();
        self.preview = Some(id);
        one(Effect::OpenPreview(id))
    }

    fn restart_capture(&mut self) -> (effects: Vec<Effect>)
        ensures
            final(self)@.pending_preview == old(self)@.pending_preview,
            final(self)@ == restart_capture(old(self)@).0,
            effects_view(effects@) == restart_capture(old(self)@).1,
    {
        proof {
            reveal(restart_capture);
        }
        self.source = None;
        self.result = None;
        self.shown = None;
        self.dragging = false;
        self.busy = true;
        self.status = String::new();
        self.status_detail = None;
        self.overlay = self.fresh_window();
        two(Effect::RefreshImage, Effect::Capture)
    }

    fn load_preview(&mut self, request: Request) -> (effects: Vec<Effect>)
        requires
            request@.capture_id is Some,
        ensures
            final(self)@.pending_preview == old(self)@.pending_preview,
            final(self)@ == load_preview(old(self)@, request@).0,
            effects_view(effects@) == load_preview(old(self)@, request@).1,
    {
        proof {
            reveal(load_preview);
        }
        self.activation_token = request.token;
        let id = match request.capture_id {
            Some(id) => id,
            None => String::new(),
        };
        self.busy = true;
        self.source = None;
        self.result = None;
        self.shown = None;
        two(Effect::RefreshImage, Effect::LoadCached(id))
    }

    fn activate(&mut self, return_to_editor: bool, mode: Option<CaptureMode>) -> (effects: Vec<Effect>)
        ensures
            final(self)@.pending_preview == old(self)@.pending_preview,
            final(self)@ == activate(old(self)@, return_to_editor, mode).0,
            effects_view(effects@) == activate(old(self)@, return_to_editor, mode).1,
    {
        proof {
            reveal(activate);
        }
        if self.selecting || self.busy || self.settings_open || self.closing_preview.is_some() {
            return none();
        }
        self.return_to_editor = return_to_editor;
        self.capture_mode = mode;
        match self.preview.take() {
            None => self.restart_capture(),
            Some(id) => {
                self.closing_preview = Some(id);
                one(Effect::CloseWindow(id))
            },
        }
    }

    fn copy_result(&mut self) -> (effects: Vec<Effect>)
        ensures
            final(self)@.pending_preview == old(self)@.pending_preview,
            final(self)@ == copy_result(old(self)@).0,
            effects_view(effects@) == copy_result(old(self)@).1,
    {
        proof {
            reveal(copy_result);
        }
        let png = match &self.result {
            None => return none(),
            Some(image) => {
                if self.busy || self.settings_open || self.closing_preview.is_some() {
                    return none();
                }
                image.png.clone()
            },
        };
        self.busy = true;
        self.status = String::from_str("Copying image…");
        self.status_detail = None;
        one(Effect::CopyToClipboard(png))
    }

    fn finish_with(&mut self, result: Result<CapturedImage, String>) -> (effects: Vec<Effect>)
        ensures
            final(self)@.pending_preview == old(self)@.pending_preview,
            final(self)@ == finish_with(old(self)@, image_result(result)).0,
            effects_view(effects@) == finish_with(old(self)@, image_result(result)).1,
    {
        proof {
            reveal(finish_with);
        }
        match result {
            Ok(image) => {
                let png = image.png.clone();
                self.result = Some(image);
                self.shown = Some(Slot::Result);
                self.source = None;
                self.selecting = false;
                self.status = String::from_str("Finishing capture…");
                self.busy = true;
                let mut effects = one(Effect::RefreshImage);
                if self.capture_mode != Some(CaptureMode::Fullscreen) {
                    add_effects(&mut effects, one(Effect::CloseOverlay(self.overlay)));
                }
                let save_folder = if self.auto_save { Some(self.save_location.clone()) } else { None };
                add_effects(
                    &mut effects,
                    one(Effect::Deliver { png, copy: self.copy_on_capture, save_folder, notify: self.show_notification }),
                );
                effects
            },
            Err(error) => {
                self.status = error;
                none()
            },
        }
    }

    fn finish_start(&mut self, has_region: bool) -> (effects: Vec<Effect>)
        ensures
            final(self)@.pending_preview == old(self)@.pending_preview,
            final(self)@ == finish_start(old(self)@, has_region).0,
            effects_view(effects@) == finish_start(old(self)@, has_region).1,
    {
        proof {
            reveal(finish_start);
        }
        if !self.selecting {
            return none();
        }
        let source = match &self.source {
            None => return none(),
            Some(source) => source.duplicate(),
        };
        if has_region {
            return one(Effect::Crop);
        }
        self.finish_with(Ok(source))
    }

    fn load_pending(&mut self) -> (effects: Vec<Effect>)
        requires
            state_wf(old(self)@),
        ensures
            state_wf(final(self)@),
            final(self)@ == load_pending(old(self)@).0,
            effects_view(effects@) == load_pending(old(self)@).1,
    {
        proof {
            reveal(load_pending);
        }
        if !self.busy && !self.selecting && !self.settings_open && self.closing_preview.is_none()
            && self.pending_preview.is_some() {
            let request = self.pending_preview.take().unwrap();
            return self.load_preview(request);
        }
        none()
    }

    /// Applies an event: the state changes as `transition` says and the
    /// returned effects are those it lists, to be carried out in order.
    pub fn update(&mut self, event: Event) -> (effects: Vec<Effect>)
        requires
            state_wf(old(self)@),
            event@ matches EventView::Prepared(Ok((Some(_), _))) ==> old(self)@.result is Some,
        ensures
            state_wf(final(self)@),
            final(self)@ == transition(old(self)@, event@).0,
            effects_view(effects@) == transition(old(self)@, event@).1,
    {
        match event {
            Event::Activated(request) => self.on_activated(request),
            Event::Prepared(Ok((id, status))) => self.on_prepared(id, status),
            Event::PreviewLoaded(result) => self.on_preview_loaded(result),
            Event::Persisted(key, value, result) => self.on_persisted(key, value, result),
            Event::SaveLocation(result) => self.on_save_location(result),
            Event::LocationPersisted(path, result) => self.on_location_persisted(path, result),
            Event::Notified(result) => self.on_notified(result),
            Event::Captured(result) => self.on_captured(result),
            Event::Mode(mode) => self.on_mode(mode),
            Event::Save => self.on_save(),
            Event::Done(result) => self.on_done(result),
            Event::CloseRequested(_) | Event::Cancel | Event::Opened(_) | Event::Closed(_) => self.on_window(event),
            Event::Settings | Event::Back | Event::Toggle(_, _) | Event::ChooseSaveLocation => self.on_settings(event),
            _ => self.on_selection(event),
        }
    }

    fn on_window(&mut self, event: Event) -> (effects: Vec<Effect>)
        requires
            state_wf(old(self)@),
            event is CloseRequested || event is Cancel || event is Opened || event is Closed,
        ensures
            state_wf(final(self)@),
            final(self)@ == transition(old(self)@, event@).0,
            effects_view(effects@) == transition(old(self)@, event@).1,
    {
        match event {
            Event::CloseRequested(id) => {
                if self.settings_open && self.preview == Some(id) {
                    self.settings_open = false;
                    self.load_pending()
                } else {
                    self.dismiss()
                }
            },
            Event::Opened(id) => {
                if self.preview == Some(id) {
                    let mut effects = one(Effect::SetTitle(id));
                    add_effects(&mut effects, self.focus_preview(id));
                    effects
                } else {
                    self.load_pending()
                }
            },
            Event::Closed(id) => {
                if self.closing_preview == Some(id) {
                    self.closing_preview = None;
                    self.restart_capture()
                } else {
                    self.load_pending()
                }
            },
            _ => self.dismiss(),
        }
    }

    fn on_settings(&mut self, event: Event) -> (effects: Vec<Effect>)
        requires
            state_wf(old(self)@),
            event is Settings || event is Back || event is Toggle || event is ChooseSaveLocation,
        ensures
            state_wf(final(self)@),
            final(self)@ == transition(old(self)@, event@).0,
            effects_view(effects@) == transition(old(self)@, event@).1,
    {
        match event {
            Event::Settings => {
                if self.preview.is_some() {
                    self.settings_open = true;
                }
                self.load_pending()
            },
            Event::Back => {
                self.settings_open = false;
                self.load_pending()
            },
            Event::Toggle(key, value) => one(Effect::PersistSetting(key, value)),
            _ => {
                if !self.busy {
                    self.busy = true;
                    one(Effect::ChooseSaveLocation)
                } else {
                    self.load_pending()
                }
            },
        }
    }

    fn on_selection(&mut self, event: Event) -> (effects: Vec<Effect>)
        requires
            state_wf(old(self)@),
            event is NewSnip || event is Select || event is Cropped || event is Drag || event is Copy
                || event matches Event::Prepared(Err(_)),
        ensures
            state_wf(final(self)@),
            final(self)@ == transition(old(self)@, event@).0,
            effects_view(effects@) == transition(old(self)@, event@).1,
    {
        match event {
            Event::NewSnip => {
                if self.preview.is_some() {
                    self.activate(true, None)
                } else {
                    self.load_pending()
                }
            },
            Event::Select => self.finish_start(true),
            Event::Cropped(result) => {
                if self.selecting && self.source.is_some() {
                    self.finish_with(result)
                } else {
                    none()
                }
            },
            Event::Drag(dragging) => {
                self.dragging = dragging;
                self.load_pending()
            },
            Event::Copy => self.copy_result(),
            Event::Prepared(Err(error)) => {
                self.busy = false;
                self.status = String::from_str("Couldn’t finish capturing. Copy or save your screenshot.");
                self.status_detail = Some(error);
                self.open_preview()
            },
            _ => none(),
        }
    }

    fn on_activated(&mut self, request: Request) -> (effects: Vec<Effect>)
        requires
            state_wf(old(self)@),
        ensures
            state_wf(final(self)@),
            final(self)@ == on_activated(old(self)@, request@).0,
            effects_view(effects@) == on_activated(old(self)@, request@).1,
    {
        proof {
            reveal(on_activated);
        }
        if request.capture_id.is_some() {
            if self.busy || self.selecting || self.settings_open || self.closing_preview.is_some() {
                self.pending_preview = Some(request);
                return none();
            }
            return self.load_preview(request);
        }
        self.activation_token = request.token;
        self.activate(false, request.mode)
    }

    fn prepared_editor(&mut self, status: String) -> (effects: Vec<Effect>)
        ensures
            final(self)@ == prepared_editor(old(self)@, status@).0,
            effects_view(effects@) == prepared_editor(old(self)@, status@).1,
            final(self)@.pending_preview == old(self)@.pending_preview,
            final(self)@.result == old(self)@.result,
    {
        proof {
            reveal(prepared_editor);
        }
        self.busy = false;
        self.status = status;
        self.status_detail = None;
        let opens = self.pending_preview.is_none() && (self.show_preview || self.return_to_editor || (
        !self.copy_on_capture && !self.auto_save && !self.show_notification));
        if opens {
            self.open_preview()
        } else {
            none()
        }
    }

    fn on_prepared(&mut self, id: Option<String>, status: String) -> (effects: Vec<Effect>)
        requires
            state_wf(old(self)@),
            id is Some ==> old(self)@.result is Some,
        ensures
            state_wf(final(self)@),
            final(self)@ == on_prepared(old(self)@, opt_text(id), status@).0,
            effects_view(effects@) == on_prepared(old(self)@, opt_text(id), status@).1,
    {
        proof {
            reveal(on_prepared);
        }
        let mut editor = self.prepared_editor(status);
        match id {
            Some(capture_id) => {
                self.busy = true;
                let image = match &self.result {
                    Some(image) => image.duplicate(),
                    None => CapturedImage { width: 0, height: 0, png: Vec::new(), rgba: Vec::new() },
                };
                let status = self.status.clone();
                add_effects(&mut editor, one(Effect::Notify { image, capture_id, status }));
                editor
            },
            None => {
                if let Some(request) = self.pending_preview.take() {
                    return self.load_preview(request);
                }
                if self.preview.is_some() {
                    editor
                } else {
                    one(Effect::Exit)
                }
            },
        }
    }

    fn on_preview_loaded(&mut self, result: Result<CapturedImage, String>) -> (effects: Vec<Effect>)
        requires
            state_wf(old(self)@),
        ensures
            state_wf(final(self)@),
            final(self)@ == on_preview_loaded(old(self)@, image_result(result)).0,
            effects_view(effects@) == on_preview_loaded(old(self)@, image_result(result)).1,
    {
        proof {
            reveal(on_preview_loaded);
        }
        self.busy = false;
        if let Some(request) = self.pending_preview.take() {
            return self.load_preview(request);
        }
        match result {
            Ok(image) => {
                self.shown = Some(Slot::Result);
                self.result = Some(image);
                self.status = String::from_str("Screenshot ready");
                self.status_detail = None;
                let mut effects = one(Effect::RefreshImage);
                add_effects(&mut effects, self.open_preview());
                effects
            },
            Err(error) => {
                self.status = String::from_str("Cached screenshot is no longer available.");
                self.status_detail = Some(error);
                self.open_preview()
            },
        }
    }

    fn on_persisted(&mut self, key: SettingKey, value: bool, result: Result<(), String>) -> (effects: Vec<Effect>)
        requires
            state_wf(old(self)@),
        ensures
            state_wf(final(self)@),
            final(self)@ == on_persisted(old(self)@, key, value, unit_result(result)).0,
            effects_view(effects@) == on_persisted(old(self)@, key, value, unit_result(result)).1,
    {
        proof {
            reveal(on_persisted);
        }
        match result {
            Ok(()) => {
                match key {
                    SettingKey::ShowPreview => self.show_preview = value,
                    SettingKey::CopyOnCapture => self.copy_on_capture = value,
                    SettingKey::AutoSave => self.auto_save = value,
                    SettingKey::ShowNotification => self.show_notification = value,
                }
                self.settings_error = None;
            },
            Err(error) => {
                self.settings_error = Some(joined("Couldn’t save settings: ", error.as_str()));
            },
        }
        self.load_pending()
    }

    fn on_save_location(&mut self, result: Result<Option<String>, String>) -> (effects: Vec<Effect>)
        requires
            state_wf(old(self)@),
        ensures
            state_wf(final(self)@),
            final(self)@ == on_save_location(old(self)@, match result {
                Ok(p) => Ok(opt_text(p)),
                Err(e) => Err(e@),
            }).0,
            effects_view(effects@) == on_save_location(old(self)@, match result {
                Ok(p) => Ok(opt_text(p)),
                Err(e) => Err(e@),
            }).1,
    {
        proof {
            reveal(on_save_location);
        }
        self.busy = false;
        match result {
            Ok(Some(path)) => one(Effect::PersistSaveLocation(path)),
            Ok(None) => self.load_pending(),
            Err(error) => {
                self.settings_error = Some(error);
                self.load_pending()
            },
        }
    }

    fn on_location_persisted(&mut self, path: String, result: Result<(), String>) -> (effects: Vec<Effect>)
        requires
            state_wf(old(self)@),
        ensures
            state_wf(final(self)@),
            final(self)@ == on_location_persisted(old(self)@, path@, unit_result(result)).0,
            effects_view(effects@) == on_location_persisted(old(self)@, path@, unit_result(result)).1,
    {
        proof {
            reveal(on_location_persisted);
        }
        match result {
            Ok(()) => {
                self.save_location = path;
                self.settings_error = None;
            },
            Err(error) => {
                self.settings_error = Some(joined("Couldn’t save settings: ", error.as_str()));
            },
        }
        self.load_pending()
    }

    fn on_notified(&mut self, result: Result<(), String>) -> (effects: Vec<Effect>)
        requires
            state_wf(old(self)@),
        ensures
            state_wf(final(self)@),
            final(self)@ == on_notified(old(self)@, unit_result(result)).0,
            effects_view(effects@) == on_notified(old(self)@, unit_result(result)).1,
    {
        proof {
            reveal(on_notified);
        }
        match result {
            Ok(()) => {
                self.busy = false;
                self.status_detail = None;
                if let Some(request) = self.pending_preview.take() {
                    return self.load_preview(request);
                }
                if self.preview.is_some() {
                    none()
                } else {
                    one(Effect::Exit)
                }
            },
            Err(error) => {
                self.busy = false;
                self.status.append(". Couldn’t show a notification.");
                self.status_detail = Some(error);
                self.open_preview()
            },
        }
    }

    fn on_captured(&mut self, result: Result<CapturedImage, String>) -> (effects: Vec<Effect>)
        requires
            state_wf(old(self)@),
        ensures
            state_wf(final(self)@),
            final(self)@ == on_captured(old(self)@, image_result(result)).0,
            effects_view(effects@) == on_captured(old(self)@, image_result(result)).1,
    {
        proof {
            reveal(on_captured);
        }
        match result {
            Ok(image) => {
                self.busy = false;
                self.shown = Some(Slot::Source);
                self.source = Some(image);
                self.selecting = true;
                if self.capture_mode == Some(CaptureMode::Fullscreen) {
                    let mut effects = one(Effect::RefreshImage);
                    add_effects(&mut effects, self.finish_start(false));
                    effects
                } else {
                    two(Effect::RefreshImage, Effect::OpenOverlay(self.overlay))
                }
            },
            Err(error) => {
                self.busy = false;
                self.status = String::from_str("Couldn’t take a screenshot. Please try again.");
                self.status_detail = Some(error);
                self.open_preview()
            },
        }
    }

    fn on_mode(&mut self, mode: CaptureMode) -> (effects: Vec<Effect>)
        requires
            state_wf(old(self)@),
        ensures
            state_wf(final(self)@),
            final(self)@ == on_mode(old(self)@, mode).0,
            effects_view(effects@) == on_mode(old(self)@, mode).1,
    {
        proof {
            reveal(on_mode);
        }
        if mode == CaptureMode::Fullscreen && !self.dragging {
            self.finish_start(false)
        } else {
            if self.selecting && !self.dragging {
                self.capture_mode = Some(mode);
                self.status = String::new();
            }
            self.load_pending()
        }
    }

    fn on_save(&mut self) -> (effects: Vec<Effect>)
        requires
            state_wf(old(self)@),
        ensures
            state_wf(final(self)@),
            final(self)@ == on_save(old(self)@).0,
            effects_view(effects@) == on_save(old(self)@).1,
    {
        proof {
            reveal(on_save);
        }
        if !self.busy && !self.settings_open && self.closing_preview.is_none() {
            let png = match &self.result {
                Some(image) => Some(image.png.clone()),
                None => None,
            };
            if let Some(png) = png {
                self.busy = true;
                self.status = String::from_str("Saving image…");
                self.status_detail = None;
                return one(Effect::SaveAs(png));
            }
        }
        self.load_pending()
    }

    fn on_done(&mut self, result: Result<String, String>) -> (effects: Vec<Effect>)
        requires
            state_wf(old(self)@),
        ensures
            state_wf(final(self)@),
            final(self)@ == on_done(old(self)@, text_result(result)).0,
            effects_view(effects@) == on_done(old(self)@, text_result(result)).1,
    {
        proof {
            reveal(on_done);
        }
        self.busy = false;
        match result {
            Ok(status) => {
                proof {
                    reveal_strlit("Saved to ");
                }
                self.status = if text_starts_with(status.as_str(), "Saved to ") {
                    String::from_str("Screenshot saved")
                } else {
                    status
                };
                self.status_detail = None;
            },
            Err(error) => {
                self.status = String::from_str("Couldn’t finish. Try again; your screenshot is safe.");
                self.status_detail = Some(error);
            },
        }
        self.load_pending()
    }

    fn dismiss(&mut self) -> (effects: Vec<Effect>)
        requires
            state_wf(old(self)@),
        ensures
            state_wf(final(self)@),
            final(self)@ == dismiss(old(self)@).0,
            effects_view(effects@) == dismiss(old(self)@).1,
    {
        proof {
            reveal(dismiss);
        }
        if self.busy {
            return none();
        }
        match self.pending_preview.take() {
            Some(request) => {
                self.selecting = false;
                let mut effects = one(Effect::CloseOverlay(self.overlay));
                add_effects(&mut effects, self.load_preview(request));
                effects
            },
            None => one(Effect::Exit),
        }
    }

    /// Whether `window` shows the selection overlay; every other window shows the editor.
    pub fn shows_selection(&self, window: u64) -> (selection: bool)
        ensures
            selection == (window == self.overlay && self.selecting && self.shown is Some),
    {
        window == self.overlay && self.selecting && self.shown.is_some()
    }

    /// The mode the selection overlay offers: rectangle unless another was chosen.
    pub fn selection_mode(&self) -> (mode: CaptureMode)
        ensures
            mode == match self.capture_mode {
                Some(m) => m,
                None => CaptureMode::Rectangle,
            },
    {
        match self.capture_mode {
            Some(m) => m,
            None => CaptureMode::Rectangle,
        }
    }

    /// The screenshot the windows show, if any.
    pub fn shown_image(&self) -> (image: Option<&CapturedImage>)
        ensures
            match self.shown {
                Some(Slot::Source) => match self.source {
                    Some(i) => image == Some(&i),
                    None => image is None,
                },
                Some(Slot::Result) => match self.result {
                    Some(i) => image == Some(&i),
                    None => image is None,
                },
                None => image is None,
            },
    {
        match self.shown {
            Some(Slot::Source) => self.source.as_ref(),
            Some(Slot::Result) => self.result.as_ref(),
            None => None,
        }
    }

    /// The size of the result, shown in the editor.
    pub fn result_size(&self) -> (size: Option<(u32, u32)>)
        ensures
            size == match self.result {
                Some(i) => Some((i.width, i.height)),
                None => None,
            },
    {
        match &self.result {
            Some(image) => Some((image.width, image.height)),
            None => None,
        }
    }
}

/// The event of a key pressed that no widget handled; `key` is in lower case.
pub open spec fn shortcut_of(key: Seq<char>, control: bool) -> Option<EventView> {
    if key == "c"@ && control {
        Some(EventView::Copy)
    } else if key == "s"@ && control {
        Some(EventView::Save)
    } else if key == "r"@ && !control {
        Some(EventView::Mode(CaptureMode::Rectangle))
    } else if key == "l"@ && !control {
        Some(EventView::Mode(CaptureMode::Freehand))
    } else if key == "f"@ && !control {
        Some(EventView::Mode(CaptureMode::Fullscreen))
    } else {
        None
    }
}

/// The keyboard shortcuts: Ctrl+C copies, Ctrl+S saves; R, L and F pick the
/// rectangle, freehand and full-screen modes.
pub fn shortcut(key: &str, control: bool) -> (event: Option<Event>)
    ensures
        match (event, shortcut_of(key@, control)) {
            (Some(e), Some(v)) => e@ == v,
            (None, None) => true,
            _ => false,
        },
{
    if text_eq(key, "c") && control {
        Some(Event::Copy)
    } else if text_eq(key, "s") && control {
        Some(Event::Save)
    } else if text_eq(key, "r") && !control {
        Some(Event::Mode(CaptureMode::Rectangle))
    } else if text_eq(key, "l") && !control {
        Some(Event::Mode(CaptureMode::Freehand))
    } else if text_eq(key, "f") && !control {
        Some(Event::Mode(CaptureMode::Fullscreen))
    } else {
        None
    }
}

} // verus!

verus! {

/// While a capture, copy, save or notification is under way, Escape and
/// closing a window do nothing: writes finish before the application exits.
/// (Closing the editor while its settings are open only closes the settings.)
pub proof fn lemma_busy_finishes_before_exit(s: StateView, id: u64)
    requires
        s.busy,
    ensures
        transition(s, EventView::Cancel) == (s, Seq::<EffectView>::empty()),
        !(s.settings_open && s.preview == Some(id)) ==> transition(s, EventView::CloseRequested(id)) == (
            s,
            Seq::<EffectView>::empty(),
        ),
{
    reveal(dismiss);
}

/// A request to open a cached capture that arrives while the application is
/// busy, selecting, in its settings or closing the editor is kept, not lost.
pub proof fn lemma_preview_request_is_queued(s: StateView, r: RequestView)
    requires
        r.capture_id is Some,
        s.busy || s.selecting || s.settings_open || s.closing_preview is Some,
    ensures
        transition(s, EventView::Activated(r)) == (
            StateView { pending_preview: Some(r), ..s },
            Seq::<EffectView>::empty(),
        ),
{
    reveal(on_activated);
}

/// A new snip from the editor first closes the editor and takes no screenshot;
/// the screenshot is requested only once that window is gone.
pub proof fn lemma_new_snip_waits_for_editor(s: StateView, id: u64)
    requires
        s.preview == Some(id),
        !s.selecting && !s.busy && !s.settings_open && s.closing_preview is None,
    ensures
        transition(s, EventView::NewSnip).1 == seq![EffectView::CloseWindow(id)],
        transition(s, EventView::NewSnip).0.closing_preview == Some(id),
        transition(s, EventView::NewSnip).0.preview is None,
        transition(transition(s, EventView::NewSnip).0, EventView::Closed(id)).1 == seq![
            EffectView::RefreshImage,
            EffectView::Capture,
        ],
{
    reveal(activate);
    reveal(restart_capture);
}

/// When nothing would keep a finished capture (no copy, no automatic save, no
/// notification), the editor shows it so that it can still be saved, and the
/// application does not quit.
pub proof fn lemma_unkept_capture_opens_editor(s: StateView, status: Seq<char>)
    requires
        s.pending_preview is None,
        !s.copy_on_capture && !s.auto_save && !s.show_notification,
    ensures
        ({
            let (next, effects) = transition(s, EventView::Prepared(Ok((None, status))));
            &&& next.preview is Some
            &&& next.result == s.result
            &&& !effects.contains(EffectView::Exit)
        }),
{
    reveal(on_prepared);
    reveal(prepared_editor);
    reveal(open_preview);
    reveal(focus_preview);
    let (next, effects) = transition(s, EventView::Prepared(Ok((None, status))));
    let s1 = StateView { busy: false, status, status_detail: None, ..s };
    if s1.preview is None {
        assert(effects =~= seq![EffectView::OpenPreview(s1.next_window)]);
    } else if s1.activation_token is Some {
        assert(effects =~= seq![EffectView::ActivateWindow(s1.preview.unwrap(), s1.activation_token.unwrap())]);
    } else {
        assert(effects =~= seq![EffectView::FocusWindow(s1.preview.unwrap())]);
    }
    if effects.contains(EffectView::Exit) {
        let k = choose|k: int| 0 <= k < effects.len() && effects[k] == EffectView::Exit;
    }
}

/// A failed copy or save keeps the image and shows the error (unless a cached
/// capture was waiting to be shown, which is then loaded instead).
pub proof fn lemma_failed_delivery_keeps_image(s: StateView, error: Seq<char>)
    requires
        !(s.pending_preview is Some && !s.selecting && !s.settings_open && s.closing_preview is None),
    ensures
        transition(s, EventView::Done(Err(error))).0.result == s.result,
        transition(s, EventView::Done(Err(error))).0.status_detail == Some(error),
{
    reveal(on_done);
    reveal(load_pending);
}

/// Escape during a selection, with no preview waiting, quits without a capture.
pub proof fn lemma_escape_cancels_selection(s: StateView)
    requires
        s.selecting,
        !s.busy,
        s.pending_preview is None,
    ensures
        transition(s, EventView::Cancel) == (s, seq![EffectView::Exit]),
{
    reveal(dismiss);
}

/// In full-screen mode the whole screenshot becomes the result at once: no
/// overlay opens or closes, and it is delivered as configured.
pub proof fn lemma_fullscreen_capture_is_delivered(s: StateView, image: ImageView)
    requires
        s.capture_mode == Some(CaptureMode::Fullscreen),
    ensures
        ({
            let (next, effects) = transition(s, EventView::Captured(Ok(image)));
            &&& next.result == Some(image)
            &&& next.source is None
            &&& !next.selecting
            &&& next.busy
            &&& effects == seq![
                EffectView::RefreshImage,
                EffectView::RefreshImage,
                EffectView::Deliver {
                    png: image.png,
                    copy: s.copy_on_capture,
                    save_folder: if s.auto_save { Some(s.save_location) } else { None },
                    notify: s.show_notification,
                },
            ]
        }),
{
    reveal(on_captured);
    reveal(finish_start);
    reveal(finish_with);
}

/// A capture asks for the desktop snapshot first and opens the selection
/// overlay only once the snapshot has arrived, so the overlay is never in it.
pub proof fn lemma_snapshot_before_overlay(s: StateView, r: RequestView, image: ImageView)
    requires
        r.capture_id is None,
        r.mode != Some(CaptureMode::Fullscreen),
        !s.selecting && !s.busy && !s.settings_open && s.closing_preview is None,
        s.preview is None,
    ensures
        ({
            let (s1, first) = transition(s, EventView::Activated(r));
            let (s2, second) = transition(s1, EventView::Captured(Ok(image)));
            &&& first == seq![EffectView::RefreshImage, EffectView::Capture]
            &&& second == seq![EffectView::RefreshImage, EffectView::OpenOverlay(s1.overlay)]
            &&& s2.source == Some(image)
            &&& s2.selecting
        }),
{
    reveal(on_activated);
    reveal(activate);
    reveal(restart_capture);
    reveal(on_captured);
}

/// A finished area or freehand selection becomes the result: the overlay closes
/// first, then the cropped image is delivered (copied, saved, cached) as configured.
pub proof fn lemma_selection_is_delivered(s: StateView, image: ImageView)
    requires
        s.selecting,
        s.source is Some,
        s.capture_mode != Some(CaptureMode::Fullscreen),
    ensures
        ({
            let (next, effects) = transition(s, EventView::Cropped(Ok(image)));
            &&& next.result == Some(image)
            &&& next.source is None
            &&& !next.selecting
            &&& next.busy
            &&& effects == seq![
                EffectView::RefreshImage,
                EffectView::CloseOverlay(s.overlay),
                EffectView::Deliver {
                    png: image.png,
                    copy: s.copy_on_capture,
                    save_folder: if s.auto_save { Some(s.save_location) } else { None },
                    notify: s.show_notification,
                },
            ]
        }),
{
    reveal(finish_with);
}

/// After a failed copy or save the image stays, and copying again copies it.
pub proof fn lemma_copy_retry_after_failure(s: StateView, error: Seq<char>)
    requires
        s.result is Some,
        s.pending_preview is None,
        !s.settings_open && s.closing_preview is None,
    ensures
        ({
            let (s1, _) = transition(s, EventView::Done(Err(error)));
            &&& s1.result == s.result
            &&& transition(s1, EventView::Copy).1 == seq![EffectView::CopyToClipboard(s.result.unwrap().png)]
        }),
{
    reveal(on_done);
    reveal(load_pending);
    reveal(copy_result);
}

/// The value of a boolean setting.
pub open spec fn setting_value(s: StateView, key: SettingKey) -> bool {
    match key {
        SettingKey::ShowPreview => s.show_preview,
        SettingKey::CopyOnCapture => s.copy_on_capture,
        SettingKey::AutoSave => s.auto_save,
        SettingKey::ShowNotification => s.show_notification,
    }
}

/// Once a setting is stored, it takes the new value and the other settings
/// keep theirs; when storing fails, no setting changes.
pub proof fn lemma_persisted_setting_applies(s: StateView, key: SettingKey, value: bool, error: Seq<char>)
    ensures
        forall|k: SettingKey|
            #![trigger setting_value(transition(s, EventView::Persisted(key, value, Ok(()))).0, k)]
            setting_value(transition(s, EventView::Persisted(key, value, Ok(()))).0, k) == if k == key {
                value
            } else {
                setting_value(s, k)
            },
        forall|k: SettingKey|
            #![trigger setting_value(transition(s, EventView::Persisted(key, value, Err(error))).0, k)]
            setting_value(transition(s, EventView::Persisted(key, value, Err(error))).0, k) == setting_value(s, k),
{
    reveal(on_persisted);
    reveal(load_pending);
    reveal(load_preview);
}

/// While selecting and not dragging, picking a mode other than full screen
/// makes it the capture mode, so the overlay offers it.
pub proof fn lemma_mode_applies_while_selecting(s: StateView, mode: CaptureMode)
    requires
        s.selecting,
        !s.dragging,
        mode != CaptureMode::Fullscreen,
    ensures
        transition(s, EventView::Mode(mode)).0.capture_mode == Some(mode),
        transition(s, EventView::Mode(mode)).0.selecting,
{
    reveal(on_mode);
    reveal(load_pending);
}

/// With the editor asked for after each capture and no cached capture
/// waiting, a delivered capture leaves the editor open (opening it first when
/// it was closed), and the notification's answer does not quit.
pub proof fn lemma_editor_opens_when_asked(s: StateView, id: Option<Seq<char>>, status: Seq<char>)
    requires
        s.show_preview,
        s.pending_preview is None,
    ensures
        ({
            let (next, effects) = transition(s, EventView::Prepared(Ok((id, status))));
            &&& next.preview is Some
            &&& s.preview is None ==> effects.len() > 0 && effects[0] == EffectView::OpenPreview(next.preview.unwrap())
            &&& next.pending_preview is None
            &&& transition(next, EventView::Notified(Ok(()))).1 == Seq::<EffectView>::empty()
        }),
{
    reveal(on_prepared);
    reveal(prepared_editor);
    reveal(open_preview);
    reveal(focus_preview);
    reveal(on_notified);
}

/// Whether a list of effects quits the application.
pub open spec fn quits(effects: Seq<EffectView>) -> bool {
    effects.contains(EffectView::Exit)
}

proof fn lemma_quits_concat(a: Seq<EffectView>, b: Seq<EffectView>)
    ensures
        quits(a + b) == (quits(a) || quits(b)),
{
    if quits(a + b) {
        let k = choose|k: int| 0 <= k < (a + b).len() && (a + b)[k] == EffectView::Exit;
        if k < a.len() {
            assert(a[k] == EffectView::Exit);
        } else {
            assert(b[k - a.len()] == EffectView::Exit);
        }
    }
    if quits(a) {
        let k = choose|k: int| 0 <= k < a.len() && a[k] == EffectView::Exit;
        assert((a + b)[k] == EffectView::Exit);
    }
    if quits(b) {
        let k = choose|k: int| 0 <= k < b.len() && b[k] == EffectView::Exit;
        assert((a + b)[a.len() + k] == EffectView::Exit);
    }
}

proof fn lemma_single_quits(x: EffectView)
    ensures
        quits(seq![x]) == (x == EffectView::Exit),
{
    if quits(seq![x]) {
        let k = choose|k: int| 0 <= k < 1 && seq![x][k] == EffectView::Exit;
    }
    if x == EffectView::Exit {
        assert(seq![x][0] == EffectView::Exit);
    }
}

proof fn lemma_pair_quits(x: EffectView, y: EffectView)
    ensures
        quits(seq![x, y]) == (x == EffectView::Exit || y == EffectView::Exit),
{
    assert(seq![x, y] =~= seq![x] + seq![y]);
    lemma_quits_concat(seq![x], seq![y]);
    lemma_single_quits(x);
    lemma_single_quits(y);
}

proof fn lemma_helpers_do_not_quit(s: StateView, id: u64, r: RequestView, flag: bool, mode: Option<CaptureMode>, result: Result<ImageView, Seq<char>>)
    ensures
        !quits(open_preview(s).1),
        !quits(focus_preview(s, id).1),
        !quits(restart_capture(s).1),
        !quits(load_preview(s, r).1),
        !quits(activate(s, flag, mode).1),
        !quits(copy_result(s).1),
        !quits(finish_with(s, result).1),
        !quits(finish_start(s, flag).1),
        !quits(load_pending(s).1),
{
    reveal(open_preview);
    reveal(focus_preview);
    reveal(restart_capture);
    reveal(load_preview);
    reveal(activate);
    reveal(copy_result);
    reveal(finish_start);
    reveal(finish_with);
    reveal(load_pending);
    assert(!quits(Seq::<EffectView>::empty()));
    lemma_single_quits(EffectView::OpenPreview(s.next_window));
    lemma_single_quits(EffectView::FocusWindow(id));
    if s.activation_token is Some {
        lemma_single_quits(EffectView::ActivateWindow(id, s.activation_token.unwrap()));
    }
    if s.preview is Some {
        lemma_single_quits(EffectView::FocusWindow(s.preview.unwrap()));
        if s.activation_token is Some {
            lemma_single_quits(EffectView::ActivateWindow(s.preview.unwrap(), s.activation_token.unwrap()));
        }
        lemma_single_quits(EffectView::CloseWindow(s.preview.unwrap()));
    }
    lemma_pair_quits(EffectView::RefreshImage, EffectView::Capture);
    lemma_pair_quits(EffectView::RefreshImage, EffectView::LoadCached(r.capture_id.unwrap()));
    if s.pending_preview is Some {
        lemma_pair_quits(EffectView::RefreshImage, EffectView::LoadCached(s.pending_preview.unwrap().capture_id.unwrap()));
    }
    if s.result is Some {
        lemma_single_quits(EffectView::CopyToClipboard(s.result.unwrap().png));
    }
    lemma_single_quits(EffectView::Crop);
    let deliver = |image: ImageView|
        EffectView::Deliver {
            png: image.png,
            copy: s.copy_on_capture,
            save_folder: if s.auto_save { Some(s.save_location) } else { None },
            notify: s.show_notification,
        };
    let close: Seq<EffectView> = if s.capture_mode == Some(CaptureMode::Fullscreen) {
        Seq::empty()
    } else {
        seq![EffectView::CloseOverlay(s.overlay)]
    };
    lemma_single_quits(EffectView::RefreshImage);
    lemma_single_quits(EffectView::CloseOverlay(s.overlay));
    if let Ok(image) = result {
        lemma_single_quits(deliver(image));
        lemma_quits_concat(seq![EffectView::RefreshImage], close);
        lemma_quits_concat(seq![EffectView::RefreshImage] + close, seq![deliver(image)]);
    }
    if s.source is Some {
        let image = s.source.unwrap();
        lemma_single_quits(deliver(image));
        lemma_quits_concat(seq![EffectView::RefreshImage], close);
        lemma_quits_concat(seq![EffectView::RefreshImage] + close, seq![deliver(image)]);
    }
}

/// The application only quits when it is not busy.
pub proof fn lemma_exit_only_when_idle(s: StateView, e: EventView)
    requires
        state_wf(s),
    ensures
        quits(transition(s, e).1) ==> !transition(s, e).0.busy,
{
    let (next, effects) = transition(s, e);
    match e {
        EventView::Prepared(Err(error)) => {
            lemma_helpers_do_not_quit(StateView {
                busy: false,
                status: "Couldn’t finish capturing. Copy or save your screenshot."@,
                status_detail: Some(error),
                ..s
            }, 0, RequestView { capture_id: None, mode: None, token: None }, false, None, Err(Seq::empty()));
        },
        EventView::Prepared(Ok((id, status))) => {
            reveal(on_prepared);
            reveal(prepared_editor);
            reveal(open_preview);
            reveal(focus_preview);
            let s1 = StateView { busy: false, status, status_detail: None, ..s };
            lemma_helpers_do_not_quit(s1, 0, s.pending_preview.unwrap_or(RequestView { capture_id: None, mode: None, token: None }), false, None, Err(Seq::empty()));
            let (s2, editor) = prepared_editor(s, status);
            if id is Some {
                lemma_single_quits(EffectView::Notify { image: s2.result.unwrap(), capture_id: id.unwrap(), status: s2.status });
                lemma_quits_concat(editor, seq![EffectView::Notify { image: s2.result.unwrap(), capture_id: id.unwrap(), status: s2.status }]);
            } else if s2.pending_preview is Some {
                lemma_helpers_do_not_quit(StateView { pending_preview: None, ..s2 }, 0, s2.pending_preview.unwrap(), false, None, Err(Seq::empty()));
            }
        },
        EventView::Notified(r) => {
            reveal(on_notified);
            if r is Ok {
                let s1 = StateView { busy: false, status_detail: None, ..s };
                if s1.pending_preview is Some {
                    lemma_helpers_do_not_quit(StateView { pending_preview: None, ..s1 }, 0, s1.pending_preview.unwrap(), false, None, Err(Seq::empty()));
                } else {
                    assert(!quits(Seq::<EffectView>::empty()));
                }
            } else {
                lemma_helpers_do_not_quit(StateView { busy: false, status: s.status + ". Couldn’t show a notification."@, status_detail: Some(r->Err_0), ..s }, 0, RequestView { capture_id: None, mode: None, token: None }, false, None, Err(Seq::empty()));
            }
        },
        EventView::Cancel | EventView::CloseRequested(_) => {
            reveal(dismiss);
            lemma_helpers_do_not_quit(s, 0, RequestView { capture_id: None, mode: None, token: None }, false, None, Err(Seq::empty()));
            if !s.busy && s.pending_preview is Some {
                let (s2, more) = load_preview(StateView { pending_preview: None, selecting: false, ..s }, s.pending_preview.unwrap());
                lemma_helpers_do_not_quit(StateView { pending_preview: None, selecting: false, ..s }, 0, s.pending_preview.unwrap(), false, None, Err(Seq::empty()));
                lemma_single_quits(EffectView::CloseOverlay(s.overlay));
                lemma_quits_concat(seq![EffectView::CloseOverlay(s.overlay)], more);
            }
            if s.settings_open {
                lemma_helpers_do_not_quit(StateView { settings_open: false, ..s }, 0, RequestView { capture_id: None, mode: None, token: None }, false, None, Err(Seq::empty()));
            }
            assert(!quits(Seq::<EffectView>::empty()));
        },
        _ => {
            lemma_other_events_do_not_quit(s, e);
        },
    }
}

/// No event but a delivered capture, a notification, Escape or a closed window quits.
proof fn lemma_other_events_do_not_quit(s: StateView, e: EventView)
    requires
        state_wf(s),
        !(e is Prepared || e is Notified || e is Cancel || e is CloseRequested),
    ensures
        !quits(transition(s, e).1),
{
    let none = RequestView { capture_id: None, mode: None, token: None };
    let no_image: Result<ImageView, Seq<char>> = Err(Seq::empty());
    assert(!quits(Seq::<EffectView>::empty()));
    match e {
        EventView::Activated(r) => {
            reveal(on_activated);
            lemma_helpers_do_not_quit(s, 0, r, false, r.mode, no_image);
            lemma_helpers_do_not_quit(StateView { activation_token: r.token, ..s }, 0, r, false, r.mode, no_image);
        },
        EventView::NewSnip => lemma_helpers_do_not_quit(s, 0, none, true, None, no_image),
        EventView::PreviewLoaded(r) => {
            reveal(on_preview_loaded);
            let s1 = StateView { busy: false, ..s };
            if s1.pending_preview is Some {
                lemma_helpers_do_not_quit(StateView { pending_preview: None, ..s1 }, 0, s1.pending_preview.unwrap(), false, None, no_image);
            } else if r is Ok {
                let s2 = StateView {
                    shown: Some(Slot::Result),
                    result: Some(r->Ok_0),
                    status: "Screenshot ready"@,
                    status_detail: None,
                    ..s1
                };
                lemma_helpers_do_not_quit(s2, 0, none, false, None, no_image);
                lemma_single_quits(EffectView::RefreshImage);
                lemma_quits_concat(seq![EffectView::RefreshImage], open_preview(s2).1);
            } else {
                lemma_helpers_do_not_quit(StateView {
                    status: "Cached screenshot is no longer available."@,
                    status_detail: Some(r->Err_0),
                    ..s1
                }, 0, none, false, None, no_image);
            }
        },
        EventView::Settings => {
            lemma_helpers_do_not_quit(s, 0, none, false, None, no_image);
            lemma_helpers_do_not_quit(StateView { settings_open: true, ..s }, 0, none, false, None, no_image);
        },
        EventView::Back => lemma_helpers_do_not_quit(StateView { settings_open: false, ..s }, 0, none, false, None, no_image),
        EventView::Toggle(key, value) => lemma_single_quits(EffectView::PersistSetting(key, value)),
        EventView::Persisted(key, value, r) => {
            reveal(on_persisted);
            lemma_helpers_do_not_quit(StateView { settings_error: None, ..with_setting(s, key, value) }, 0, none, false, None, no_image);
            if r is Err {
                lemma_helpers_do_not_quit(StateView { settings_error: Some(settings_save_failed() + r->Err_0), ..s }, 0, none, false, None, no_image);
            }
        },
        EventView::ChooseSaveLocation => {
            lemma_single_quits(EffectView::ChooseSaveLocation);
            lemma_helpers_do_not_quit(s, 0, none, false, None, no_image);
        },
        EventView::SaveLocation(r) => {
            reveal(on_save_location);
            let s1 = StateView { busy: false, ..s };
            lemma_helpers_do_not_quit(s1, 0, none, false, None, no_image);
            match r {
                Ok(Some(path)) => lemma_single_quits(EffectView::PersistSaveLocation(path)),
                Err(error) => lemma_helpers_do_not_quit(StateView { settings_error: Some(error), ..s1 }, 0, none, false, None, no_image),
                _ => {},
            }
        },
        EventView::LocationPersisted(path, r) => {
            reveal(on_location_persisted);
            lemma_helpers_do_not_quit(StateView { save_location: path, settings_error: None, ..s }, 0, none, false, None, no_image);
            if r is Err {
                lemma_helpers_do_not_quit(StateView { settings_error: Some(settings_save_failed() + r->Err_0), ..s }, 0, none, false, None, no_image);
            }
        },
        EventView::Captured(r) => {
            reveal(on_captured);
            if r is Ok {
                let s1 = StateView { busy: false, shown: Some(Slot::Source), source: Some(r->Ok_0), selecting: true, ..s };
                lemma_helpers_do_not_quit(s1, 0, none, false, None, no_image);
                lemma_single_quits(EffectView::RefreshImage);
                lemma_quits_concat(seq![EffectView::RefreshImage], finish_start(s1, false).1);
                lemma_pair_quits(EffectView::RefreshImage, EffectView::OpenOverlay(s1.overlay));
            } else {
                lemma_helpers_do_not_quit(StateView {
                    busy: false,
                    status: "Couldn’t take a screenshot. Please try again."@,
                    status_detail: Some(r->Err_0),
                    ..s
                }, 0, none, false, None, no_image);
            }
        },
        EventView::Mode(mode) => {
            reveal(on_mode);
            lemma_helpers_do_not_quit(s, 0, none, false, None, no_image);
            lemma_helpers_do_not_quit(StateView { capture_mode: Some(mode), status: Seq::empty(), ..s }, 0, none, false, None, no_image);
        },
        EventView::Select => lemma_helpers_do_not_quit(s, 0, none, true, None, no_image),
        EventView::Cropped(r) => lemma_helpers_do_not_quit(s, 0, none, false, None, r),
        EventView::Drag(dragging) => lemma_helpers_do_not_quit(StateView { dragging, ..s }, 0, none, false, None, no_image),
        EventView::Copy => lemma_helpers_do_not_quit(s, 0, none, false, None, no_image),
        EventView::Save => {
            reveal(on_save);
            lemma_helpers_do_not_quit(s, 0, none, false, None, no_image);
            if s.result is Some {
                lemma_single_quits(EffectView::SaveAs(s.result.unwrap().png));
            }
        },
        EventView::Done(r) => {
            reveal(on_done);
            let s1 = StateView { busy: false, ..s };
            match r {
                Ok(status) => lemma_helpers_do_not_quit(StateView { status: done_status(status), status_detail: None, ..s1 }, 0, none, false, None, no_image),
                Err(error) => lemma_helpers_do_not_quit(StateView {
                    status: "Couldn’t finish. Try again; your screenshot is safe."@,
                    status_detail: Some(error),
                    ..s1
                }, 0, none, false, None, no_image),
            }
        },
        EventView::Opened(id) => {
            lemma_helpers_do_not_quit(s, id, none, false, None, no_image);
            lemma_single_quits(EffectView::SetTitle(id));
            lemma_quits_concat(seq![EffectView::SetTitle(id)], focus_preview(s, id).1);
        },
        EventView::Closed(id) => {
            lemma_helpers_do_not_quit(s, 0, none, false, None, no_image);
            lemma_helpers_do_not_quit(StateView { closing_preview: None, ..s }, 0, none, false, None, no_image);
        },
        _ => {},
    }
}

} // verus!
