use vstd::prelude::*;
use vstd::string::*;
use crate::cache::{is_canonical_uuid, valid_id};
use crate::output_selection::CaptureMode;
use crate::text::text_eq;

verus! {

/// The application's D-Bus name and desktop identifier.
pub const APP_ID: &'static str = "io.github.tg.PopShot";

/// The object path at which the application serves `org.freedesktop.Application`.
pub const OBJECT_PATH: &'static str = "/io/github/tg/PopShot";

/// A request to the running application: open a cached capture, or capture in
/// a mode, with the activation token of the launching desktop, if any.
#[derive(Debug, Clone)]
pub struct Request {
    pub capture_id: Option<String>,
    pub mode: Option<CaptureMode>,
    pub token: Option<String>,
}

/// A request as values.
pub struct RequestView {
    pub capture_id: Option<Seq<char>>,
    pub mode: Option<CaptureMode>,
    pub token: Option<Seq<char>>,
}

/// The text of an optional string.
pub open spec fn opt_text(text: Option<String>) -> Option<Seq<char>> {
    match text {
        Some(t) => Some(t@),
        None => None,
    }
}

impl View for Request {
    type V = RequestView;

    open spec fn view(&self) -> RequestView {
        RequestView { capture_id: opt_text(self.capture_id), mode: self.mode, token: opt_text(self.token) }
    }
}

/// A copy of an optional string.
pub fn copy_text(text: &Option<String>) -> (copy: Option<String>)
    ensures
        opt_text(copy) == opt_text(*text),
{
    match text {
        Some(t) => Some(t.clone()),
        None => None,
    }
}

/// What an activated action asks for.
#[derive(Debug, Clone)]
pub enum ActionTarget {
    /// Capture in this mode.
    Capture(CaptureMode),
    /// Open the cached capture with this id in the editor.
    Preview(String),
}

/// The action that starts a capture in each mode.
pub open spec fn action_name_of(mode: CaptureMode) -> Seq<char> {
    match mode {
        CaptureMode::Rectangle => "area"@,
        CaptureMode::Freehand => "freehand"@,
        CaptureMode::Fullscreen => "fullscreen"@,
    }
}

/// The capture mode an action name starts, if it is a capture action.
pub open spec fn action_mode(name: Seq<char>) -> Option<CaptureMode> {
    if name == "area"@ {
        Some(CaptureMode::Rectangle)
    } else if name == "freehand"@ {
        Some(CaptureMode::Freehand)
    } else if name == "fullscreen"@ {
        Some(CaptureMode::Fullscreen)
    } else {
        None
    }
}

/// The message for a capture action given parameters.
pub open spec fn no_parameters_message() -> Seq<char> {
    "Capture actions take no parameters"@
}

/// The message for an action that is neither a capture nor a preview with one parameter.
pub open spec fn expected_preview_message() -> Seq<char> {
    "Expected preview with one capture ID"@
}

/// The message for a preview parameter that is not a string.
pub open spec fn id_not_string_message() -> Seq<char> {
    "Capture ID must be a string"@
}

/// The message for a preview of an invalid capture id.
pub open spec fn invalid_id_message() -> Seq<char> {
    "Invalid capture ID"@
}

/// What an action with these parameters (each a string or something else) asks for.
pub open spec fn action_target_of(name: Seq<char>, parameters: Seq<Option<Seq<char>>>) -> Result<Result<CaptureMode, Seq<char>>, Seq<char>> {
    if action_mode(name) is Some {
        if parameters.len() != 0 {
            Err(no_parameters_message())
        } else {
            Ok(Ok(action_mode(name).unwrap()))
        }
    } else if name != "preview"@ || parameters.len() != 1 {
        Err(expected_preview_message())
    } else {
        match parameters[0] {
            None => Err(id_not_string_message()),
            Some(id) => if is_canonical_uuid(id) {
                Ok(Err(id))
            } else {
                Err(invalid_id_message())
            },
        }
    }
}

/// The parameters as texts, where they are strings.
pub open spec fn parameter_texts(parameters: Seq<Option<String>>) -> Seq<Option<Seq<char>>> {
    parameters.map_values(
        |p: Option<String>|
            match p {
                Some(s) => Some(s@),
                None => None,
            },
    )
}

/// The name of the action that starts a capture in `mode`.
pub fn action_name(mode: CaptureMode) -> (name: &'static str)
    ensures
        name@ == action_name_of(mode),
{
    match mode {
        CaptureMode::Rectangle => "area",
        CaptureMode::Freehand => "freehand",
        CaptureMode::Fullscreen => "fullscreen",
    }
}

fn capture_action(name: &str) -> (mode: Option<CaptureMode>)
    ensures
        mode == action_mode(name@),
{
    if text_eq(name, "area") {
        Some(CaptureMode::Rectangle)
    } else if text_eq(name, "freehand") {
        Some(CaptureMode::Freehand)
    } else if text_eq(name, "fullscreen") {
        Some(CaptureMode::Fullscreen)
    } else {
        None
    }
}

/// Decides what an `ActivateAction` call asks for: a capture action takes no
/// parameter; `preview` takes one string, a valid capture id. Each parameter is
/// given as its text when it is a string.
pub fn action_target(name: &str, parameters: &Vec<Option<String>>) -> (target: Result<ActionTarget, String>)
    ensures
        match (action_target_of(name@, parameter_texts(parameters@)), target) {
            (Ok(Ok(mode)), Ok(ActionTarget::Capture(m))) => m == mode,
            (Ok(Err(id)), Ok(ActionTarget::Preview(i))) => i@ == id,
            (Err(e), Err(message)) => message@ == e,
            _ => false,
        },
{
    if let Some(mode) = capture_action(name) {
        if parameters.len() != 0 {
            return Err(String::from_str("Capture actions take no parameters"));
        }
        return Ok(ActionTarget::Capture(mode));
    }
    if !text_eq(name, "preview") || parameters.len() != 1 {
        return Err(String::from_str("Expected preview with one capture ID"));
    }
    let id = match &parameters[0] {
        Some(id) => id.as_str(),
        None => return Err(String::from_str("Capture ID must be a string")),
    };
    if !valid_id(id) {
        return Err(String::from_str("Invalid capture ID"));
    }
    Ok(ActionTarget::Preview(String::from_str(id)))
}

/// The action that a second launch sends for a mode starts a capture in that mode.
pub proof fn lemma_mode_action_round_trip(mode: CaptureMode)
    ensures
        action_target_of(action_name_of(mode), Seq::empty()) == Ok::<Result<CaptureMode, Seq<char>>, Seq<char>>(Ok(mode)),
{
    reveal_strlit("area");
    reveal_strlit("freehand");
    reveal_strlit("fullscreen");
    assert("area"@.len() == 4 && "freehand"@.len() == 8 && "fullscreen"@.len() == 10);
    assert("area"@ != "freehand"@ && "area"@ != "fullscreen"@ && "freehand"@ != "fullscreen"@);
}

} // verus!
