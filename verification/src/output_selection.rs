use vstd::prelude::*;

verus! {

/// How the user picks the captured area.
#[derive(Debug, Clone, Copy, PartialEq, Eq, Structural)]
pub enum CaptureMode {
    Rectangle,
    Freehand,
    Fullscreen,
}

/// The name shown for each mode.
pub open spec fn mode_label(mode: CaptureMode) -> Seq<char> {
    match mode {
        CaptureMode::Rectangle => "Rectangle"@,
        CaptureMode::Freehand => "Freehand"@,
        CaptureMode::Fullscreen => "Fullscreen"@,
    }
}

impl CaptureMode {
    /// Every mode, in toolbar order.
    pub const ALL: [CaptureMode; 3] = [CaptureMode::Rectangle, CaptureMode::Freehand, CaptureMode::Fullscreen];

    /// The label shown on the mode's toolbar button.
    pub fn label(self) -> (label: &'static str)
        ensures
            label@ == mode_label(self),
    {
        match self {
            CaptureMode::Rectangle => "Rectangle",
            CaptureMode::Freehand => "Freehand",
            CaptureMode::Fullscreen => "Fullscreen",
        }
    }
}

} // verus!
