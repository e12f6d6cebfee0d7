use vstd::prelude::*;

verus! {

/// Why a clipboard capture did not yield text.
#[derive(Debug, Clone, Copy, PartialEq, Eq, Structural)]
pub enum CaptureError {
    NoTextSelected,
    ClipboardUnavailable,
    ClipboardRestoreFailed,
    InputBlocked,
}

pub open spec fn capture_error_code(e: CaptureError) -> Seq<char> {
    match e {
        CaptureError::NoTextSelected => "no_text_selected"@,
        CaptureError::ClipboardUnavailable => "clipboard_unavailable"@,
        CaptureError::ClipboardRestoreFailed => "clipboard_restore_failed"@,
        CaptureError::InputBlocked => "input_blocked"@,
    }
}

pub open spec fn capture_error_message(e: CaptureError) -> Seq<char> {
    match e {
        CaptureError::NoTextSelected => "No text selected"@,
        CaptureError::ClipboardUnavailable => "Unable to capture text"@,
        CaptureError::ClipboardRestoreFailed => "Unable to restore clipboard"@,
        CaptureError::InputBlocked => "Windows blocked keyboard input"@,
    }
}

impl CaptureError {
    pub fn code(self) -> (r: &'static str)
        ensures
            r@ == capture_error_code(self),
    {
        match self {
            CaptureError::NoTextSelected => "no_text_selected",
            CaptureError::ClipboardUnavailable => "clipboard_unavailable",
            CaptureError::ClipboardRestoreFailed => "clipboard_restore_failed",
            CaptureError::InputBlocked => "input_blocked",
        }
    }

    pub fn user_message(self) -> (r: &'static str)
        ensures
            r@ == capture_error_message(self),
    {
        match self {
            CaptureError::NoTextSelected => "No text selected",
            CaptureError::ClipboardUnavailable => "Unable to capture text",
            CaptureError::ClipboardRestoreFailed => "Unable to restore clipboard",
            CaptureError::InputBlocked => "Windows blocked keyboard input",
        }
    }
}

} // verus!
