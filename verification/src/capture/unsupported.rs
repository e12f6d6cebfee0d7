use vstd::prelude::*;

use super::result::CaptureResult;

verus! {

/// On platforms without the clipboard capture protocol every capture fails with
/// `unsupported_platform`.
pub fn capture_selected_text() -> (r: CaptureResult)
    ensures
        r.reports_error(
            "unsupported_platform"@,
            "This proof of concept currently supports Windows only"@,
        ),
{
    CaptureResult::error(
        "unsupported_platform",
        "This proof of concept currently supports Windows only",
    )
}

/// Capturing the focused input fails the same way as capturing a selection.
pub fn capture_focused_input() -> (r: CaptureResult)
    ensures
        r.reports_error(
            "unsupported_platform"@,
            "This proof of concept currently supports Windows only"@,
        ),
{
    capture_selected_text()
}

} // verus!
