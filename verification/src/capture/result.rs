use vstd::prelude::*;

use super::error::{CaptureError, capture_error_code, capture_error_message};

verus! {

/// What a capture reports to the floating window.
#[derive(Debug)]
pub struct CaptureResult {
    pub success: bool,
    pub text: Option<String>,
    pub source: &'static str,
    pub error_code: Option<&'static str>,
    pub message: Option<String>,
}

/// Where captured text comes from.
pub open spec fn capture_source() -> Seq<char> {
    "clipboard"@
}

impl CaptureResult {
    /// A result is well formed when it carries text exactly when it succeeded,
    /// and an error code and message exactly when it failed.
    pub open spec fn is_well_formed(&self) -> bool {
        &&& self.source@ == capture_source()
        &&& self.success <==> self.text is Some
        &&& self.success <==> self.error_code is None
        &&& self.success <==> self.message is None
    }

    /// The text of a successful capture, or the code and message of a failed one.
    pub open spec fn reports_text(&self, text: Seq<char>) -> bool {
        &&& self.is_well_formed()
        &&& self.success
        &&& self.text->0@ == text
    }

    pub open spec fn reports_error(&self, code: Seq<char>, message: Seq<char>) -> bool {
        &&& self.is_well_formed()
        &&& !self.success
        &&& self.error_code->0@ == code
        &&& self.message->0@ == message
    }

    pub fn success(text: String) -> (r: Self)
        ensures
            r.reports_text(text@),
    {
        CaptureResult {
            success: true,
            text: Some(text),
            source: "clipboard",
            error_code: None,
            message: None,
        }
    }

    pub fn error(code: &'static str, message: &str) -> (r: Self)
        ensures
            r.reports_error(code@, message@),
    {
        CaptureResult {
            success: false,
            text: None,
            source: "clipboard",
            error_code: Some(code),
            message: Some(String::from_str(message)),
        }
    }

    /// The result that reports the outcome of a capture.
    pub fn from_outcome(outcome: Result<String, CaptureError>) -> (r: Self)
        ensures
            match outcome {
                Ok(text) => r.reports_text(text@),
                Err(e) => r.reports_error(capture_error_code(e), capture_error_message(e)),
            },
    {
        match outcome {
            Ok(text) => CaptureResult::success(text),
            Err(e) => CaptureResult::error(e.code(), e.user_message()),
        }
    }
}

} // verus!
