use vstd::prelude::*;

use super::error::{translation_error_code, translation_error_message, TranslationError};

verus! {

/// Announces that a captured text is being translated.
#[derive(Debug)]
pub struct TranslationStarted {
    pub original_text: String,
    pub provider: &'static str,
    pub mode: &'static str,
}

/// The mathematical form of a `TranslationStarted`.
pub struct StartedView {
    pub original_text: Seq<char>,
    pub provider: Seq<char>,
    pub mode: Seq<char>,
}

impl View for TranslationStarted {
    type V = StartedView;

    open spec fn view(&self) -> StartedView {
        StartedView { original_text: self.original_text@, provider: self.provider@, mode: self.mode@ }
    }
}

/// What a translation reports to the floating window.
#[derive(Debug)]
pub struct TranslationResult {
    pub success: bool,
    pub original_text: String,
    pub translated_text: Option<String>,
    pub provider: &'static str,
    pub error_code: Option<&'static str>,
    pub message: Option<String>,
    pub mode: &'static str,
    pub injected: bool,
}

/// The mathematical form of a `TranslationResult`.
pub struct ResultView {
    pub success: bool,
    pub original_text: Seq<char>,
    pub translated_text: Option<Seq<char>>,
    pub provider: Seq<char>,
    pub error_code: Option<Seq<char>>,
    pub message: Option<Seq<char>>,
    pub mode: Seq<char>,
    pub injected: bool,
}

impl View for TranslationResult {
    type V = ResultView;

    open spec fn view(&self) -> ResultView {
        ResultView {
            success: self.success,
            original_text: self.original_text@,
            translated_text: match self.translated_text {
                Some(t) => Some(t@),
                None => None,
            },
            provider: self.provider@,
            error_code: match self.error_code {
                Some(c) => Some(c@),
                None => None,
            },
            message: match self.message {
                Some(m) => Some(m@),
                None => None,
            },
            mode: self.mode@,
            injected: self.injected,
        }
    }
}

/// A successful translation of `original` into `translated`.
pub open spec fn success_view(
    original: Seq<char>,
    translated: Seq<char>,
    provider: Seq<char>,
    mode: Seq<char>,
    injected: bool,
) -> ResultView {
    ResultView {
        success: true,
        original_text: original,
        translated_text: Some(translated),
        provider,
        error_code: None,
        message: None,
        mode,
        injected,
    }
}

/// A failed translation of `original`, reporting the code and message of `error`.
pub open spec fn error_view(
    original: Seq<char>,
    provider: Seq<char>,
    mode: Seq<char>,
    error: TranslationError,
) -> ResultView {
    ResultView {
        success: false,
        original_text: original,
        translated_text: None,
        provider,
        error_code: Some(translation_error_code(error)),
        message: Some(translation_error_message(error)),
        mode,
        injected: false,
    }
}

impl ResultView {
    /// A result carries a translation exactly when it succeeded, an error code
    /// and message exactly when it failed, and a failed result was never typed
    /// into the target application.
    pub open spec fn is_well_formed(self) -> bool {
        &&& self.success <==> self.translated_text is Some
        &&& self.success <==> self.error_code is None
        &&& self.success <==> self.message is None
        &&& !self.success ==> !self.injected
    }
}

/// Both kinds of result are well formed.
pub proof fn lemma_results_well_formed(
    original: Seq<char>,
    translated: Seq<char>,
    provider: Seq<char>,
    mode: Seq<char>,
    injected: bool,
    error: TranslationError,
)
    ensures
        success_view(original, translated, provider, mode, injected).is_well_formed(),
        error_view(original, provider, mode, error).is_well_formed(),
{
}

impl TranslationResult {
    pub fn success(
        original_text: String,
        translated_text: String,
        provider: &'static str,
        mode: &'static str,
        injected: bool,
    ) -> (r: Self)
        ensures
            r@ == success_view(original_text@, translated_text@, provider@, mode@, injected),
    {
        TranslationResult {
            success: true,
            original_text,
            translated_text: Some(translated_text),
            provider,
            error_code: None,
            message: None,
            mode,
            injected,
        }
    }

    pub fn error(
        original_text: String,
        provider: &'static str,
        mode: &'static str,
        error: TranslationError,
    ) -> (r: Self)
        ensures
            r@ == error_view(original_text@, provider@, mode@, error),
    {
        let code = error.code();
        let message = error.user_message();
        TranslationResult {
            success: false,
            original_text,
            translated_text: None,
            provider,
            error_code: Some(code),
            message: Some(message),
            mode,
            injected: false,
        }
    }
}

} // verus!
