use vstd::prelude::*;

verus! {

/// Why a translation could not be produced.
#[derive(Debug)]
pub enum TranslationError {
    /// No API key is configured for the provider.
    MissingApiKey,
    /// The provider could not be reached.
    Network,
    /// The provider answered with an error; the provider's own message, if any.
    Api(String),
    /// The provider's answer could not be understood.
    InvalidResponse,
}

/// The stable error code reported to the user interface for `e`.
pub open spec fn translation_error_code(e: TranslationError) -> Seq<char> {
    match e {
        TranslationError::MissingApiKey => "missing_api_key"@,
        TranslationError::Network => "network_error"@,
        TranslationError::Api(_) => "provider_error"@,
        TranslationError::InvalidResponse => "invalid_response"@,
    }
}

/// The human readable message shown for `e`: the provider's own message when
/// it gave a non-empty one, otherwise a fixed message per error kind.
pub open spec fn translation_error_message(e: TranslationError) -> Seq<char> {
    match e {
        TranslationError::MissingApiKey => "Please configure your AI API key."@,
        TranslationError::Network => "Network error"@,
        TranslationError::Api(message) => if message@.len() > 0 {
            message@
        } else {
            "Google Translate rejected the request"@
        },
        TranslationError::InvalidResponse => "Google Translate returned an invalid response"@,
    }
}

impl TranslationError {
    pub fn code(&self) -> (r: &'static str)
        ensures
            r@ == translation_error_code(*self),
    {
        match self {
            TranslationError::MissingApiKey => "missing_api_key",
            TranslationError::Network => "network_error",
            TranslationError::Api(_) => "provider_error",
            TranslationError::InvalidResponse => "invalid_response",
        }
    }

    pub fn user_message(&self) -> (r: String)
        ensures
            r@ == translation_error_message(*self),
    {
        match self {
            TranslationError::MissingApiKey => String::from_str("Please configure your AI API key."),
            TranslationError::Network => String::from_str("Network error"),
            TranslationError::Api(message) => {
                if message.as_str().is_empty() {
                    String::from_str("Google Translate rejected the request")
                } else {
                    message.clone()
                }
            },
            TranslationError::InvalidResponse => String::from_str(
                "Google Translate returned an invalid response",
            ),
        }
    }
}

} // verus!
