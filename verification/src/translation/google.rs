//! The rules of the Google Cloud Translation provider: which key it accepts,
//! what it asks for, and how its answers become a translation or an error.
//! Sending the request and parsing the JSON body belong to the caller.

use vstd::prelude::*;

use super::error::TranslationError;
use crate::text::{is_blank, is_blank_text};

verus! {

/// The entity-decoded form of a text, as `html_escape::decode_html_entities` computes it.
pub uninterp spec fn html_entities_decoded(s: Seq<char>) -> Seq<char>;

/// `html_escape::decode_html_entities`: the result is named by
/// `html_entities_decoded`; the crate's source returns its input unchanged when
/// it holds no `&`, and that is the one fact stated about it.
#[verifier::external_body]
fn decode_html_entities(text: &str) -> (r: String)
    ensures
        r@ == html_entities_decoded(text@),
        !text@.contains('&') ==> r@ == text@,
{
    html_escape::decode_html_entities(text).into_owned()
}

/// The provider's display name.
pub open spec fn google_provider_name() -> Seq<char> {
    "Google Translate"@
}

pub fn provider_name() -> (r: &'static str)
    ensures
        r@ == google_provider_name(),
{
    "Google Translate"
}

/// The endpoint that translations are posted to.
pub fn translate_url() -> (r: &'static str)
    ensures
        r@ == "https://translation.googleapis.com/language/translate/v2"@,
{
    "https://translation.googleapis.com/language/translate/v2"
}

/// The environment variable that holds the API key.
pub fn api_key_variable() -> (r: &'static str)
    ensures
        r@ == "GOOGLE_TRANSLATE_API_KEY"@,
{
    "GOOGLE_TRANSLATE_API_KEY"
}

/// The configured API key, if the variable is set to something that is not blank.
pub fn api_key_from(value: Option<String>) -> (r: Result<String, TranslationError>)
    ensures
        match value {
            Some(key) => if is_blank_text(key@) {
                r matches Err(TranslationError::MissingApiKey)
            } else {
                r == Ok::<String, TranslationError>(key)
            },
            None => r matches Err(TranslationError::MissingApiKey),
        },
{
    match value {
        Some(key) => {
            if is_blank(key.as_str()) {
                Err(TranslationError::MissingApiKey)
            } else {
                Ok(key)
            }
        },
        None => Err(TranslationError::MissingApiKey),
    }
}

/// The body of a translation request.
#[derive(Debug)]
pub struct TranslateRequest {
    pub q: String,
    pub target: &'static str,
    pub format: &'static str,
}

/// Reading: translate into Simplified Chinese, as plain text.
pub fn read_request(text: &str) -> (r: TranslateRequest)
    ensures
        r.q@ == text@,
        r.target@ == "zh-CN"@,
        r.format@ == "text"@,
{
    TranslateRequest { q: String::from_str(text), target: "zh-CN", format: "text" }
}

/// Replying: translate the reply into English, as plain text.
pub fn reply_request(text: &str) -> (r: TranslateRequest)
    ensures
        r.q@ == text@,
        r.target@ == "en"@,
        r.format@ == "text"@,
{
    TranslateRequest { q: String::from_str(text), target: "en", format: "text" }
}

#[derive(Debug)]
pub struct TranslatedItem {
    pub translated_text: String,
}

#[derive(Debug)]
pub struct TranslateData {
    pub translations: Vec<TranslatedItem>,
}

/// A successful answer of the provider.
#[derive(Debug)]
pub struct TranslateResponse {
    pub data: TranslateData,
}

#[derive(Debug)]
pub struct GoogleError {
    pub message: String,
}

/// The body of a refused request.
#[derive(Debug)]
pub struct GoogleErrorResponse {
    pub error: GoogleError,
}

/// The translation an answer carries: its first item, entity-decoded, unless
/// there is none or it is blank.
pub open spec fn first_translation(items: Seq<TranslatedItem>) -> Option<Seq<char>> {
    if items.len() == 0 {
        None
    } else {
        let decoded = html_entities_decoded(items[0].translated_text@);
        if is_blank_text(decoded) {
            None
        } else {
            Some(decoded)
        }
    }
}

/// A decoded translation is accepted unless it is blank.
pub fn accept_translation(decoded: String) -> (r: Result<String, TranslationError>)
    ensures
        is_blank_text(decoded@) ==> r matches Err(TranslationError::InvalidResponse),
        !is_blank_text(decoded@) ==> r == Ok::<String, TranslationError>(decoded),
{
    if is_blank(decoded.as_str()) {
        Err(TranslationError::InvalidResponse)
    } else {
        Ok(decoded)
    }
}

/// An answer's translation is its first item's, decoded: items after the first
/// never matter, and an answer without items has none.
pub proof fn lemma_first_item_decides(a: Seq<TranslatedItem>, b: Seq<TranslatedItem>)
    ensures
        a.len() == 0 ==> first_translation(a) is None,
        a.len() > 0 ==> first_translation(a) == (if is_blank_text(html_entities_decoded(a[0].translated_text@)) {
            None::<Seq<char>>
        } else {
            Some(html_entities_decoded(a[0].translated_text@))
        }),
        a.len() > 0 && b.len() > 0 && a[0].translated_text@ == b[0].translated_text@ ==> first_translation(a)
            == first_translation(b),
{
}

/// The translated text carried by a successful answer; `None` stands for a body that
/// could not be parsed.
pub fn translation_from_response(parsed: Option<TranslateResponse>) -> (r: Result<String, TranslationError>)
    ensures
        match parsed {
            Some(response) => match first_translation(response.data.translations@) {
                Some(t) => r matches Ok(s) && s@ == t,
                None => r matches Err(TranslationError::InvalidResponse),
            },
            None => r matches Err(TranslationError::InvalidResponse),
        },
{
    match parsed {
        Some(response) => {
            let items = &response.data.translations;
            if items.len() == 0 {
                Err(TranslationError::InvalidResponse)
            } else {
                let decoded = decode_html_entities(items[0].translated_text.as_str());
                accept_translation(decoded)
            }
        },
        None => Err(TranslationError::InvalidResponse),
    }
}

/// The error for a refused request: the provider's message when its body could
/// be parsed, an empty one otherwise.
pub fn refusal_error(parsed: Option<GoogleErrorResponse>) -> (r: TranslationError)
    ensures
        match parsed {
            Some(body) => r == TranslationError::Api(body.error.message),
            None => r matches TranslationError::Api(m) && m@.len() == 0,
        },
{
    match parsed {
        Some(body) => TranslationError::Api(body.error.message),
        None => TranslationError::Api(String::new()),
    }
}

/// The outcome of a request from the answer's status: a refused request gives
/// the provider's error (from `error_body`, parsed only then), an accepted one
/// gives the translation in `body` (parsed only then).
pub fn interpret_answer(
    status_ok: bool,
    error_body: Option<GoogleErrorResponse>,
    body: Option<TranslateResponse>,
) -> (r: Result<String, TranslationError>)
    ensures
        !status_ok ==> match error_body {
            Some(b) => r == Err::<String, TranslationError>(TranslationError::Api(b.error.message)),
            None => r matches Err(TranslationError::Api(m)) && m@.len() == 0,
        },
        status_ok ==> match body {
            Some(response) => match first_translation(response.data.translations@) {
                Some(t) => r matches Ok(s) && s@ == t,
                None => r matches Err(TranslationError::InvalidResponse),
            },
            None => r matches Err(TranslationError::InvalidResponse),
        },
{
    if status_ok {
        translation_from_response(body)
    } else {
        Err(refusal_error(error_body))
    }
}

} // verus!
