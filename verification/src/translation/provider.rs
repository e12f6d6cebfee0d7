use vstd::prelude::*;

use super::error::TranslationError;

verus! {

/// A translation service: `translate_read` turns foreign text into the reader's
/// language, `translate_reply` turns the reader's reply into the foreign one.
pub trait TranslationProvider {
    fn name(&self) -> &'static str;

    fn translate_read(&self, text: &str) -> Result<String, TranslationError>;

    fn translate_reply(&self, text: &str) -> Result<String, TranslationError>;
}

} // verus!
