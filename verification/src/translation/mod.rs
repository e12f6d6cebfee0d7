pub mod error;
pub mod google;
pub mod provider;
pub mod result;

pub use error::TranslationError;
pub use provider::TranslationProvider;
pub use result::{TranslationResult, TranslationStarted};
