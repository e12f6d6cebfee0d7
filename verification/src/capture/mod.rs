pub mod clipboard;
pub mod error;
pub mod keys;
pub mod result;
pub mod session;
pub mod unsupported;

pub use error::CaptureError;
pub use result::CaptureResult;
