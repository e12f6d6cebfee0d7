//! Verified core of a desktop capture-and-translate assistant: the clipboard
//! capture protocol, the translation result model, window placement and the
//! hotkey workflow that ties them together.

pub mod capture;
pub mod floating_window;
pub mod injection;
pub mod text;
pub mod translation;
pub mod workflow;
