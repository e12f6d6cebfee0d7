//! Typing a reply where the platform offers no way to do it.

use vstd::prelude::*;

verus! {

/// There is no target window to remember.
pub fn foreground_target() {
}

/// Nothing can be typed: the reply is never injected.
pub fn type_text(_target: (), _text: &str) -> (r: bool)
    ensures
        !r,
{
    false
}

} // verus!
