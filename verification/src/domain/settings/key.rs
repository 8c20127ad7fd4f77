//! Setting keys; the desktop shell reads the same keys.

use vstd::prelude::*;

verus! {

/// Whether summoning the capture window pulls in the selected text of the
/// application that was in front.
pub const AUTO_PULL_FOREGROUND_TEXT: &'static str = "minos.auto_pull_foreground_text";

} // verus!
