//! Labels of metadata that the capture side fills in by itself.

use vstd::prelude::*;

verus! {

/// The application that was in front when the memo was captured.
pub const APP: &'static str = "app";

} // verus!
