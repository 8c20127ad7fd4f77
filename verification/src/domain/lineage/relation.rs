//! Kinds of link between a source and a target.

use vstd::prelude::*;

verus! {

/// The target was made from the source.
pub const DERIVED_FROM: &'static str = "derived_from";

/// The source (an image) is attached to the target (a memo).
pub const ATTACHMENT_FOR: &'static str = "attachment_for";

} // verus!
