//! Sources of randomness for the noise voices.

use vstd::prelude::*;

verus! {

/// The source that disables randomness: every draw is the same.
#[derive(Default, Debug, Clone, Copy, PartialEq, Eq)]
pub struct NoRandom {}

} // verus!
