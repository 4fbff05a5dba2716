//! Errors of the library.

use vstd::prelude::*;

verus! {

/// A conversion failed because the input was too close to a degenerate value
/// (such as a vector whose magnitude is nearly zero).
#[derive(Debug, Clone, Copy, PartialEq, Eq, Structural)]
pub struct NearlySingularConversion;

} // verus!
