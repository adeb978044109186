//! Frequency values.

use vstd::prelude::*;

verus! {

/// A frequency in Hertz.
#[derive(Clone, Copy, Debug, PartialEq, Eq, Structural)]
pub struct Hertz(pub u32);

} // verus!
