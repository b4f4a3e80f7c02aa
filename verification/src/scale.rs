//! The two scaling factors a pure product needs.

use vstd::prelude::*;

verus! {

/// A scaling factor of a multiply call. A plain product scales the operands
/// by one and the previous contents of the destination by zero, so no other
/// factor is ever planned.
#[derive(Clone, Copy, Debug, PartialEq, Eq, Structural)]
pub enum Scale {
    /// The factor 0: what it scales is dropped and need not be initialised.
    Zero,
    /// The factor 1: what it scales is taken as it is.
    One,
}

impl Scale {
    /// The factor as an integer.
    pub open spec fn value(self) -> int {
        match self {
            Scale::Zero => 0,
            Scale::One => 1,
        }
    }
}

} // verus!
