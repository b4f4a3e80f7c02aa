//! What is to be done for a shape: a call, nothing, or nothing that the
//! routine can be asked for.

use vstd::prelude::*;

verus! {

/// The outcome of planning a product for one routine.
#[derive(Debug, PartialEq, Eq)]
pub enum Plan<C> {
    /// The routine is to be given this call.
    Call(C),
    /// The output has no element and the routine has no call for the shape:
    /// nothing is to be written and the routine is not invoked.
    Nothing,
    /// The output has elements and the argument types of the routine cannot
    /// express the product.
    Unrepresentable,
}

impl<C> Plan<C> {
    /// The call, where one was planned.
    pub fn call(self) -> (call: Option<C>)
        ensures
            call == (match self {
                Plan::Call(c) => Some(c),
                _ => None,
            }),
    {
        match self {
            Plan::Call(c) => Some(c),
            _ => None,
        }
    }
}

} // verus!
