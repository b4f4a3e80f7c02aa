//! The call handed to a multiply routine that addresses its operands by a
//! base address and a pair of strides each.

use vstd::prelude::*;
use crate::plan::Plan;
use crate::scale::Scale;
use crate::shape::Shape;

verus! {

/// The arguments of `C <- alpha A B + beta C` for a routine that takes, for
/// each matrix, a row stride and a column stride counted in elements.
///
/// `A` is `m` by `k`, `B` is `k` by `n` and `C` is `m` by `n`. Element
/// `(row, col)` of a matrix lies `row * row_stride + col * col_stride`
/// elements behind its first one.
#[derive(Clone, Copy, Debug, PartialEq, Eq, Structural)]
pub struct StridedGemm {
    pub m: usize,
    pub k: usize,
    pub n: usize,
    pub alpha: Scale,
    pub rsa: isize,
    pub csa: isize,
    pub rsb: isize,
    pub csb: isize,
    pub beta: Scale,
    pub rsc: isize,
    pub csc: isize,
}

impl StridedGemm {
    /// Where element `(i, l)` of `A` lies in the input buffer.
    pub open spec fn a_at(self, i: int, l: int) -> int {
        i * self.rsa + l * self.csa
    }

    /// Where element `(l, j)` of `B` lies in the weight buffer.
    pub open spec fn b_at(self, l: int, j: int) -> int {
        l * self.rsb + j * self.csb
    }

    /// Where element `(i, j)` of `C` lies in the output buffer.
    pub open spec fn c_at(self, i: int, j: int) -> int {
        i * self.rsc + j * self.csc
    }

    /// Whether the call writes the output buffer at `slot`: some element of
    /// its `m` by `n` result lies there.
    pub open spec fn writes(self, slot: int) -> bool {
        exists|i: int, j: int| 0 <= i < self.m && 0 <= j < self.n && #[trigger] self.c_at(i, j) == slot
    }

    /// Whether every argument of the call for `shape` fits its type: the row
    /// count in `usize` and the two row widths in `isize`.
    pub open spec fn expressible(shape: Shape) -> bool {
        &&& shape.rows() <= usize::MAX
        &&& shape.c <= isize::MAX
        &&& shape.oc <= isize::MAX
    }

    /// The call for an expressible `shape`: all three matrices row-major and
    /// tightly packed, operands taken as they are, destination overwritten.
    pub open spec fn of(shape: Shape) -> StridedGemm {
        StridedGemm {
            m: shape.rows() as usize,
            k: shape.c,
            n: shape.oc,
            alpha: Scale::One,
            rsa: shape.c as isize,
            csa: 1,
            rsb: shape.oc as isize,
            csb: 1,
            beta: Scale::Zero,
            rsc: shape.oc as isize,
            csc: 1,
        }
    }

    /// What is planned for `shape`: its call wherever the arguments fit
    /// their types; otherwise nothing where the output is empty.
    pub open spec fn planned(shape: Shape) -> Plan<StridedGemm> {
        if Self::expressible(shape) {
            Plan::Call(Self::of(shape))
        } else if shape.output_len() == 0 {
            Plan::Nothing
        } else {
            Plan::Unrepresentable
        }
    }

    /// The call of a build whose shape `B, T, C, OC` is fixed, when it is
    /// invoked with the dimensions `b, t, c, oc`: the call for the fixed shape.
    pub open spec fn planned_fixed<const B: usize, const T: usize, const C: usize, const OC: usize>(
        b: usize,
        t: usize,
        c: usize,
        oc: usize,
    ) -> Plan<StridedGemm> {
        Self::planned(Shape { b: B, t: T, c: C, oc: OC })
    }

    /// Plans the product of `shape`.
    pub fn plan(shape: &Shape) -> (plan: Plan<StridedGemm>)
        ensures
            plan == Self::planned(*shape),
    {
        let widest: usize = isize::MAX as usize;
        let rows = shape.checked_rows();
        if shape.c <= widest && shape.oc <= widest {
            if let Some(m) = rows {
                return Plan::Call(
                    StridedGemm {
                        m,
                        k: shape.c,
                        n: shape.oc,
                        alpha: Scale::One,
                        rsa: shape.c as isize,
                        csa: 1,
                        rsb: shape.oc as isize,
                        csb: 1,
                        beta: Scale::Zero,
                        rsc: shape.oc as isize,
                        csc: 1,
                    },
                );
            }
        }
        match shape.checked_output_len() {
            Some(0) => Plan::Nothing,
            _ => Plan::Unrepresentable,
        }
    }
}

} // verus!
