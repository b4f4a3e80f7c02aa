//! The call handed to a multiply routine with the BLAS calling convention:
//! a storage order, a transposition flag for each operand, and one leading
//! dimension for each matrix.

use vstd::prelude::*;
use crate::plan::Plan;
use crate::scale::Scale;
use crate::shape::Shape;

verus! {

/// The storage order of all three matrices of a call.
#[derive(Clone, Copy, Debug, PartialEq, Eq, Structural)]
pub enum Layout {
    /// The elements of a row are adjacent.
    RowMajor,
    /// The elements of a column are adjacent.
    ColumnMajor,
}

/// Whether an operand is read as stored or transposed.
#[derive(Clone, Copy, Debug, PartialEq, Eq, Structural)]
pub enum Transpose {
    /// The operand is the stored matrix.
    NoTrans,
    /// The operand is the transpose of the stored matrix.
    Ordinary,
    /// The operand is the conjugate transpose of the stored matrix, which
    /// for real elements is its transpose.
    Conjugate,
}

/// Where element `(row, col)` of an operand lies in its buffer, for a stored
/// matrix whose adjacent rows (row-major) or columns (column-major) are `ld`
/// elements apart.
pub open spec fn element_at(layout: Layout, trans: Transpose, ld: int, row: int, col: int) -> int {
    let (r, c) = if trans == Transpose::NoTrans {
        (row, col)
    } else {
        (col, row)
    };
    match layout {
        Layout::RowMajor => r * ld + c,
        Layout::ColumnMajor => c * ld + r,
    }
}

/// The least leading dimension the convention accepts for an operand of
/// `rows` by `cols` elements: the length of a stored row (row-major) or of
/// a stored column (column-major), and never less than one.
pub open spec fn least_leading(layout: Layout, trans: Transpose, rows: int, cols: int) -> int {
    let (r, c) = if trans == Transpose::NoTrans {
        (rows, cols)
    } else {
        (cols, rows)
    };
    let span = match layout {
        Layout::RowMajor => c,
        Layout::ColumnMajor => r,
    };
    if span < 1 {
        1
    } else {
        span
    }
}

/// The arguments of `C <- alpha op(A) op(B) + beta C` in the BLAS calling
/// convention, with the number of elements of each of the three buffers.
///
/// `op(A)` is `m` by `k`, `op(B)` is `k` by `n` and `C` is `m` by `n`.
#[derive(Clone, Copy, Debug, PartialEq, Eq, Structural)]
pub struct BlasGemm {
    pub layout: Layout,
    pub transa: Transpose,
    pub transb: Transpose,
    pub m: i32,
    pub n: i32,
    pub k: i32,
    pub alpha: Scale,
    pub a_len: usize,
    pub lda: i32,
    pub b_len: usize,
    pub ldb: i32,
    pub beta: Scale,
    pub c_len: usize,
    pub ldc: i32,
}

impl BlasGemm {
    /// Where element `(i, l)` of `op(A)` lies in the input buffer.
    pub open spec fn a_at(self, i: int, l: int) -> int {
        element_at(self.layout, self.transa, self.lda as int, i, l)
    }

    /// Where element `(l, j)` of `op(B)` lies in the weight buffer.
    pub open spec fn b_at(self, l: int, j: int) -> int {
        element_at(self.layout, self.transb, self.ldb as int, l, j)
    }

    /// Where element `(i, j)` of `C` lies in the output buffer.
    pub open spec fn c_at(self, i: int, j: int) -> int {
        element_at(self.layout, Transpose::NoTrans, self.ldc as int, i, j)
    }

    /// Whether the call writes the output buffer at `slot`: some element of
    /// its `m` by `n` result lies there.
    pub open spec fn writes(self, slot: int) -> bool {
        exists|i: int, j: int| 0 <= i < self.m && 0 <= j < self.n && #[trigger] self.c_at(i, j) == slot
    }

    /// Whether the convention accepts the call: no dimension is negative and
    /// no leading dimension is below the least one for its matrix. A routine
    /// reports any other call as illegal and computes nothing.
    pub open spec fn accepted(self) -> bool {
        &&& 0 <= self.m
        &&& 0 <= self.n
        &&& 0 <= self.k
        &&& self.lda >= least_leading(self.layout, self.transa, self.m as int, self.k as int)
        &&& self.ldb >= least_leading(self.layout, self.transb, self.k as int, self.n as int)
        &&& self.ldc >= least_leading(self.layout, Transpose::NoTrans, self.m as int, self.n as int)
    }

    /// The leading dimension of a tightly packed row-major matrix with rows
    /// of `width` elements: `width`, or one for a matrix without columns.
    pub open spec fn packed_leading(width: usize) -> i32 {
        if width == 0 {
            1
        } else {
            width as i32
        }
    }

    /// Whether every argument of the call for `shape` fits its type: the
    /// three dimensions in `i32` and the three extents in `usize`.
    pub open spec fn expressible(shape: Shape) -> bool {
        &&& shape.rows() <= i32::MAX
        &&& shape.c <= i32::MAX
        &&& shape.oc <= i32::MAX
        &&& shape.output_len() <= usize::MAX
        &&& shape.input_len() <= usize::MAX
        &&& shape.weight_len() <= usize::MAX
    }

    /// The call for an expressible `shape`: row-major storage, no operand
    /// transposed, every leading dimension the width of its matrix (one
    /// where the width is zero), operands taken as they are, destination
    /// overwritten.
    pub open spec fn of(shape: Shape) -> BlasGemm {
        BlasGemm {
            layout: Layout::RowMajor,
            transa: Transpose::NoTrans,
            transb: Transpose::NoTrans,
            m: shape.rows() as i32,
            n: shape.oc as i32,
            k: shape.c as i32,
            alpha: Scale::One,
            a_len: shape.input_len() as usize,
            lda: Self::packed_leading(shape.c),
            b_len: shape.weight_len() as usize,
            ldb: Self::packed_leading(shape.oc),
            beta: Scale::Zero,
            c_len: shape.output_len() as usize,
            ldc: Self::packed_leading(shape.oc),
        }
    }

    /// What is planned for `shape`: its call wherever the arguments fit
    /// their types; otherwise nothing where the output is empty.
    pub open spec fn planned(shape: Shape) -> Plan<BlasGemm> {
        if Self::expressible(shape) {
            Plan::Call(Self::of(shape))
        } else if shape.output_len() == 0 {
            Plan::Nothing
        } else {
            Plan::Unrepresentable
        }
    }

    /// The call of a build whose shape `B, T, C, OC` is fixed, when it is
    /// invoked with the dimensions `b, t, c, oc`: the call for the fixed shape.
    pub open spec fn planned_fixed<const B: usize, const T: usize, const C: usize, const OC: usize>(
        b: usize,
        t: usize,
        c: usize,
        oc: usize,
    ) -> Plan<BlasGemm> {
        Self::planned(Shape { b: B, t: T, c: C, oc: OC })
    }

    /// Plans the product of `shape`.
    pub fn plan(shape: &Shape) -> (plan: Plan<BlasGemm>)
        ensures
            plan == Self::planned(*shape),
    {
        let widest: usize = 0x7fff_ffff;
        let rows = shape.checked_rows();
        let c_len = shape.checked_output_len();
        let a_len = shape.checked_input_len();
        let b_len = shape.checked_weight_len();
        if shape.c <= widest && shape.oc <= widest {
            if let (Some(m), Some(c_len), Some(a_len), Some(b_len)) = (rows, c_len, a_len, b_len) {
                if m <= widest {
                    return Plan::Call(
                        BlasGemm {
                            layout: Layout::RowMajor,
                            transa: Transpose::NoTrans,
                            transb: Transpose::NoTrans,
                            m: m as i32,
                            n: shape.oc as i32,
                            k: shape.c as i32,
                            alpha: Scale::One,
                            a_len,
                            lda: leading(shape.c),
                            b_len,
                            ldb: leading(shape.oc),
                            beta: Scale::Zero,
                            c_len,
                            ldc: leading(shape.oc),
                        },
                    );
                }
            }
        }
        match c_len {
            Some(0) => Plan::Nothing,
            _ => Plan::Unrepresentable,
        }
    }
}

/// The leading dimension of a packed row-major matrix of the given width.
fn leading(width: usize) -> (ld: i32)
    requires
        width <= i32::MAX,
    ensures
        ld == BlasGemm::packed_leading(width),
{
    if width == 0 {
        1
    } else {
        width as i32
    }
}

} // verus!
