//! Call planning for a batched dense matrix product.
//!
//! A batch of `b` sequences of `t` feature vectors of width `c` is read as a
//! `(b * t) x c` matrix and multiplied by a `c x oc` weight matrix. This crate
//! decides how that product is handed to a dense multiply routine: the
//! dimensions, the strides or leading dimensions, the scaling factors and the
//! buffer extents. The arithmetic itself is done by the routine that receives
//! the plan.

pub mod blas;
pub mod laws;
pub mod plan;
pub mod scale;
pub mod shape;
pub mod strided;

use vstd::prelude::*;
use crate::blas::BlasGemm;
use crate::plan::Plan;
use crate::shape::Shape;
use crate::strided::StridedGemm;

verus! {

/// Plans the product of a `(b * t) x c` input and a `c x oc` weight for the
/// portable routine, which takes strides. There is a call unless `b * t`
/// exceeds `usize` or a row width exceeds `isize`; without one, an empty
/// output leaves nothing to do.
pub fn matmul_matrixmultiply(b: usize, t: usize, c: usize, oc: usize) -> (plan: Plan<StridedGemm>)
    ensures
        plan == StridedGemm::planned(Shape { b, t, c, oc }),
{
    StridedGemm::plan(&Shape::new(b, t, c, oc))
}

/// Plans the product of a `(b * t) x c` input and a `c x oc` weight for the
/// tuned routine, which takes leading dimensions. There is a call unless a
/// dimension exceeds `i32` or a buffer extent exceeds `usize`; without one,
/// an empty output leaves nothing to do.
pub fn matmul_cblas(b: usize, t: usize, c: usize, oc: usize) -> (plan: Plan<BlasGemm>)
    ensures
        plan == BlasGemm::planned(Shape { b, t, c, oc }),
{
    BlasGemm::plan(&Shape::new(b, t, c, oc))
}

/// Plans the product of the shape `B, T, C, OC` that is fixed at build time,
/// for the portable routine. The four arguments are accepted and ignored: the
/// buffers of the caller have to match the fixed shape whatever is passed.
pub fn matmul_matrixmultiply_fixed<const B: usize, const T: usize, const C: usize, const OC: usize>(
    b: usize,
    t: usize,
    c: usize,
    oc: usize,
) -> (plan: Plan<StridedGemm>)
    ensures
        plan == StridedGemm::planned_fixed::<B, T, C, OC>(b, t, c, oc),
{
    matmul_matrixmultiply(B, T, C, OC)
}

/// Plans the product of the shape `B, T, C, OC` that is fixed at build time,
/// for the tuned routine. The four arguments are accepted and ignored: the
/// buffers of the caller have to match the fixed shape whatever is passed.
pub fn matmul_cblas_fixed<const B: usize, const T: usize, const C: usize, const OC: usize>(
    b: usize,
    t: usize,
    c: usize,
    oc: usize,
) -> (plan: Plan<BlasGemm>)
    ensures
        plan == BlasGemm::planned_fixed::<B, T, C, OC>(b, t, c, oc),
{
    matmul_cblas(B, T, C, OC)
}

} // verus!
