//! What holds of every planned call: which buffer elements it names, how the
//! two calling conventions relate, and what becomes of empty dimensions.

use vstd::prelude::*;
use crate::blas::BlasGemm;
use crate::plan::Plan;
use crate::shape::Shape;
use crate::strided::StridedGemm;

verus! {

/// An element of a `height` by `width` row-major grid lies inside the grid's
/// buffer.
proof fn lemma_cell_in_bounds(row: int, col: int, height: int, width: int)
    by (nonlinear_arith)
    requires
        0 <= row < height,
        0 <= col < width,
    ensures
        0 <= row * width + col * 1 < height * width,
{
}

/// Two elements of a row-major grid that share a buffer position are the
/// same element.
proof fn lemma_cell_unique(r1: int, c1: int, r2: int, c2: int, width: int)
    by (nonlinear_arith)
    requires
        0 <= c1 < width,
        0 <= c2 < width,
        r1 * width + c1 * 1 == r2 * width + c2 * 1,
    ensures
        r1 == r2,
        c1 == c2,
{
}

/// Every position of a row-major grid's buffer holds the element whose row
/// and column are the quotient and the remainder of the position by the
/// width.
proof fn lemma_cell_reached(slot: int, height: int, width: int)
    by (nonlinear_arith)
    requires
        0 <= height,
        0 <= width,
        0 <= slot < height * width,
    ensures
        0 < width,
        0 <= slot / width < height,
        0 <= slot % width < width,
        (slot / width) * width + (slot % width) * 1 == slot,
{
}

/// The three extents of a shape are products of a row count and a width.
proof fn lemma_extents(shape: Shape)
    ensures
        shape.input_len() == shape.rows() * shape.c,
        shape.output_len() == shape.rows() * shape.oc,
        0 <= shape.rows(),
{
    assert(0 <= shape.b * shape.t) by (nonlinear_arith);
}

/// A planned call reads and writes only inside buffers of the shape's
/// extents: every element of the input, of the weight and of the output lies
/// at a position below the extent of its buffer.
pub proof fn lemma_call_stays_in_buffers(shape: Shape)
    requires
        StridedGemm::expressible(shape),
    ensures
        forall|i: int, l: int|
            shape.in_input(i, l) ==> 0 <= #[trigger] StridedGemm::of(shape).a_at(i, l)
                < shape.input_len(),
        forall|l: int, j: int|
            shape.in_weight(l, j) ==> 0 <= #[trigger] StridedGemm::of(shape).b_at(l, j)
                < shape.weight_len(),
        forall|i: int, j: int|
            shape.in_output(i, j) ==> 0 <= #[trigger] StridedGemm::of(shape).c_at(i, j)
                < shape.output_len(),
{
    let call = StridedGemm::of(shape);
    lemma_extents(shape);
    assert forall|i: int, l: int| shape.in_input(i, l) implies 0 <= #[trigger] call.a_at(i, l)
        < shape.input_len() by {
        lemma_cell_in_bounds(i, l, shape.rows(), shape.c as int);
    }
    assert forall|l: int, j: int| shape.in_weight(l, j) implies 0 <= #[trigger] call.b_at(l, j)
        < shape.weight_len() by {
        lemma_cell_in_bounds(l, j, shape.c as int, shape.oc as int);
    }
    assert forall|i: int, j: int| shape.in_output(i, j) implies 0 <= #[trigger] call.c_at(i, j)
        < shape.output_len() by {
        lemma_cell_in_bounds(i, j, shape.rows(), shape.oc as int);
    }
}

/// A planned call writes every position of the output buffer, and each for
/// exactly one element of the result: no two elements share a position, and
/// the positions written are exactly those below the output's extent.
pub proof fn lemma_every_output_slot_written_once(shape: Shape)
    requires
        StridedGemm::expressible(shape),
    ensures
        forall|i1: int, j1: int, i2: int, j2: int|
            {
                &&& shape.in_output(i1, j1)
                &&& shape.in_output(i2, j2)
                &&& #[trigger] StridedGemm::of(shape).c_at(i1, j1)
                    == #[trigger] StridedGemm::of(shape).c_at(i2, j2)
            } ==> i1 == i2 && j1 == j2,
        forall|slot: int|
            0 <= slot < shape.output_len() <==> #[trigger] StridedGemm::of(shape).writes(slot),
{
    let call = StridedGemm::of(shape);
    lemma_extents(shape);
    assert forall|i1: int, j1: int, i2: int, j2: int|
        {
            &&& shape.in_output(i1, j1)
            &&& shape.in_output(i2, j2)
            &&& #[trigger] call.c_at(i1, j1) == #[trigger] call.c_at(i2, j2)
        } implies i1 == i2 && j1 == j2 by {
        lemma_cell_unique(i1, j1, i2, j2, shape.oc as int);
    }
    assert forall|slot: int| 0 <= slot < shape.output_len() implies #[trigger] call.writes(slot) by {
        let width = shape.oc as int;
        lemma_cell_reached(slot, shape.rows(), width);
        assert(call.c_at(slot / width, slot % width) == slot);
    }
    assert forall|slot: int| #[trigger] call.writes(slot) implies 0 <= slot
        < shape.output_len() by {
        let (i, j) = choose|i: int, j: int|
            0 <= i < call.m && 0 <= j < call.n && #[trigger] call.c_at(i, j) == slot;
        lemma_cell_in_bounds(i, j, shape.rows(), shape.oc as int);
    }
}

/// The two calling conventions describe one product. Where the tuned routine
/// has a call for a shape, the portable routine has one too; both have the
/// same dimensions and scaling factors, and both find every element of the
/// input, of the weight and of the output at the same position.
pub proof fn lemma_backends_agree(shape: Shape)
    requires
        BlasGemm::expressible(shape),
    ensures
        StridedGemm::expressible(shape),
        BlasGemm::of(shape).m == StridedGemm::of(shape).m,
        BlasGemm::of(shape).k == StridedGemm::of(shape).k,
        BlasGemm::of(shape).n == StridedGemm::of(shape).n,
        BlasGemm::of(shape).alpha == StridedGemm::of(shape).alpha,
        BlasGemm::of(shape).beta == StridedGemm::of(shape).beta,
        forall|i: int, l: int|
            shape.in_input(i, l) ==> #[trigger] BlasGemm::of(shape).a_at(i, l) == StridedGemm::of(
                shape,
            ).a_at(i, l),
        forall|l: int, j: int|
            shape.in_weight(l, j) ==> #[trigger] BlasGemm::of(shape).b_at(l, j) == StridedGemm::of(
                shape,
            ).b_at(l, j),
        forall|i: int, j: int|
            shape.in_output(i, j) ==> #[trigger] BlasGemm::of(shape).c_at(i, j) == StridedGemm::of(
                shape,
            ).c_at(i, j),
{
    let tuned = BlasGemm::of(shape);
    let portable = StridedGemm::of(shape);
    assert forall|i: int, l: int| shape.in_input(i, l) implies #[trigger] tuned.a_at(i, l)
        == portable.a_at(i, l) by {
        assert(l * 1 == l);
    }
    assert forall|l: int, j: int| shape.in_weight(l, j) implies #[trigger] tuned.b_at(l, j)
        == portable.b_at(l, j) by {
        assert(j * 1 == j);
    }
    assert forall|i: int, j: int| shape.in_output(i, j) implies #[trigger] tuned.c_at(i, j)
        == portable.c_at(i, j) by {
        assert(j * 1 == j);
    }
}

/// The convention accepts every planned tuned call: its dimensions are not
/// negative, and each leading dimension is at least one and at least the
/// width of its matrix, also where that width is zero.
pub proof fn lemma_blas_call_accepted(shape: Shape)
    requires
        BlasGemm::expressible(shape),
    ensures
        BlasGemm::of(shape).accepted(),
        0 <= BlasGemm::of(shape).m,
        0 <= BlasGemm::of(shape).n,
        0 <= BlasGemm::of(shape).k,
        BlasGemm::of(shape).lda >= 1 && BlasGemm::of(shape).lda >= BlasGemm::of(shape).k,
        BlasGemm::of(shape).ldb >= 1 && BlasGemm::of(shape).ldb >= BlasGemm::of(shape).n,
        BlasGemm::of(shape).ldc >= 1 && BlasGemm::of(shape).ldc >= BlasGemm::of(shape).n,
{
    lemma_extents(shape);
}

/// A planned tuned call reads and writes only inside the three slices it
/// carries: every element of the input, of the weight and of the output lies
/// at a position below the length of its slice.
pub proof fn lemma_blas_call_stays_in_buffers(shape: Shape)
    requires
        BlasGemm::expressible(shape),
    ensures
        forall|i: int, l: int|
            shape.in_input(i, l) ==> 0 <= #[trigger] BlasGemm::of(shape).a_at(i, l)
                < BlasGemm::of(shape).a_len,
        forall|l: int, j: int|
            shape.in_weight(l, j) ==> 0 <= #[trigger] BlasGemm::of(shape).b_at(l, j)
                < BlasGemm::of(shape).b_len,
        forall|i: int, j: int|
            shape.in_output(i, j) ==> 0 <= #[trigger] BlasGemm::of(shape).c_at(i, j)
                < BlasGemm::of(shape).c_len,
{
    let call = BlasGemm::of(shape);
    lemma_extents(shape);
    lemma_blas_lengths_conform(shape);
    assert forall|i: int, l: int| shape.in_input(i, l) implies 0 <= #[trigger] call.a_at(i, l)
        < call.a_len by {
        lemma_cell_in_bounds(i, l, shape.rows(), shape.c as int);
    }
    assert forall|l: int, j: int| shape.in_weight(l, j) implies 0 <= #[trigger] call.b_at(l, j)
        < call.b_len by {
        lemma_cell_in_bounds(l, j, shape.c as int, shape.oc as int);
    }
    assert forall|i: int, j: int| shape.in_output(i, j) implies 0 <= #[trigger] call.c_at(i, j)
        < call.c_len by {
        lemma_cell_in_bounds(i, j, shape.rows(), shape.oc as int);
    }
}

/// A planned tuned call writes every position of the output slice, and each
/// for exactly one element of the result: no two elements share a position,
/// and the positions written are exactly those below the slice's length.
pub proof fn lemma_blas_every_output_slot_written_once(shape: Shape)
    requires
        BlasGemm::expressible(shape),
    ensures
        forall|i1: int, j1: int, i2: int, j2: int|
            {
                &&& shape.in_output(i1, j1)
                &&& shape.in_output(i2, j2)
                &&& #[trigger] BlasGemm::of(shape).c_at(i1, j1)
                    == #[trigger] BlasGemm::of(shape).c_at(i2, j2)
            } ==> i1 == i2 && j1 == j2,
        forall|slot: int|
            0 <= slot < BlasGemm::of(shape).c_len <==> #[trigger] BlasGemm::of(shape).writes(slot),
{
    let call = BlasGemm::of(shape);
    lemma_extents(shape);
    lemma_blas_lengths_conform(shape);
    assert forall|i1: int, j1: int, i2: int, j2: int|
        {
            &&& shape.in_output(i1, j1)
            &&& shape.in_output(i2, j2)
            &&& #[trigger] call.c_at(i1, j1) == #[trigger] call.c_at(i2, j2)
        } implies i1 == i2 && j1 == j2 by {
        lemma_cell_unique(i1, j1, i2, j2, shape.oc as int);
    }
    assert forall|slot: int| 0 <= slot < call.c_len implies #[trigger] call.writes(slot) by {
        let width = shape.oc as int;
        lemma_cell_reached(slot, shape.rows(), width);
        assert(call.c_at(slot / width, slot % width) == slot);
    }
    assert forall|slot: int| #[trigger] call.writes(slot) implies 0 <= slot < call.c_len by {
        let (i, j) = choose|i: int, j: int|
            0 <= i < call.m && 0 <= j < call.n && #[trigger] call.c_at(i, j) == slot;
        lemma_cell_in_bounds(i, j, shape.rows(), shape.oc as int);
    }
}

/// The tuned call covers its three buffers exactly: the lengths it carries
/// are those that buffers of the shape have.
pub proof fn lemma_blas_lengths_conform(shape: Shape)
    requires
        BlasGemm::expressible(shape),
    ensures
        shape.sized(
            BlasGemm::of(shape).c_len as int,
            BlasGemm::of(shape).a_len as int,
            BlasGemm::of(shape).b_len as int,
        ),
{
    lemma_extents(shape);
    assert(0 <= shape.rows() * shape.c) by (nonlinear_arith)
        requires
            0 <= shape.rows(),
    ;
    assert(0 <= shape.rows() * shape.oc) by (nonlinear_arith)
        requires
            0 <= shape.rows(),
    ;
    assert(0 <= shape.c * shape.oc) by (nonlinear_arith);
}

/// A shape whose output is empty is never beyond a routine: either routine
/// has a call for it or is left alone.
pub proof fn lemma_empty_output_is_planned(shape: Shape)
    requires
        shape.output_len() == 0,
    ensures
        StridedGemm::planned(shape) != Plan::<StridedGemm>::Unrepresentable,
        BlasGemm::planned(shape) != Plan::<BlasGemm>::Unrepresentable,
        StridedGemm::planned(shape) matches Plan::Call(call) ==> forall|slot: int|
            !#[trigger] call.writes(slot),
        BlasGemm::planned(shape) matches Plan::Call(call) ==> forall|slot: int|
            !#[trigger] call.writes(slot),
{
    if StridedGemm::expressible(shape) {
        lemma_every_output_slot_written_once(shape);
    }
    if BlasGemm::expressible(shape) {
        lemma_blas_every_output_slot_written_once(shape);
        lemma_blas_lengths_conform(shape);
    }
}

/// Where the portable routine cannot be asked for a product, no buffers of
/// the shape exist: the output or the input would hold more than
/// `isize::MAX` elements.
pub proof fn lemma_unrepresentable_strided_has_no_buffers(shape: Shape)
    requires
        StridedGemm::planned(shape) == Plan::<StridedGemm>::Unrepresentable,
    ensures
        shape.output_len() > isize::MAX || shape.input_len() > isize::MAX,
{
    lemma_extents(shape);
    let rows = shape.rows();
    let c = shape.c as int;
    let oc = shape.oc as int;
    assert(1 <= rows && 1 <= oc) by (nonlinear_arith)
        requires
            0 <= rows,
            0 <= oc,
            rows * oc != 0,
    ;
    assert(rows * oc >= rows && rows * oc >= oc) by (nonlinear_arith)
        requires
            1 <= rows,
            1 <= oc,
    ;
    assert(rows * c >= c) by (nonlinear_arith)
        requires
            1 <= rows,
            0 <= c,
    ;
}

/// An empty batch, empty sequences or an empty output row leave nothing to
/// write: the output buffer has no element, and neither routine is asked for
/// what it cannot express.
pub proof fn lemma_no_rows_or_columns_no_output(shape: Shape)
    requires
        shape.b == 0 || shape.t == 0 || shape.oc == 0,
    ensures
        shape.output_len() == 0,
        forall|i: int, j: int| !shape.in_output(i, j),
        StridedGemm::planned(shape) != Plan::<StridedGemm>::Unrepresentable,
        BlasGemm::planned(shape) != Plan::<BlasGemm>::Unrepresentable,
{
    assert(shape.b * shape.t * shape.oc == 0) by (nonlinear_arith)
        requires
            shape.b == 0 || shape.t == 0 || shape.oc == 0,
    ;
    assert(shape.oc != 0 ==> shape.b * shape.t == 0) by (nonlinear_arith)
        requires
            shape.b == 0 || shape.t == 0 || shape.oc == 0,
    ;
}

/// With an empty contraction dimension every element of the result is an
/// empty sum: the input and the weight have no element, the call sums over
/// no index, and it scales what the output held before by zero.
pub proof fn lemma_no_features_empty_sums(shape: Shape)
    requires
        StridedGemm::expressible(shape),
        shape.c == 0,
    ensures
        shape.input_len() == 0,
        shape.weight_len() == 0,
        forall|i: int, l: int| !shape.in_input(i, l),
        forall|l: int, j: int| !shape.in_weight(l, j),
        StridedGemm::of(shape).k == 0,
        StridedGemm::of(shape).beta.value() == 0,
{
    assert(shape.b * shape.t * shape.c == 0) by (nonlinear_arith)
        requires
            shape.c == 0,
    ;
    assert(shape.c * shape.oc == 0) by (nonlinear_arith)
        requires
            shape.c == 0,
    ;
}

/// The same holds of the tuned call: with an empty contraction dimension it
/// sums over no index, carries an empty input and an empty weight, scales
/// what the output held before by zero, and is still a call the convention
/// accepts, which writes every position of the output.
pub proof fn lemma_blas_no_features_empty_sums(shape: Shape)
    requires
        BlasGemm::expressible(shape),
        shape.c == 0,
    ensures
        BlasGemm::of(shape).k == 0,
        BlasGemm::of(shape).a_len == 0,
        BlasGemm::of(shape).b_len == 0,
        BlasGemm::of(shape).beta.value() == 0,
        BlasGemm::of(shape).accepted(),
        forall|slot: int|
            0 <= slot < shape.output_len() <==> #[trigger] BlasGemm::of(shape).writes(slot),
{
    lemma_no_features_empty_sums(shape);
    lemma_blas_call_accepted(shape);
    lemma_blas_lengths_conform(shape);
    lemma_blas_every_output_slot_written_once(shape);
}

/// A build with a fixed shape ignores the dimensions it is invoked with:
/// any two invocations plan the same call, for either routine, and invoked
/// with its own shape it plans what the general variant plans for that shape.
pub proof fn lemma_fixed_shape_ignores_arguments<
    const B: usize,
    const T: usize,
    const C: usize,
    const OC: usize,
>(b1: usize, t1: usize, c1: usize, oc1: usize, b2: usize, t2: usize, c2: usize, oc2: usize)
    ensures
        StridedGemm::planned_fixed::<B, T, C, OC>(b1, t1, c1, oc1)
            == StridedGemm::planned_fixed::<B, T, C, OC>(b2, t2, c2, oc2),
        BlasGemm::planned_fixed::<B, T, C, OC>(b1, t1, c1, oc1)
            == BlasGemm::planned_fixed::<B, T, C, OC>(b2, t2, c2, oc2),
        StridedGemm::planned_fixed::<B, T, C, OC>(B, T, C, OC)
            == StridedGemm::planned(Shape { b: B, t: T, c: C, oc: OC }),
        BlasGemm::planned_fixed::<B, T, C, OC>(B, T, C, OC)
            == BlasGemm::planned(Shape { b: B, t: T, c: C, oc: OC }),
{
}

} // verus!
