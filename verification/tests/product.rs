use gemm_adapter::blas::{BlasGemm, Layout, Transpose};
use gemm_adapter::scale::Scale;
use gemm_adapter::shape::Shape;
use gemm_adapter::strided::StridedGemm;
use gemm_adapter::{matmul_cblas, matmul_matrixmultiply, matmul_matrixmultiply_fixed};

fn factor(scale: Scale) -> f64 {
    match scale {
        Scale::Zero => 0.0,
        Scale::One => 1.0,
    }
}

fn at(row: usize, col: usize, row_stride: isize, col_stride: isize) -> usize {
    (row as isize * row_stride + col as isize * col_stride) as usize
}

/// Carries out a strided call by plain accumulation.
fn run_strided(call: &StridedGemm, out: &mut [f64], inp: &[f64], weight: &[f64]) {
    for i in 0..call.m {
        for j in 0..call.n {
            let mut sum = 0.0;
            for l in 0..call.k {
                sum += inp[at(i, l, call.rsa, call.csa)] * weight[at(l, j, call.rsb, call.csb)];
            }
            let slot = at(i, j, call.rsc, call.csc);
            out[slot] = match call.beta {
                Scale::Zero => factor(call.alpha) * sum,
                Scale::One => factor(call.alpha) * sum + out[slot],
            };
        }
    }
}

fn blas_at(layout: Layout, trans: Transpose, ld: i32, row: usize, col: usize) -> usize {
    let (r, c) = match trans {
        Transpose::NoTrans => (row, col),
        Transpose::Ordinary | Transpose::Conjugate => (col, row),
    };
    match layout {
        Layout::RowMajor => r * ld as usize + c,
        Layout::ColumnMajor => c * ld as usize + r,
    }
}

/// The least leading dimension the convention takes for an operand.
fn least_leading(layout: Layout, trans: Transpose, rows: i32, cols: i32) -> i32 {
    let (r, c) = match trans {
        Transpose::NoTrans => (rows, cols),
        Transpose::Ordinary | Transpose::Conjugate => (cols, rows),
    };
    match layout {
        Layout::RowMajor => c.max(1),
        Layout::ColumnMajor => r.max(1),
    }
}

/// Whether a routine of the BLAS convention takes the call; it computes
/// nothing for any other.
fn accepted(call: &BlasGemm) -> bool {
    call.m >= 0
        && call.n >= 0
        && call.k >= 0
        && call.lda >= least_leading(call.layout, call.transa, call.m, call.k)
        && call.ldb >= least_leading(call.layout, call.transb, call.k, call.n)
        && call.ldc >= least_leading(call.layout, Transpose::NoTrans, call.m, call.n)
}

/// Carries out a call in the BLAS convention by plain accumulation, and
/// leaves the output alone where the convention does not take the call.
fn run_blas(call: &BlasGemm, out: &mut [f64], inp: &[f64], weight: &[f64]) {
    if !accepted(call) {
        return;
    }
    assert_eq!(out.len(), call.c_len);
    assert_eq!(inp.len(), call.a_len);
    assert_eq!(weight.len(), call.b_len);
    for i in 0..call.m as usize {
        for j in 0..call.n as usize {
            let mut sum = 0.0;
            for l in 0..call.k as usize {
                sum += inp[blas_at(call.layout, call.transa, call.lda, i, l)]
                    * weight[blas_at(call.layout, call.transb, call.ldb, l, j)];
            }
            let slot = blas_at(call.layout, Transpose::NoTrans, call.ldc, i, j);
            out[slot] = match call.beta {
                Scale::Zero => factor(call.alpha) * sum,
                Scale::One => factor(call.alpha) * sum + out[slot],
            };
        }
    }
}

/// The product computed from the shape alone, without any plan.
fn reference(b: usize, t: usize, c: usize, oc: usize, inp: &[f64], weight: &[f64]) -> Vec<f64> {
    let mut out = vec![0.0; b * t * oc];
    for row in 0..b * t {
        for o in 0..oc {
            for i in 0..c {
                out[row * oc + o] += inp[row * c + i] * weight[i * oc + o];
            }
        }
    }
    out
}

fn ramp(len: usize, start: f64, step: f64) -> Vec<f64> {
    let mut values = Vec::new();
    for i in 0..len {
        values.push(start + step * (i % 17) as f64 - 0.25 * (i % 5) as f64);
    }
    values
}

fn close(left: &[f64], right: &[f64]) -> bool {
    let mut scale: f64 = 1.0;
    for x in right {
        scale = scale.max(x.abs());
    }
    left.len() == right.len()
        && left.iter().zip(right.iter()).all(|(x, y)| (x - y).abs() <= 1e-12 * scale)
}

#[test]
fn two_rows_of_three_features_onto_two_outputs() {
    let inp = [1.0, 2.0, 3.0, 4.0, 5.0, 6.0];
    let weight = [1.0, 0.0, 0.0, 1.0, 1.0, 1.0];
    let call = matmul_matrixmultiply(1, 2, 3, 2).call().unwrap();
    let mut out = [f64::NAN; 4];
    run_strided(&call, &mut out, &inp, &weight);
    assert_eq!(out, [4.0, 5.0, 10.0, 11.0]);

    let call = matmul_cblas(1, 2, 3, 2).call().unwrap();
    let mut out = [f64::NAN; 4];
    run_blas(&call, &mut out, &inp, &weight);
    assert_eq!(out, [4.0, 5.0, 10.0, 11.0]);
}

#[test]
fn no_features_gives_zeros() {
    let call = matmul_matrixmultiply(1, 1, 0, 3).call().unwrap();
    let mut out = [7.0, f64::NAN, -1.0];
    run_strided(&call, &mut out, &[], &[]);
    assert_eq!(out, [0.0, 0.0, 0.0]);

    let call = matmul_cblas(1, 1, 0, 3).call().unwrap();
    let mut out = [7.0, f64::NAN, -1.0];
    run_blas(&call, &mut out, &[], &[]);
    assert_eq!(out, [0.0, 0.0, 0.0]);
}

#[test]
fn empty_batch_sequence_or_output_row_has_no_output() {
    for (b, t, c, oc) in [(0, 4, 3, 2), (4, 0, 3, 2), (4, 2, 3, 0), (0, 0, 0, 0)] {
        let shape = Shape::new(b, t, c, oc);
        assert_eq!(shape.checked_output_len(), Some(0));
        let call = matmul_matrixmultiply(b, t, c, oc).call().unwrap();
        let inp = ramp(b * t * c, 1.0, 0.5);
        let weight = ramp(c * oc, -2.0, 0.75);
        let mut out: [f64; 0] = [];
        run_strided(&call, &mut out, &inp, &weight);
        let call = matmul_cblas(b, t, c, oc).call().unwrap();
        assert_eq!(call.c_len, 0);
        assert!(accepted(&call));
        run_blas(&call, &mut out, &inp, &weight);
    }
}

#[test]
fn tuned_calls_are_accepted_by_the_convention() {
    for (b, t, c, oc) in [(1, 1, 0, 3), (2, 2, 3, 0), (0, 0, 0, 0), (1, 2, 3, 2), (4, 64, 768, 3072)] {
        let call = matmul_cblas(b, t, c, oc).call().unwrap();
        assert!(accepted(&call));
    }
    let rejected = BlasGemm { lda: 0, ..matmul_cblas(1, 1, 0, 3).call().unwrap() };
    assert!(!accepted(&rejected));
    let mut out = [9.0, 9.0, 9.0];
    run_blas(&rejected, &mut out, &[], &[]);
    assert_eq!(out, [9.0, 9.0, 9.0]);
}

#[test]
fn tuned_call_without_features_overwrites_what_was_there() {
    let call = matmul_cblas(1, 1, 0, 3).call().unwrap();
    let mut out = [9.0, 9.0, 9.0];
    run_blas(&call, &mut out, &[], &[]);
    assert_eq!(out, [0.0, 0.0, 0.0]);
    let mut other = [f64::INFINITY, f64::NAN, -3.5];
    run_blas(&call, &mut other, &[], &[]);
    assert_eq!(other, [0.0, 0.0, 0.0]);
}

#[test]
fn every_output_slot_is_written_exactly_once() {
    for (b, t, c, oc) in [(1, 2, 3, 2), (2, 3, 4, 5), (3, 1, 0, 4), (1, 1, 1, 1), (5, 2, 1, 7)] {
        let call = matmul_matrixmultiply(b, t, c, oc).call().unwrap();
        let len = Shape::new(b, t, c, oc).checked_output_len().unwrap();
        let mut writes = vec![0usize; len];
        for i in 0..call.m {
            for j in 0..call.n {
                writes[at(i, j, call.rsc, call.csc)] += 1;
            }
        }
        assert!(writes.iter().all(|&n| n == 1));
    }
}

#[test]
fn operands_are_read_inside_their_buffers() {
    for (b, t, c, oc) in [(1, 2, 3, 2), (2, 3, 4, 5), (5, 2, 1, 7)] {
        let shape = Shape::new(b, t, c, oc);
        let call = matmul_matrixmultiply(b, t, c, oc).call().unwrap();
        let mut reads_a = vec![0usize; shape.checked_input_len().unwrap()];
        let mut reads_b = vec![0usize; shape.checked_weight_len().unwrap()];
        for i in 0..call.m {
            for l in 0..call.k {
                reads_a[at(i, l, call.rsa, call.csa)] += 1;
            }
        }
        for l in 0..call.k {
            for j in 0..call.n {
                reads_b[at(l, j, call.rsb, call.csb)] += 1;
            }
        }
        assert!(reads_a.iter().all(|&n| n == 1));
        assert!(reads_b.iter().all(|&n| n == 1));
    }
}

#[test]
fn planned_product_matches_plain_accumulation() {
    for (b, t, c, oc) in [(1, 1, 1, 1), (2, 3, 4, 5), (3, 2, 7, 1), (1, 5, 1, 6), (4, 4, 4, 4)] {
        let inp = ramp(b * t * c, 1.0, 0.5);
        let weight = ramp(c * oc, -2.0, 0.75);
        let expected = reference(b, t, c, oc, &inp, &weight);
        let call = matmul_matrixmultiply(b, t, c, oc).call().unwrap();
        let mut out = vec![f64::NAN; b * t * oc];
        run_strided(&call, &mut out, &inp, &weight);
        assert!(close(&out, &expected));
    }
}

#[test]
fn both_conventions_give_the_same_product() {
    for (b, t, c, oc) in [(1, 2, 3, 2), (2, 3, 4, 5), (3, 2, 7, 1), (1, 1, 0, 3)] {
        let inp = ramp(b * t * c, 0.5, 1.5);
        let weight = ramp(c * oc, 3.0, -0.5);
        let portable = matmul_matrixmultiply(b, t, c, oc).call().unwrap();
        let tuned = matmul_cblas(b, t, c, oc).call().unwrap();
        assert_eq!((portable.m, portable.k, portable.n), (tuned.m as usize, tuned.k as usize, tuned.n as usize));
        assert_eq!((portable.alpha, portable.beta), (tuned.alpha, tuned.beta));
        let mut left = vec![f64::NAN; b * t * oc];
        let mut right = vec![f64::NAN; b * t * oc];
        run_strided(&portable, &mut left, &inp, &weight);
        run_blas(&tuned, &mut right, &inp, &weight);
        assert!(close(&left, &right));
    }
}

#[test]
fn fixed_shape_product_ignores_the_passed_dimensions() {
    let inp = [1.0, 2.0, 3.0, 4.0, 5.0, 6.0];
    let weight = [1.0, 0.0, 0.0, 1.0, 1.0, 1.0];
    let general = matmul_matrixmultiply(1, 2, 3, 2).call().unwrap();
    let mut expected = [f64::NAN; 4];
    run_strided(&general, &mut expected, &inp, &weight);

    let same = matmul_matrixmultiply_fixed::<1, 2, 3, 2>(1, 2, 3, 2).call().unwrap();
    let mut out = [f64::NAN; 4];
    run_strided(&same, &mut out, &inp, &weight);
    assert_eq!(out, expected);

    let other = matmul_matrixmultiply_fixed::<1, 2, 3, 2>(2, 1, 2, 3).call().unwrap();
    let mut out = [f64::NAN; 4];
    run_strided(&other, &mut out, &inp, &weight);
    assert_eq!(out, [4.0, 5.0, 10.0, 11.0]);
}

#[test]
fn running_a_plan_twice_gives_the_same_output() {
    let inp = ramp(2 * 3 * 4, 1.0, 0.5);
    let weight = ramp(4 * 5, -2.0, 0.75);
    let call = matmul_matrixmultiply(2, 3, 4, 5).call().unwrap();
    let mut out = vec![f64::NAN; 30];
    run_strided(&call, &mut out, &inp, &weight);
    let first = out.clone();
    run_strided(&call, &mut out, &inp, &weight);
    assert_eq!(out, first);
}
