//! The four dimensions of a product and the buffer extents they imply.

use vstd::prelude::*;

verus! {

/// The dimensions of one batched product.
///
/// The input holds `b * t` rows of `c` elements, the weight `c` rows of `oc`
/// elements, and the output `b * t` rows of `oc` elements. All three buffers
/// are flat, row-major and tightly packed.
#[derive(Clone, Copy, Debug, PartialEq, Eq, Structural)]
pub struct Shape {
    /// Number of sequences in the batch.
    pub b: usize,
    /// Number of steps in each sequence.
    pub t: usize,
    /// Width of an input row: the dimension that is summed over.
    pub c: usize,
    /// Width of an output row.
    pub oc: usize,
}

impl Shape {
    /// Number of rows of the input and of the output, `b * t`.
    pub open spec fn rows(self) -> int {
        self.b * self.t
    }

    /// Number of elements of the input buffer, `b * t * c`.
    pub open spec fn input_len(self) -> int {
        self.b * self.t * self.c
    }

    /// Number of elements of the weight buffer, `c * oc`.
    pub open spec fn weight_len(self) -> int {
        self.c * self.oc
    }

    /// Number of elements of the output buffer, `b * t * oc`.
    pub open spec fn output_len(self) -> int {
        self.b * self.t * self.oc
    }

    /// Whether three buffers of the given lengths are exactly the output, the
    /// input and the weight of this shape.
    pub open spec fn sized(self, output_len: int, input_len: int, weight_len: int) -> bool {
        &&& output_len == self.output_len()
        &&& input_len == self.input_len()
        &&& weight_len == self.weight_len()
    }

    /// Whether `(row, col)` names an element of the input.
    pub open spec fn in_input(self, row: int, col: int) -> bool {
        0 <= row < self.rows() && 0 <= col < self.c
    }

    /// Whether `(row, col)` names an element of the weight.
    pub open spec fn in_weight(self, row: int, col: int) -> bool {
        0 <= row < self.c && 0 <= col < self.oc
    }

    /// Whether `(row, col)` names an element of the output.
    pub open spec fn in_output(self, row: int, col: int) -> bool {
        0 <= row < self.rows() && 0 <= col < self.oc
    }

    pub fn new(b: usize, t: usize, c: usize, oc: usize) -> (shape: Shape)
        ensures
            shape == (Shape { b, t, c, oc }),
    {
        Shape { b, t, c, oc }
    }

    /// The row count `b * t`, unless it exceeds `usize`.
    pub fn checked_rows(&self) -> (rows: Option<usize>)
        ensures
            rows == (if self.rows() <= usize::MAX {
                Some(self.rows() as usize)
            } else {
                None
            }),
    {
        self.b.checked_mul(self.t)
    }

    /// The input extent `b * t * c`, unless it exceeds `usize`.
    pub fn checked_input_len(&self) -> (len: Option<usize>)
        ensures
            len == (if self.input_len() <= usize::MAX {
                Some(self.input_len() as usize)
            } else {
                None
            }),
    {
        checked_extent(self.b, self.t, self.c)
    }

    /// The weight extent `c * oc`, unless it exceeds `usize`.
    pub fn checked_weight_len(&self) -> (len: Option<usize>)
        ensures
            len == (if self.weight_len() <= usize::MAX {
                Some(self.weight_len() as usize)
            } else {
                None
            }),
    {
        self.c.checked_mul(self.oc)
    }

    /// The output extent `b * t * oc`, unless it exceeds `usize`.
    pub fn checked_output_len(&self) -> (len: Option<usize>)
        ensures
            len == (if self.output_len() <= usize::MAX {
                Some(self.output_len() as usize)
            } else {
                None
            }),
    {
        checked_extent(self.b, self.t, self.oc)
    }

    /// Tells whether buffers of the given lengths are exactly those of this
    /// shape. A shape whose extents exceed `usize` has no such buffers.
    pub fn conforms(&self, output_len: usize, input_len: usize, weight_len: usize) -> (ok: bool)
        ensures
            ok == self.sized(output_len as int, input_len as int, weight_len as int),
    {
        match (self.checked_output_len(), self.checked_input_len(), self.checked_weight_len()) {
            (Some(o), Some(i), Some(w)) => o == output_len && i == input_len && w == weight_len,
            _ => false,
        }
    }
}

/// A product of naturals that has a positive factor left to multiply in is
/// at least as large with it as without.
proof fn lemma_grows(xy: int, z: int)
    by (nonlinear_arith)
    requires
        0 <= xy,
        1 <= z,
    ensures
        xy <= xy * z,
{
}

/// A product with a zero factor is zero.
proof fn lemma_vanishes(x: int, y: int, z: int)
    by (nonlinear_arith)
    requires
        x == 0 || y == 0 || z == 0,
    ensures
        x * y * z == 0,
{
}

/// The product of three extents, unless it exceeds `usize`. A zero factor
/// gives zero even where the product of the other two would not fit.
fn checked_extent(x: usize, y: usize, z: usize) -> (len: Option<usize>)
    ensures
        len == (if x * y * z <= usize::MAX {
            Some((x * y * z) as usize)
        } else {
            None
        }),
{
    if x == 0 || y == 0 || z == 0 {
        proof {
            lemma_vanishes(x as int, y as int, z as int);
        }
        return Some(0);
    }
    match x.checked_mul(y) {
        Some(xy) => xy.checked_mul(z),
        None => {
            proof {
                lemma_grows(x * y, z as int);
            }
            None
        },
    }
}

} // verus!
