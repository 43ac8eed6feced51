//! Orientation matrices.

use vstd::prelude::*;
use crate::scalar::{Real, ONE};
use crate::vector::Vector3;

verus! {

/// A 3 by 3 matrix, `elements[row][column]`. A camera's orientation is the
/// matrix whose columns are its right, up and forward axes.
#[derive(Clone, Copy, Debug, PartialEq, Eq)]
pub struct Matrix33 {
    pub elements: [[Real; 3]; 3],
}

impl Matrix33 {
    /// The entry in row `i` and column `j`.
    pub open spec fn at(self, i: int, j: int) -> Real {
        self.elements[i][j]
    }

    /// Whether this matrix is `other` mirrored at its diagonal.
    pub open spec fn is_transpose_of(self, other: Matrix33) -> bool {
        forall|i: int, j: int| 0 <= i < 3 && 0 <= j < 3 ==> #[trigger] self.at(i, j) == other.at(j, i)
    }

    /// The matrix whose columns are `x`, `y` and `z`.
    pub fn from_vecs(x: &Vector3, y: &Vector3, z: &Vector3) -> (m: Matrix33)
        ensures
            m.at(0, 0) == x.x && m.at(1, 0) == x.y && m.at(2, 0) == x.z,
            m.at(0, 1) == y.x && m.at(1, 1) == y.y && m.at(2, 1) == y.z,
            m.at(0, 2) == z.x && m.at(1, 2) == z.y && m.at(2, 2) == z.z,
    {
        Matrix33 { elements: [[x.x, y.x, z.x], [x.y, y.y, z.y], [x.z, y.z, z.z]] }
    }

    /// The matrix that leaves every vector as it is: ones on the diagonal and
    /// positive zeros elsewhere.
    pub fn identity() -> (m: Matrix33)
        ensures
            forall|i: int, j: int|
                0 <= i < 3 && 0 <= j < 3 ==> (#[trigger] m.at(i, j)).bits == (if i == j {
                    ONE
                } else {
                    0
                }),
    {
        let o: Real = Real::zero();
        let l: Real = Real::one();
        Matrix33 { elements: [[l, o, o], [o, l, o], [o, o, l]] }
    }

    /// The matrix mirrored at its diagonal.
    pub fn transpose(&self) -> (m: Matrix33)
        ensures
            m.is_transpose_of(*self),
    {
        Matrix33 {
            elements: [
                [self.elements[0][0], self.elements[1][0], self.elements[2][0]],
                [self.elements[0][1], self.elements[1][1], self.elements[2][1]],
                [self.elements[0][2], self.elements[1][2], self.elements[2][2]],
            ],
        }
    }
}

impl Default for Matrix33 {
    /// The matrix of nine positive zeros.
    fn default() -> (m: Matrix33)
        ensures
            forall|i: int, j: int| 0 <= i < 3 && 0 <= j < 3 ==> (#[trigger] m.at(i, j)).bits == 0,
    {
        let o: Real = Real::zero();
        Matrix33 { elements: [[o, o, o], [o, o, o], [o, o, o]] }
    }
}

/// Mirroring a matrix twice gives the matrix back.
pub proof fn lemma_transpose_twice(m: Matrix33, once: Matrix33, twice: Matrix33)
    requires
        once.is_transpose_of(m),
        twice.is_transpose_of(once),
    ensures
        twice == m,
{
    assert forall|i: int| 0 <= i < 3 implies twice.elements[i] == m.elements[i] by {
        assert forall|j: int| 0 <= j < 3 implies twice.elements[i][j] == m.elements[i][j] by {
            assert(twice.at(i, j) == once.at(j, i));
            assert(once.at(j, i) == m.at(i, j));
        }
        assert(twice.elements[i] =~= m.elements[i]);
    }
    assert(twice.elements =~= m.elements);
}

} // verus!
