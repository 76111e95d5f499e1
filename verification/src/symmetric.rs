//! A symmetric matrix stored as a ragged lower-triangular packing: row
//! `i` is expected to hold the `i + 1` entries `(i, 0) ..= (i, i)`.
//!
//! A read above the diagonal reflects to the lower triangle: `(i, j)`
//! with `j > i` is read from row `j`, column `i`. Rows shorter than
//! expected, and coordinates outside the stored rows, degrade to the
//! global default rather than faulting. The column-dimension query reads
//! the last row and is therefore only defined on a non-empty row set.

use vstd::prelude::*;

use crate::matrix::Matrix;
use crate::matrix::MatrixKind;
use crate::matrix::Scalar;
use crate::matrix::DEFAULT_VALUE;

verus! {

pub struct SymmetricMatrix {
    /// The ragged lower-triangular rows; the dimension is their number.
    pub values: Vec<Vec<Scalar>>,
}

impl Matrix for SymmetricMatrix {
    open spec fn inv(&self) -> bool {
        true
    }

    open spec fn nb_cols_defined(&self) -> bool {
        self.values@.len() > 0
    }

    open spec fn spec_get(&self, i: usize, j: usize) -> Scalar {
        if i >= self.values@.len() || j >= self.values@.len() {
            DEFAULT_VALUE
        } else {
            let row = if j <= i {
                i
            } else {
                j
            };
            let col = if j <= i {
                j
            } else {
                i
            };
            if col < self.values@[row as int]@.len() {
                self.values@[row as int]@[col as int]
            } else {
                DEFAULT_VALUE
            }
        }
    }

    open spec fn spec_nb_rows(&self) -> nat {
        self.values@.len()
    }

    open spec fn spec_nb_cols(&self) -> nat {
        self.values@[self.values@.len() - 1]@.len()
    }

    open spec fn spec_diag_default(&self) -> Option<Scalar> {
        None
    }

    open spec fn spec_off_diag_default(&self) -> Option<Scalar> {
        None
    }

    open spec fn spec_kind(&self) -> MatrixKind {
        MatrixKind::Symmetric
    }

    fn get(&self, i: usize, j: usize) -> (r: Scalar) {
        let len = self.values.len();
        if i >= len || j >= len {
            return DEFAULT_VALUE;
        }
        let row = if j <= i {
            i
        } else {
            j
        };
        let col = if j <= i {
            j
        } else {
            i
        };
        if col < self.values[row].len() {
            self.values[row][col]
        } else {
            DEFAULT_VALUE
        }
    }

    fn default(&self) -> (r: Scalar) {
        DEFAULT_VALUE
    }

    fn diag_default(&self) -> (r: Option<Scalar>) {
        None
    }

    fn off_diag_default(&self) -> (r: Option<Scalar>) {
        None
    }

    fn nb_rows(&self) -> (r: usize) {
        self.values.len()
    }

    fn nb_cols(&self) -> (r: usize) {
        self.values[self.values.len() - 1].len()
    }

    fn kind(&self) -> (r: MatrixKind) {
        MatrixKind::Symmetric
    }
}

/// Reflection symmetry: reading `(i, j)` and reading `(j, i)` always
/// give the same value, for every pair of coordinates and every row set,
/// ragged or not.
pub proof fn lemma_symmetric_reflection(m: &SymmetricMatrix, i: usize, j: usize)
    ensures
        m.spec_get(i, j) == m.spec_get(j, i),
{
}

/// Lower-triangle fidelity: where the ragged rows hold the packing they
/// are expected to hold, every in-range read at or below the diagonal
/// returns the stored entry, and every in-range read above it returns
/// the reflected stored entry.
pub proof fn lemma_symmetric_fidelity(m: &SymmetricMatrix, i: usize, j: usize)
    requires
        forall|r: int| 0 <= r < m.values@.len() ==> #[trigger] m.values@[r]@.len() == r + 1,
        i < m.values@.len(),
        j < m.values@.len(),
    ensures
        j <= i ==> m.spec_get(i, j) == m.values@[i as int]@[j as int],
        j > i ==> m.spec_get(i, j) == m.values@[j as int]@[i as int],
{
}

} // verus!
