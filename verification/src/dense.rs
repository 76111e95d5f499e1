//! A matrix that stores every entry in row-major order.
//!
//! Policy: one uniform bounds rule for every read — a coordinate inside
//! the stored rows returns the stored entry, any other coordinate yields
//! the global default. The column-dimension query reads the first row
//! and is therefore only defined on a non-empty row set.

use vstd::prelude::*;

use crate::matrix::Matrix;
use crate::matrix::MatrixKind;
use crate::matrix::Scalar;
use crate::matrix::DEFAULT_VALUE;

verus! {

pub struct DenseMatrix {
    /// The rows, expected rectangular (all rows of equal length); the
    /// expectation is not enforced, and a read past a short row simply
    /// yields the global default.
    pub values: Vec<Vec<Scalar>>,
}

impl DenseMatrix {
    /// All rows have the length of the first row.
    pub open spec fn rectangular(&self) -> bool {
        forall|r: int|
            0 <= r < self.values@.len() ==> #[trigger] self.values@[r]@.len()
                == self.values@[0]@.len()
    }
}

impl Matrix for DenseMatrix {
    open spec fn inv(&self) -> bool {
        true
    }

    open spec fn nb_cols_defined(&self) -> bool {
        self.values@.len() > 0
    }

    open spec fn spec_get(&self, i: usize, j: usize) -> Scalar {
        if i < self.values@.len() && j < self.values@[i as int]@.len() {
            self.values@[i as int]@[j as int]
        } else {
            DEFAULT_VALUE
        }
    }

    open spec fn spec_nb_rows(&self) -> nat {
        self.values@.len()
    }

    open spec fn spec_nb_cols(&self) -> nat {
        self.values@[0]@.len()
    }

    open spec fn spec_diag_default(&self) -> Option<Scalar> {
        None
    }

    open spec fn spec_off_diag_default(&self) -> Option<Scalar> {
        None
    }

    open spec fn spec_kind(&self) -> MatrixKind {
        MatrixKind::Any
    }

    fn get(&self, i: usize, j: usize) -> (r: Scalar) {
        if i < self.values.len() {
            let row = &self.values[i];
            if j < row.len() {
                return row[j];
            }
        }
        DEFAULT_VALUE
    }

    fn default(&self) -> (r: Scalar) {
        DEFAULT_VALUE
    }

    fn diag_default(&self) -> (r: Option<Scalar>) {
        None
    }

    fn off_diag_default(&self) -> (r: Option<Scalar>) {
        None
    }

    fn nb_rows(&self) -> (r: usize) {
        self.values.len()
    }

    fn nb_cols(&self) -> (r: usize) {
        self.values[0].len()
    }

    fn kind(&self) -> (r: MatrixKind) {
        MatrixKind::Any
    }
}

/// Dense fidelity: on a rectangular, non-empty dense matrix, every read
/// inside the declared dimensions returns the stored entry, and every
/// read outside them returns the global default.
pub proof fn lemma_dense_fidelity(m: &DenseMatrix, i: usize, j: usize)
    requires
        m.rectangular(),
        m.values@.len() > 0,
    ensures
        i < m.spec_nb_rows() && j < m.spec_nb_cols() ==> m.spec_get(i, j)
            == m.values@[i as int]@[j as int],
        i >= m.spec_nb_rows() || j >= m.spec_nb_cols() ==> m.spec_get(i, j) == DEFAULT_VALUE,
{
}

} // verus!
