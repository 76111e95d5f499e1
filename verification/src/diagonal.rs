//! A square matrix that stores only its diagonal entries.
//!
//! Policy: an off-diagonal read yields the off-diagonal override (or the
//! global default), with no separate range check; an on-diagonal read at
//! or beyond the dimension yields the global default rather than a fault.

use vstd::prelude::*;

use crate::matrix::default_or;
use crate::matrix::Matrix;
use crate::matrix::MatrixKind;
use crate::matrix::Scalar;
use crate::matrix::DEFAULT_VALUE;

verus! {

pub struct DiagonalMatrix {
    /// The diagonal entries; the dimension is their number.
    pub values: Vec<Scalar>,
    /// Override for every off-diagonal entry; `None` falls back to the
    /// global default.
    pub off_diag_default: Option<Scalar>,
}

impl Matrix for DiagonalMatrix {
    open spec fn inv(&self) -> bool {
        true
    }

    open spec fn nb_cols_defined(&self) -> bool {
        true
    }

    open spec fn spec_get(&self, i: usize, j: usize) -> Scalar {
        if i == j {
            if i < self.values@.len() {
                self.values@[i as int]
            } else {
                DEFAULT_VALUE
            }
        } else {
            default_or(self.off_diag_default)
        }
    }

    open spec fn spec_nb_rows(&self) -> nat {
        self.values@.len()
    }

    open spec fn spec_nb_cols(&self) -> nat {
        self.values@.len()
    }

    open spec fn spec_diag_default(&self) -> Option<Scalar> {
        None
    }

    open spec fn spec_off_diag_default(&self) -> Option<Scalar> {
        self.off_diag_default
    }

    open spec fn spec_kind(&self) -> MatrixKind {
        MatrixKind::Diagonal
    }

    fn get(&self, i: usize, j: usize) -> (r: Scalar) {
        if i == j {
            if i < self.values.len() {
                self.values[i]
            } else {
                DEFAULT_VALUE
            }
        } else {
            match self.off_diag_default {
                Some(v) => v,
                None => DEFAULT_VALUE,
            }
        }
    }

    fn default(&self) -> (r: Scalar) {
        DEFAULT_VALUE
    }

    fn diag_default(&self) -> (r: Option<Scalar>) {
        None
    }

    fn off_diag_default(&self) -> (r: Option<Scalar>) {
        self.off_diag_default
    }

    fn nb_rows(&self) -> (r: usize) {
        self.values.len()
    }

    fn nb_cols(&self) -> (r: usize) {
        self.values.len()
    }

    fn kind(&self) -> (r: MatrixKind) {
        MatrixKind::Diagonal
    }
}

/// Dimension consistency: a diagonal matrix built from `n` values is
/// square, with `n` rows and `n` columns.
pub proof fn lemma_diagonal_square(m: &DiagonalMatrix)
    ensures
        m.spec_nb_rows() == m.spec_nb_cols(),
        m.spec_nb_rows() == m.values@.len(),
{
}

/// Diagonal fidelity: every in-range diagonal read returns the stored
/// value.
pub proof fn lemma_diagonal_fidelity(m: &DiagonalMatrix, i: usize)
    requires
        i < m.values@.len(),
    ensures
        m.spec_get(i, i) == m.values@[i as int],
{
}

/// Off-diagonal default: every in-range off-diagonal read returns the
/// off-diagonal override, or the global default where none was given.
pub proof fn lemma_diagonal_off_diagonal(m: &DiagonalMatrix, i: usize, j: usize)
    requires
        i != j,
        i < m.spec_nb_rows(),
        j < m.spec_nb_cols(),
    ensures
        m.spec_get(i, j) == default_or(m.spec_off_diag_default()),
{
}

} // verus!
