//! A matrix in compressed-sparse-column form: only explicitly stored
//! entries are kept, grouped by column through an offset table.
//!
//! The lookup scans the queried column's row-index segment linearly (the
//! segment need not be sorted) and takes the first match. A coordinate
//! with no stored entry resolves to the diagonal or off-diagonal
//! override, or to the global default. A column at or beyond `nb_cols`
//! has no stored segment and takes the same unstored-coordinate path.

use vstd::prelude::*;

use crate::matrix::default_or;
use crate::matrix::Matrix;
use crate::matrix::MatrixKind;
use crate::matrix::Scalar;
use crate::matrix::DEFAULT_VALUE;

verus! {

/// The position of the first occurrence of `target` in `rows` within
/// `[lo, hi)`, if any.
pub open spec fn find_row(rows: Seq<usize>, lo: int, hi: int, target: usize) -> Option<int>
    decreases hi - lo,
{
    if lo < hi {
        if rows[lo] == target {
            Some(lo)
        } else {
            find_row(rows, lo + 1, hi, target)
        }
    } else {
        None
    }
}

/// `find_row` misses exactly when no position in the range matches.
pub proof fn lemma_find_row_none(rows: Seq<usize>, lo: int, hi: int, target: usize)
    requires
        forall|k: int| lo <= k < hi ==> rows[k] != target,
    ensures
        find_row(rows, lo, hi, target) is None,
    decreases hi - lo,
{
    if lo < hi {
        lemma_find_row_none(rows, lo + 1, hi, target);
    }
}

pub struct SparseMatrix {
    /// Declared row count; declarative only, not consulted by `get`.
    pub nb_rows: usize,
    /// Declared column count; one stored segment exists per column.
    pub nb_cols: usize,
    /// Segment offsets: column `j`'s stored entries sit at positions
    /// `col_ptrs[j] .. col_ptrs[j + 1]` of `row_indices` and `values`.
    pub col_ptrs: Vec<usize>,
    /// The row of each stored entry, segmented by column.
    pub row_indices: Vec<usize>,
    /// The payload of each stored entry, parallel to `row_indices`.
    pub values: Vec<Scalar>,
    /// Override for unstored diagonal coordinates.
    pub diag_default: Option<Scalar>,
    /// Override for unstored off-diagonal coordinates.
    pub off_diag_default: Option<Scalar>,
}

impl SparseMatrix {
    /// The position in `values` of the stored entry at `(i, j)`: the
    /// first match on `i` within column `j`'s segment.
    pub open spec fn spec_index(&self, i: usize, j: usize) -> Option<int> {
        if j < self.nb_cols {
            find_row(
                self.row_indices@,
                self.col_ptrs@[j as int] as int,
                self.col_ptrs@[j as int + 1] as int,
                i,
            )
        } else {
            None
        }
    }

    /// The value an unstored coordinate resolves to: the diagonal or
    /// off-diagonal override, or the global default.
    pub open spec fn spec_unstored(&self, i: usize, j: usize) -> Scalar {
        if i == j {
            default_or(self.diag_default)
        } else {
            default_or(self.off_diag_default)
        }
    }

    /// Every segment offset is bounded by the total number of stored
    /// entries.
    pub proof fn lemma_col_ptr_bound(&self, j: int)
        requires
            self.inv(),
            0 <= j <= self.nb_cols,
        ensures
            self.col_ptrs@[j] <= self.row_indices@.len(),
        decreases self.nb_cols - j,
    {
        if j < self.nb_cols {
            self.lemma_col_ptr_bound(j + 1);
        }
    }

    /// Scan column `j`'s segment for a stored entry at row `i`.
    fn index(&self, i: usize, j: usize) -> (r: Option<usize>)
        requires
            self.inv(),
            j < self.nb_cols,
        ensures
            (match r {
                Some(k) => self.spec_index(i, j) == Some(k as int) && k < self.values@.len()
                    && self.row_indices@[k as int] == i,
                None => self.spec_index(i, j) is None,
            }),
    {
        proof {
            self.lemma_col_ptr_bound(j + 1);
        }
        let lo = self.col_ptrs[j];
        let hi = self.col_ptrs[j + 1];
        let mut k = lo;
        while k < hi
            invariant
                self.inv(),
                j < self.nb_cols,
                lo == self.col_ptrs@[j as int],
                hi == self.col_ptrs@[j as int + 1],
                hi <= self.row_indices@.len(),
                lo <= k <= hi,
                find_row(self.row_indices@, lo as int, hi as int, i) == find_row(
                    self.row_indices@,
                    k as int,
                    hi as int,
                    i,
                ),
            decreases hi - k,
        {
            if self.row_indices[k] == i {
                return Some(k);
            }
            k = k + 1;
        }
        None
    }
}

impl Matrix for SparseMatrix {
    /// The compressed-sparse-column invariant: one segment per column,
    /// offsets starting at zero and non-decreasing, the last offset
    /// covering every stored entry, and one payload per stored entry.
    open spec fn inv(&self) -> bool {
        &&& self.col_ptrs@.len() == self.nb_cols + 1
        &&& self.col_ptrs@[0] == 0
        &&& forall|j: int|
            0 <= j < self.nb_cols ==> #[trigger] self.col_ptrs@[j] <= self.col_ptrs@[j + 1]
        &&& self.col_ptrs@[self.nb_cols as int] == self.row_indices@.len()
        &&& self.values@.len() == self.row_indices@.len()
    }

    open spec fn nb_cols_defined(&self) -> bool {
        true
    }

    open spec fn spec_get(&self, i: usize, j: usize) -> Scalar {
        match self.spec_index(i, j) {
            Some(k) => self.values@[k],
            None => self.spec_unstored(i, j),
        }
    }

    open spec fn spec_nb_rows(&self) -> nat {
        self.nb_rows as nat
    }

    open spec fn spec_nb_cols(&self) -> nat {
        self.nb_cols as nat
    }

    open spec fn spec_diag_default(&self) -> Option<Scalar> {
        self.diag_default
    }

    open spec fn spec_off_diag_default(&self) -> Option<Scalar> {
        self.off_diag_default
    }

    open spec fn spec_kind(&self) -> MatrixKind {
        MatrixKind::Any
    }

    fn get(&self, i: usize, j: usize) -> (r: Scalar) {
        if j < self.nb_cols {
            match self.index(i, j) {
                Some(ind) => self.values[ind],
                None => self.unstored(i, j),
            }
        } else {
            self.unstored(i, j)
        }
    }

    fn default(&self) -> (r: Scalar) {
        DEFAULT_VALUE
    }

    fn diag_default(&self) -> (r: Option<Scalar>) {
        self.diag_default
    }

    fn off_diag_default(&self) -> (r: Option<Scalar>) {
        self.off_diag_default
    }

    fn nb_rows(&self) -> (r: usize) {
        self.nb_rows
    }

    fn nb_cols(&self) -> (r: usize) {
        self.nb_cols
    }

    fn kind(&self) -> (r: MatrixKind) {
        MatrixKind::Any
    }
}

impl SparseMatrix {
    /// Resolve a coordinate with no stored entry to its default.
    fn unstored(&self, i: usize, j: usize) -> (r: Scalar)
        ensures
            r == self.spec_unstored(i, j),
    {
        if i == j {
            match self.diag_default {
                Some(v) => v,
                None => DEFAULT_VALUE,
            }
        } else {
            match self.off_diag_default {
                Some(v) => v,
                None => DEFAULT_VALUE,
            }
        }
    }
}

/// Identity-pattern round trip: in a sparse matrix whose only stored
/// entries form the diagonal (`col_ptrs[k] == k`, `row_indices[k] == k`),
/// every diagonal read inside the dimension returns the stored payload,
/// and every off-diagonal read resolves to the off-diagonal override or
/// the global default.
pub proof fn lemma_sparse_identity_round_trip(m: &SparseMatrix, i: usize, j: usize)
    requires
        m.col_ptrs@.len() == m.nb_cols + 1,
        forall|k: int| 0 <= k <= m.nb_cols ==> #[trigger] m.col_ptrs@[k] == k,
        m.row_indices@.len() == m.nb_cols,
        forall|k: int| 0 <= k < m.nb_cols ==> #[trigger] m.row_indices@[k] == k,
        m.values@.len() == m.nb_cols,
    ensures
        m.inv(),
        i == j && i < m.nb_cols ==> m.spec_get(i, i) == m.values@[i as int],
        i != j ==> m.spec_get(i, j) == default_or(m.spec_off_diag_default()),
{
    if i == j && i < m.nb_cols {
        assert(m.spec_index(i, i) == Some(i as int));
    }
    if i != j {
        if j < m.nb_cols {
            assert(m.row_indices@[j as int] != i);
            assert(find_row(m.row_indices@, j as int + 1, j as int + 1, i) is None);
        }
        assert(m.spec_index(i, j) is None);
    }
}

/// Unstored-diagonal default: a sparse matrix with no stored entry at
/// `(i, i)` returns the diagonal override there, or the global default
/// where none was given.
pub proof fn lemma_sparse_unstored_diagonal(m: &SparseMatrix, i: usize)
    requires
        m.inv(),
        i < m.nb_cols ==> forall|k: int|
            m.col_ptrs@[i as int] <= k < m.col_ptrs@[i as int + 1]
                ==> #[trigger] m.row_indices@[k] != i,
    ensures
        m.spec_get(i, i) == default_or(m.spec_diag_default()),
{
    if i < m.nb_cols {
        lemma_find_row_none(
            m.row_indices@,
            m.col_ptrs@[i as int] as int,
            m.col_ptrs@[i as int + 1] as int,
            i,
        );
    }
}

} // verus!
