//! The shared element-access contract implemented by every storage
//! variant: element lookup, dimension queries, default-value queries,
//! and a coarse structural tag.

use vstd::prelude::*;

verus! {

/// One matrix entry, carried as an opaque 64-bit payload (for IEEE 754
/// doubles, the bit pattern from `f64::to_bits`). The access layer never
/// interprets a payload; it only stores and returns them.
pub type Scalar = u64;

/// The global fallback payload, shared by every variant: the bit pattern
/// of `+0.0`.
pub const DEFAULT_VALUE: Scalar = 0;

/// The payload of an optional override, or the global default where the
/// override is absent.
pub open spec fn default_or(d: Option<Scalar>) -> Scalar {
    match d {
        Some(v) => v,
        None => DEFAULT_VALUE,
    }
}

/// A coarse structural tag hinting at exploitable structure. Both the
/// dense and the sparse layout report `Any`: the tag distinguishes
/// "exploit diagonal/symmetric structure" from "no structure assumed",
/// not the literal storage layout.
#[derive(Debug, PartialEq, Eq, Structural, Clone, Copy)]
pub enum MatrixKind {
    Diagonal,
    Symmetric,
    Any,
}

/// The capability set shared by the four storage variants. A caller may
/// hold any variant and read elements without branching on which one.
///
/// `get` never fails for any pair of indices: out-of-range or unstored
/// coordinates resolve to a default value, per the variant's policy.
/// Callers that need bounds validation check against `nb_rows` and
/// `nb_cols` themselves.
pub trait Matrix: Sized {
    /// The structural invariant that the (out-of-scope) builder
    /// collaborator establishes; element access relies on it.
    spec fn inv(&self) -> bool;

    /// Whether the column-dimension query is well defined; a variant
    /// that derives its column count from stored rows needs at least
    /// one row.
    spec fn nb_cols_defined(&self) -> bool;

    /// The element read at row `i`, column `j`, defaults resolved.
    spec fn spec_get(&self, i: usize, j: usize) -> Scalar;

    spec fn spec_nb_rows(&self) -> nat;

    spec fn spec_nb_cols(&self) -> nat;

    spec fn spec_diag_default(&self) -> Option<Scalar>;

    spec fn spec_off_diag_default(&self) -> Option<Scalar>;

    spec fn spec_kind(&self) -> MatrixKind;

    /// The value at row `i`, column `j`; total over all index pairs.
    fn get(&self, i: usize, j: usize) -> (r: Scalar)
        requires
            self.inv(),
        ensures
            r == self.spec_get(i, j),
    ;

    /// The global fallback value, fixed to the payload of `+0.0` for
    /// every variant.
    fn default(&self) -> (r: Scalar)
        ensures
            r == DEFAULT_VALUE,
    ;

    /// The override applied to unstored diagonal entries, if the
    /// variant supports one.
    fn diag_default(&self) -> (r: Option<Scalar>)
        ensures
            r == self.spec_diag_default(),
    ;

    /// The override applied to unstored or out-of-range off-diagonal
    /// entries, if the variant supports one.
    fn off_diag_default(&self) -> (r: Option<Scalar>)
        ensures
            r == self.spec_off_diag_default(),
    ;

    fn nb_rows(&self) -> (r: usize)
        ensures
            r == self.spec_nb_rows(),
    ;

    fn nb_cols(&self) -> (r: usize)
        requires
            self.nb_cols_defined(),
        ensures
            r == self.spec_nb_cols(),
    ;

    fn kind(&self) -> (r: MatrixKind)
        ensures
            r == self.spec_kind(),
    ;
}

} // verus!
