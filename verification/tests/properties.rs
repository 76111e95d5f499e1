use matrix_access::DenseMatrix;
use matrix_access::DiagonalMatrix;
use matrix_access::Matrix;
use matrix_access::MatrixKind;
use matrix_access::SparseMatrix;
use matrix_access::SymmetricMatrix;
use matrix_access::DEFAULT_VALUE;

#[test]
fn test_diagonal_dimensions_and_fidelity() {
    let values = vec![1.5f64.to_bits(), 2.5f64.to_bits(), 3.5f64.to_bits(), 4.5f64.to_bits()];
    let m = DiagonalMatrix { values: values.clone(), off_diag_default: None };

    assert_eq!(m.nb_rows(), 4);
    assert_eq!(m.nb_cols(), 4);
    for k in 0..4 {
        assert_eq!(m.get(k, k), values[k]);
    }
}

#[test]
fn test_diagonal_off_default_absent() {
    let m = DiagonalMatrix {
        values: vec![1.0f64.to_bits(), 2.0f64.to_bits()],
        off_diag_default: None,
    };

    assert_eq!(m.off_diag_default(), None);
    assert_eq!(m.diag_default(), None);
    assert_eq!(m.default(), 0.0f64.to_bits());
    assert_eq!(m.get(0, 1), 0.0f64.to_bits());
    assert_eq!(m.get(1, 0), 0.0f64.to_bits());
}

#[test]
fn test_diagonal_off_default_nonzero() {
    let m = DiagonalMatrix {
        values: vec![1.0f64.to_bits(), 2.0f64.to_bits()],
        off_diag_default: Some(5.5f64.to_bits()),
    };

    assert_eq!(m.off_diag_default(), Some(5.5f64.to_bits()));
    assert_eq!(m.get(0, 1), 5.5f64.to_bits());
    // The off-diagonal rule applies with no separate range check.
    assert_eq!(m.get(7, 9), 5.5f64.to_bits());
}

#[test]
fn test_diagonal_out_of_range_diagonal_defaults() {
    let m = DiagonalMatrix {
        values: vec![1.0f64.to_bits()],
        off_diag_default: Some(5.5f64.to_bits()),
    };

    // An on-diagonal read beyond the dimension degrades to the global
    // default, not to the off-diagonal override.
    assert_eq!(m.get(3, 3), 0.0f64.to_bits());
}

#[test]
fn test_diagonal_empty() {
    let m = DiagonalMatrix { values: vec![], off_diag_default: None };

    assert_eq!(m.nb_rows(), 0);
    assert_eq!(m.nb_cols(), 0);
    assert_eq!(m.get(0, 0), 0.0f64.to_bits());
}

#[test]
fn test_dense_fidelity_and_out_of_range() {
    let m = DenseMatrix {
        values: vec![
            vec![1.0f64.to_bits(), 2.0f64.to_bits(), 3.0f64.to_bits()],
            vec![4.0f64.to_bits(), 5.0f64.to_bits(), 6.0f64.to_bits()],
        ],
    };

    assert_eq!(m.nb_rows(), 2);
    assert_eq!(m.nb_cols(), 3);
    assert_eq!(m.get(1, 2), 6.0f64.to_bits());
    assert_eq!(m.get(2, 0), 0.0f64.to_bits());
    assert_eq!(m.get(0, 3), 0.0f64.to_bits());
    assert_eq!(m.get(9, 9), 0.0f64.to_bits());
    assert_eq!(m.diag_default(), None);
    assert_eq!(m.off_diag_default(), None);
}

#[test]
fn test_symmetric_reflection_scenario() {
    let m = SymmetricMatrix {
        values: vec![vec![1.0f64.to_bits()], vec![2.0f64.to_bits(), 3.0f64.to_bits()]],
    };

    assert_eq!(m.get(0, 0), 1.0f64.to_bits());
    assert_eq!(m.get(1, 0), 2.0f64.to_bits());
    assert_eq!(m.get(0, 1), 2.0f64.to_bits());
    assert_eq!(m.get(1, 1), 3.0f64.to_bits());
    assert_eq!(m.nb_rows(), 2);
    assert_eq!(m.nb_cols(), 2);
}

#[test]
fn test_symmetric_reflection_everywhere() {
    let m = SymmetricMatrix {
        values: vec![
            vec![1.0f64.to_bits()],
            vec![2.0f64.to_bits(), 3.0f64.to_bits()],
            vec![4.0f64.to_bits(), 5.0f64.to_bits(), 6.0f64.to_bits()],
        ],
    };

    for i in 0..4 {
        for j in 0..4 {
            assert_eq!(m.get(i, j), m.get(j, i));
        }
    }
    assert_eq!(m.get(2, 1), 5.0f64.to_bits());
    assert_eq!(m.get(1, 2), 5.0f64.to_bits());
    assert_eq!(m.nb_rows(), 3);
    assert_eq!(m.nb_cols(), 3);
}

#[test]
fn test_symmetric_short_rows_degrade() {
    // Row 1 is shorter than the packing expects: the missing entries
    // read as the global default, and no read faults.
    let m = SymmetricMatrix { values: vec![vec![1.0f64.to_bits()], vec![]] };

    assert_eq!(m.get(1, 0), 0.0f64.to_bits());
    assert_eq!(m.get(0, 1), 0.0f64.to_bits());
    assert_eq!(m.get(1, 1), 0.0f64.to_bits());
    assert_eq!(m.get(5, 0), 0.0f64.to_bits());
}

#[test]
fn test_sparse_unstored_diagonal_default() {
    let m = SparseMatrix {
        nb_rows: 2,
        nb_cols: 2,
        col_ptrs: vec![0, 1, 1],
        row_indices: vec![1],
        values: vec![2.0f64.to_bits()],
        diag_default: Some(7.0f64.to_bits()),
        off_diag_default: None,
    };

    // Column 1 stores nothing, so (1, 1) resolves to the diagonal
    // override; (0, 0) is also unstored (column 0 stores only row 1).
    assert_eq!(m.get(1, 1), 7.0f64.to_bits());
    assert_eq!(m.get(0, 0), 7.0f64.to_bits());
    assert_eq!(m.get(1, 0), 2.0f64.to_bits());
    assert_eq!(m.get(0, 1), 0.0f64.to_bits());
    assert_eq!(m.diag_default(), Some(7.0f64.to_bits()));
}

#[test]
fn test_sparse_unstored_diagonal_no_override() {
    let m = SparseMatrix {
        nb_rows: 2,
        nb_cols: 2,
        col_ptrs: vec![0, 0, 0],
        row_indices: vec![],
        values: vec![],
        diag_default: None,
        off_diag_default: None,
    };

    assert_eq!(m.get(0, 0), 0.0f64.to_bits());
    assert_eq!(m.get(1, 1), 0.0f64.to_bits());
    assert_eq!(m.get(0, 1), 0.0f64.to_bits());
}

#[test]
fn test_sparse_off_default_and_out_of_range() {
    let m = SparseMatrix {
        nb_rows: 3,
        nb_cols: 3,
        col_ptrs: vec![0, 1, 2, 3],
        row_indices: vec![0, 1, 2],
        values: vec![1.0f64.to_bits(), 2.0f64.to_bits(), 3.0f64.to_bits()],
        diag_default: Some(6.5f64.to_bits()),
        off_diag_default: Some(4.25f64.to_bits()),
    };

    assert_eq!(m.get(2, 0), 4.25f64.to_bits());
    // The declared dimensions are not consulted: a coordinate beyond
    // them takes the same unstored path as any other miss.
    assert_eq!(m.get(0, 9), 4.25f64.to_bits());
    assert_eq!(m.get(9, 0), 4.25f64.to_bits());
    assert_eq!(m.get(9, 9), 6.5f64.to_bits());
    assert_eq!(m.off_diag_default(), Some(4.25f64.to_bits()));
}

#[test]
fn test_sparse_unsorted_column_scan() {
    // One column whose stored rows are not sorted: the linear scan
    // still finds each row.
    let m = SparseMatrix {
        nb_rows: 3,
        nb_cols: 1,
        col_ptrs: vec![0, 2],
        row_indices: vec![2, 0],
        values: vec![8.0f64.to_bits(), 9.0f64.to_bits()],
        diag_default: None,
        off_diag_default: None,
    };

    assert_eq!(m.get(2, 0), 8.0f64.to_bits());
    assert_eq!(m.get(0, 0), 9.0f64.to_bits());
    assert_eq!(m.get(1, 0), 0.0f64.to_bits());
}

#[test]
fn test_sparse_declared_dimensions() {
    let m = SparseMatrix {
        nb_rows: 4,
        nb_cols: 2,
        col_ptrs: vec![0, 0, 1],
        row_indices: vec![3],
        values: vec![1.0f64.to_bits()],
        diag_default: None,
        off_diag_default: None,
    };

    assert_eq!(m.nb_rows(), 4);
    assert_eq!(m.nb_cols(), 2);
    assert_eq!(m.get(3, 1), 1.0f64.to_bits());
}

#[test]
fn test_kind_tags() {
    let diagonal = DiagonalMatrix { values: vec![], off_diag_default: None };
    let symmetric = SymmetricMatrix { values: vec![vec![1.0f64.to_bits()]] };
    let dense = DenseMatrix { values: vec![vec![1.0f64.to_bits()]] };
    let sparse = SparseMatrix {
        nb_rows: 1,
        nb_cols: 1,
        col_ptrs: vec![0, 0],
        row_indices: vec![],
        values: vec![],
        diag_default: None,
        off_diag_default: None,
    };

    assert_eq!(diagonal.kind(), MatrixKind::Diagonal);
    assert_eq!(symmetric.kind(), MatrixKind::Symmetric);
    assert_eq!(dense.kind(), MatrixKind::Any);
    assert_eq!(sparse.kind(), MatrixKind::Any);
}

#[test]
fn test_global_default_is_zero_bits() {
    assert_eq!(DEFAULT_VALUE, 0.0f64.to_bits());
    let diagonal = DiagonalMatrix { values: vec![], off_diag_default: None };
    let symmetric = SymmetricMatrix { values: vec![] };
    let dense = DenseMatrix { values: vec![] };
    let sparse = SparseMatrix {
        nb_rows: 0,
        nb_cols: 0,
        col_ptrs: vec![0],
        row_indices: vec![],
        values: vec![],
        diag_default: None,
        off_diag_default: None,
    };

    assert_eq!(diagonal.default(), 0.0f64.to_bits());
    assert_eq!(symmetric.default(), 0.0f64.to_bits());
    assert_eq!(dense.default(), 0.0f64.to_bits());
    assert_eq!(sparse.default(), 0.0f64.to_bits());
}
