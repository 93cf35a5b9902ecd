use sqlite_rw_pool::query::values_clause;
use sqlite_rw_pool::query::values_clause_checked;

#[test]
fn two_columns_three_rows() {
    assert_eq!(values_clause(2, 3), "VALUES (?,?),(?,?),(?,?) ");
}

#[test]
fn one_column_one_row() {
    assert_eq!(values_clause(1, 1), "VALUES (?) ");
}

#[test]
fn three_columns_two_rows() {
    assert_eq!(values_clause(3, 2), "VALUES (?,?,?),(?,?,?) ");
}

#[test]
fn zero_columns_rejected() {
    assert_eq!(values_clause_checked(0, 3), None);
}

#[test]
fn zero_rows_rejected() {
    assert_eq!(values_clause_checked(2, 0), None);
}

#[test]
fn checked_matches_unchecked() {
    assert_eq!(values_clause_checked(2, 3), Some(values_clause(2, 3)));
}
