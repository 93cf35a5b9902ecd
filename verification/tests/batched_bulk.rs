use rusqlite::types::Value;
use sqlite_rw_pool::batched::max_batch_size;
use sqlite_rw_pool::batched::BatchedBulkValuesClause;
use sqlite_rw_pool::batched::PARAMS_LIMIT;

fn int_row(xs: &[i64]) -> Vec<Value> {
    xs.iter().map(|x| Value::Integer(*x)).collect()
}

#[test]
fn max_batch_size_is_the_limit_for_one_column() {
    assert_eq!(max_batch_size(0, 0, 1), PARAMS_LIMIT);
    assert_eq!(max_batch_size(0, 0, 2), PARAMS_LIMIT / 2);
    assert_eq!(max_batch_size(3, 4, 1), PARAMS_LIMIT - 7);
}

#[test]
fn bulk_insert_of_ten_thousand_rows_is_clamped_and_counted() {
    let mut conn = rusqlite::Connection::open_in_memory().unwrap();
    conn.execute_batch("CREATE TABLE t(x INTEGER);").unwrap();
    let rows: Vec<Vec<Value>> = (0..10_000i64).map(|x| int_row(&[x])).collect();
    let tx = conn.transaction().unwrap();
    let clause = BatchedBulkValuesClause::new("INSERT INTO t(x) ".to_string(), "".to_string());
    // A requested batch size far past the bound-parameter limit is clamped.
    let modified = clause.execute(&tx, usize::MAX, &rows).unwrap();
    assert_eq!(modified, 10_000);
    tx.commit().unwrap();
    let count: i64 = conn.query_row("SELECT COUNT(*) FROM t", [], |r| r.get(0)).unwrap();
    assert_eq!(count, 10_000);
    let total: i64 = conn.query_row("SELECT SUM(x) FROM t", [], |r| r.get(0)).unwrap();
    assert_eq!(total, (0..10_000i64).sum::<i64>());
}

#[test]
fn small_insert_with_two_columns() {
    let mut conn = rusqlite::Connection::open_in_memory().unwrap();
    conn.execute_batch("CREATE TABLE p(a INTEGER, b INTEGER);").unwrap();
    let rows = vec![int_row(&[1, 2]), int_row(&[3, 4]), int_row(&[5, 6])];
    let tx = conn.transaction().unwrap();
    let clause = BatchedBulkValuesClause::new("INSERT INTO p(a, b) ".to_string(), "".to_string());
    let modified = clause.execute(&tx, 2, &rows).unwrap();
    assert_eq!(modified, 3);
    tx.commit().unwrap();
    let total: i64 = conn.query_row("SELECT SUM(a) + SUM(b) FROM p", [], |r| r.get(0)).unwrap();
    assert_eq!(total, 21);
}

#[test]
fn empty_row_list_touches_nothing() {
    let mut conn = rusqlite::Connection::open_in_memory().unwrap();
    conn.execute_batch("CREATE TABLE t(x INTEGER);").unwrap();
    let rows: Vec<Vec<Value>> = vec![];
    let tx = conn.transaction().unwrap();
    let clause = BatchedBulkValuesClause::new("INSERT INTO t(x) ".to_string(), "".to_string());
    assert_eq!(clause.execute(&tx, 5, &rows).unwrap(), 0);
}

#[test]
fn pre_params_are_bound_before_the_rows() {
    let mut conn = rusqlite::Connection::open_in_memory().unwrap();
    conn.execute_batch("CREATE TABLE tagged(tag TEXT, v INTEGER);").unwrap();
    let rows = vec![int_row(&[10]), int_row(&[20])];
    let tx = conn.transaction().unwrap();
    let mut clause = BatchedBulkValuesClause::new(
        "INSERT INTO tagged(tag, v) SELECT ?, column1 FROM (".to_string(),
        ")".to_string(),
    );
    clause.bind_pre(vec![Value::Text("lot".to_string())]);
    let modified = clause.execute(&tx, 10, &rows).unwrap();
    assert_eq!(modified, 2);
    tx.commit().unwrap();
    let total: i64 = conn
        .query_row("SELECT SUM(v) FROM tagged WHERE tag = 'lot'", [], |r| r.get(0))
        .unwrap();
    assert_eq!(total, 30);
}

#[test]
fn query_returns_names_and_rows_across_batches() {
    let mut conn = rusqlite::Connection::open_in_memory().unwrap();
    let tx = conn.transaction().unwrap();
    let rows: Vec<Vec<Value>> = (1..=5i64).map(|x| int_row(&[x])).collect();
    let clause = BatchedBulkValuesClause::new("SELECT * FROM (".to_string(), ")".to_string());
    // A batch size of two forces three statements; results accumulate.
    let (names, out) = clause.query(&tx, 2, &rows).unwrap();
    assert_eq!(names, vec!["column1".to_string()]);
    let got: Vec<i64> = out
        .iter()
        .map(|row| match row[0] {
            Value::Integer(x) => x,
            _ => panic!("integer expected"),
        })
        .collect();
    assert_eq!(got, vec![1, 2, 3, 4, 5]);
}

#[test]
fn post_params_are_bound_after_the_rows() {
    let mut conn = rusqlite::Connection::open_in_memory().unwrap();
    let tx = conn.transaction().unwrap();
    let rows = vec![int_row(&[7]), int_row(&[8]), int_row(&[9])];
    let clause = {
        let mut c = BatchedBulkValuesClause::new(
            "SELECT * FROM (".to_string(),
            ") WHERE column1 > ?".to_string(),
        );
        c.bind_post(vec![Value::Integer(7)]);
        c
    };
    // One batch holds all rows, so the post param filters within it.
    let (_, out) = clause.query(&tx, 10, &rows).unwrap();
    let got: Vec<i64> = out
        .iter()
        .map(|row| match row[0] {
            Value::Integer(x) => x,
            _ => panic!("integer expected"),
        })
        .collect();
    assert_eq!(got, vec![8, 9]);
}

#[test]
fn bad_sql_surfaces_engine_error() {
    let mut conn = rusqlite::Connection::open_in_memory().unwrap();
    let tx = conn.transaction().unwrap();
    let rows = vec![int_row(&[1])];
    let clause = BatchedBulkValuesClause::new("INSERT INTO missing(x) ".to_string(), "".to_string());
    let err = clause.execute(&tx, 1, &rows).unwrap_err();
    assert!(matches!(err, sqlite_rw_pool::Error::Rusqlite(_)));
}
