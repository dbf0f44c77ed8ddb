use odbc_api_helper::buffer::BufferDesc;
use odbc_api_helper::cell::Cell;
use odbc_api_helper::column::{DataType, OdbcColumnDescription};
use odbc_api_helper::error::OdbcError;
use odbc_api_helper::materialize::RowCollector;
use odbc_api_helper::options::{Options, SupportDatabase};
use odbc_api_helper::prepared::OdbcPrepared;
use odbc_api_helper::query::{query_result_from_cursor, column_names};

fn columns() -> Vec<OdbcColumnDescription> {
    vec![
        OdbcColumnDescription { name: "id".to_string(), data_type: DataType::BigInt, nullable: false },
        OdbcColumnDescription {
            name: "name".to_string(),
            data_type: DataType::Varchar { length: 8 },
            nullable: true,
        },
    ]
}

fn batch(from: i64, to: i64) -> Vec<Vec<Cell>> {
    let ids: Vec<Cell> = (from..to).map(Cell::I64).collect();
    let names: Vec<Cell> = (from..to).map(|i| Cell::Text(format!("n{}", i).into_bytes())).collect();
    vec![ids, names]
}

#[test]
fn transpose_keeps_row_and_column_order() {
    let rows = query_result_from_cursor(vec![batch(0, 3)], &columns(), &Options::new(SupportDatabase::Dameng)).unwrap();
    assert_eq!(rows.len(), 3);
    assert_eq!(rows[0], vec![Cell::I64(0), Cell::Text(b"n0".to_vec())]);
    assert_eq!(rows[2], vec![Cell::I64(2), Cell::Text(b"n2".to_vec())]);
}

#[test]
fn fetch_batching_three_cycles() {
    let descs = vec![BufferDesc::I64 { nullable: false }, BufferDesc::Text { max_str_len: 8 }];
    let mut c = RowCollector::new(descs, 128);
    c.absorb(batch(0, 128)).unwrap();
    c.absorb(batch(128, 256)).unwrap();
    c.absorb(batch(256, 300)).unwrap();
    assert_eq!(c.fetch_sizes(), &vec![128, 128, 44]);
    let rows = c.into_rows();
    assert_eq!(rows.len(), 300);
    for (i, row) in rows.iter().enumerate() {
        assert_eq!(row[0], Cell::I64(i as i64));
        assert_eq!(row[1], Cell::Text(format!("n{}", i).into_bytes()));
    }
}

#[test]
fn batch_over_capacity_is_refused() {
    let descs = vec![BufferDesc::I64 { nullable: false }, BufferDesc::Text { max_str_len: 8 }];
    let mut c = RowCollector::new(descs, 2);
    let r = c.absorb(batch(0, 3));
    assert!(matches!(r, Err(OdbcError::DataHandlerError(_))));
    assert!(c.row_data().is_empty());
    assert!(c.fetch_sizes().is_empty());
}

#[test]
fn columns_of_unequal_length_fail() {
    let mut b = batch(0, 3);
    b[1].pop();
    let r = query_result_from_cursor(vec![batch(0, 2), b], &columns(), &Options::new(SupportDatabase::Dameng));
    assert!(matches!(r, Err(OdbcError::DataHandlerError(_))));
}

#[test]
fn text_over_bound_is_refused() {
    let o = Options { max_str_len: 4, ..Options::new(SupportDatabase::Dameng) };
    let b = vec![vec![Cell::I64(1)], vec![Cell::Text(b"abcdef".to_vec())]];
    let r = query_result_from_cursor(vec![b], &columns(), &o);
    assert!(matches!(r, Err(OdbcError::DataHandlerError(_))));
    let b = vec![vec![Cell::I64(1)], vec![Cell::Text(b"abcd".to_vec())]];
    let rows = query_result_from_cursor(vec![b], &columns(), &o).unwrap();
    assert_eq!(rows[0][1], Cell::Text(b"abcd".to_vec()));
}

#[test]
fn null_in_not_null_column_is_refused() {
    let b = vec![vec![Cell::Null], vec![Cell::Null]];
    let r = query_result_from_cursor(vec![b], &columns(), &Options::new(SupportDatabase::Dameng));
    assert!(matches!(r, Err(OdbcError::DataHandlerError(_))));
}

#[test]
fn no_batches_give_no_rows() {
    let rows = query_result_from_cursor(vec![], &columns(), &Options::new(SupportDatabase::Dameng)).unwrap();
    assert!(rows.is_empty());
}

#[test]
fn unknown_column_type_fails_before_fetching() {
    let cols = vec![OdbcColumnDescription { name: "x".to_string(), data_type: DataType::Unknown, nullable: true }];
    let r = query_result_from_cursor(vec![], &cols, &Options::new(SupportDatabase::Dameng));
    assert!(matches!(r, Err(OdbcError::TypeConversionError(_))));
}

#[test]
fn prepared_keeps_metadata_and_builds_result() {
    let p = OdbcPrepared::new((), columns(), vec![], Options::new(SupportDatabase::Dameng));
    assert_eq!(p.result_cols_description().len(), 2);
    assert_eq!(p.result_cols_description()[1].name, "name");
    assert!(p.params_description().is_empty());
    let q = p.query_result(vec![batch(5, 7)]).unwrap();
    assert_eq!(q.columns.len(), 2);
    assert_eq!(q.data, vec![
        vec![Cell::I64(5), Cell::Text(b"n5".to_vec())],
        vec![Cell::I64(6), Cell::Text(b"n6".to_vec())],
    ]);
}

#[test]
fn column_names_follow_case_setting() {
    assert_eq!(column_names(&columns(), false), vec!["ID".to_string(), "NAME".to_string()]);
    assert_eq!(column_names(&columns(), true), vec!["id".to_string(), "name".to_string()]);
}
