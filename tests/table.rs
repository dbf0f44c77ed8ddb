use odbc_api_helper::cell::Cell;
use odbc_api_helper::column::DataType;
use odbc_api_helper::error::OdbcError;
use odbc_api_helper::table::{catalog_data_type, catalog_row, table_desc_from_rows, CatalogRow};

fn text(s: &str) -> Cell {
    Cell::Text(s.as_bytes().to_vec())
}

fn row(table: &str, column: &str, ty: &str) -> Vec<Cell> {
    vec![text(table), text(column), text(ty), Cell::I32(20), Cell::Null, Cell::I16(0), text("Y")]
}

#[test]
fn catalog_row_reads_cells() {
    let r = catalog_row(&vec![
        text("T1"),
        text("PRICE"),
        text("DECIMAL"),
        Cell::I32(9),
        Cell::I64(10),
        Cell::I32(2),
        text("N"),
    ])
    .unwrap();
    assert_eq!(r.table_name, "T1");
    assert_eq!(r.column_name, "PRICE");
    assert_eq!(r.sql_type, "DECIMAL");
    assert_eq!((r.length, r.precision, r.scale), (9, 10, 2));
    assert!(!r.nullable);
}

#[test]
fn catalog_row_refuses_bad_cells() {
    let mut bad = row("T", "C", "INT");
    bad[3] = Cell::I32(-1);
    assert!(matches!(catalog_row(&bad), Err(OdbcError::TypeConversionError(_))));
    let mut bad = row("T", "C", "INT");
    bad[0] = Cell::Text(vec![0xff, 0xfe]);
    assert!(matches!(catalog_row(&bad), Err(OdbcError::TypeConversionError(_))));
    assert!(matches!(catalog_row(&vec![text("T")]), Err(OdbcError::TypeConversionError(_))));
}

#[test]
fn catalog_type_names() {
    assert_eq!(catalog_data_type(&"VARCHAR".to_string(), 50, 0, 0), DataType::Varchar { length: 50 });
    assert_eq!(catalog_data_type(&"INT".to_string(), 4, 10, 0), DataType::Integer);
    assert_eq!(
        catalog_data_type(&"DECIMAL".to_string(), 9, 10, 2),
        DataType::Decimal { precision: 10, scale: 2 }
    );
    assert_eq!(catalog_data_type(&"TIMESTAMP".to_string(), 8, 26, 6), DataType::Timestamp { precision: 6 });
    assert_eq!(catalog_data_type(&"GEOMETRY".to_string(), 0, 0, 0), DataType::Unknown);
}

#[test]
fn rows_group_by_table_in_order() {
    let rows: Vec<CatalogRow> = vec![
        row("A", "ID", "INT"),
        row("A", "NAME", "VARCHAR"),
        row("B", "ID", "BIGINT"),
        row("C", "X", "DATE"),
        row("C", "Y", "BLOB"),
    ]
    .iter()
    .map(|r| catalog_row(r).unwrap())
    .collect();
    let r = table_desc_from_rows(&rows);
    assert_eq!(r.tables.len(), 3);
    assert_eq!(r.tables[0].table_name, "A");
    assert_eq!(r.tables[0].columns.len(), 2);
    assert_eq!(r.tables[0].columns[1].name, "NAME");
    assert_eq!(r.tables[0].columns[1].data_type, DataType::Varchar { length: 20 });
    assert_eq!(r.tables[1].columns[0].data_type, DataType::BigInt);
    assert_eq!(r.tables[2].columns[1].data_type, DataType::LongVarbinary { length: 20 });
    assert!(r.tables[2].columns[0].nullable);
}

#[test]
fn no_rows_no_tables() {
    assert!(table_desc_from_rows(&vec![]).tables.is_empty());
}
