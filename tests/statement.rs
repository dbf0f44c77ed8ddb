use odbc_api_helper::error::OdbcError;
use odbc_api_helper::options::SupportDatabase;
use odbc_api_helper::query::ExecResult;
use odbc_api_helper::statement::{ParamValue, Statement, StatementInput, TableDescArgs};
use odbc_api_helper::table::introspection_query;

fn args() -> TableDescArgs {
    TableDescArgs { db_name: "sysdba".to_string(), table_names: vec!["t1".to_string(), "Orders".to_string()] }
}

#[test]
fn sql_input_runs_as_sql() {
    let s = StatementInput::Sql(Statement { sql: "SELECT 1".to_string(), values: vec![ParamValue::I32(3)] });
    assert_eq!(s.as_sql().unwrap().sql, "SELECT 1");
    assert!(matches!(s.as_table_desc(), Err(OdbcError::TypeConversionError(_))));
}

#[test]
fn table_args_are_not_sql() {
    let s = StatementInput::TableDesc(args());
    assert!(matches!(s.as_sql(), Err(OdbcError::DataHandlerError(_))));
    assert_eq!(s.as_table_desc().unwrap().table_names.len(), 2);
}

#[test]
fn unsupported_dialect_issues_no_query() {
    assert_eq!(
        introspection_query(SupportDatabase::Pg, &args(), false).unwrap_err(),
        OdbcError::UnsupportedDialect(SupportDatabase::Pg)
    );
    assert_eq!(
        introspection_query(SupportDatabase::Mysql, &args(), true).unwrap_err(),
        OdbcError::UnsupportedDialect(SupportDatabase::Mysql)
    );
}

#[test]
fn dameng_introspection_query() {
    let q = introspection_query(SupportDatabase::Dameng, &args(), false).unwrap();
    assert_eq!(
        q.sql,
        "SELECT TABLE_NAME, COLUMN_NAME, DATA_TYPE, DATA_LENGTH, DATA_PRECISION, DATA_SCALE, NULLABLE \
         FROM ALL_TAB_COLUMNS WHERE OWNER = ? AND TABLE_NAME IN (?, ?) ORDER BY TABLE_NAME, COLUMN_ID"
    );
    assert_eq!(q.params, vec!["SYSDBA".to_string(), "T1".to_string(), "ORDERS".to_string()]);
    let q = introspection_query(SupportDatabase::Dameng, &args(), true).unwrap();
    assert_eq!(q.params, vec!["sysdba".to_string(), "t1".to_string(), "Orders".to_string()]);
}

#[test]
fn dameng_introspection_of_whole_schema() {
    let a = TableDescArgs { db_name: "s".to_string(), table_names: vec![] };
    let q = introspection_query(SupportDatabase::Dameng, &a, true).unwrap();
    assert_eq!(
        q.sql,
        "SELECT TABLE_NAME, COLUMN_NAME, DATA_TYPE, DATA_LENGTH, DATA_PRECISION, DATA_SCALE, NULLABLE \
         FROM ALL_TAB_COLUMNS WHERE OWNER = ? ORDER BY TABLE_NAME, COLUMN_ID"
    );
    assert_eq!(q.params, vec!["s".to_string()]);
}

#[test]
fn exec_result_defaults_to_zero() {
    assert_eq!(ExecResult::from_row_count(None).rows_affected, 0);
    assert_eq!(ExecResult::from_row_count(Some(42)).rows_affected, 42);
}
