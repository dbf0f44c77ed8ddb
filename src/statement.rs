use vstd::prelude::*;

use crate::error::OdbcError;

verus! {

/// A value bound to one `?` parameter of a statement.
#[derive(Debug, Clone)]
pub enum ParamValue {
    Null,
    Bit(bool),
    I32(i32),
    I64(i64),
    Text(String),
    Binary(Vec<u8>),
}

/// SQL text and the values of its parameters, in order.
#[derive(Debug, Clone)]
pub struct Statement {
    pub sql: String,
    pub values: Vec<ParamValue>,
}

/// The arguments of a table introspection: a database (schema) name and
/// the tables to describe.
#[derive(Debug, Clone)]
pub struct TableDescArgs {
    pub db_name: String,
    pub table_names: Vec<String>,
}

/// What a caller hands to an operation: SQL to run, or the arguments of a
/// table introspection.
#[derive(Debug, Clone)]
pub enum StatementInput {
    Sql(Statement),
    TableDesc(TableDescArgs),
}

impl StatementInput {
    /// The SQL of an input meant to run as a statement; table arguments are
    /// not SQL and are refused.
    pub fn as_sql(&self) -> (r: Result<&Statement, OdbcError>)
        ensures
            r is Ok <==> self is Sql,
            r is Ok ==> *r->Ok_0 == self->Sql_0,
            r is Err ==> r->Err_0 is DataHandlerError,
    {
        match self {
            StatementInput::Sql(s) => Ok(s),
            StatementInput::TableDesc(_) => Err(
                OdbcError::DataHandlerError("expect sql statement".to_string()),
            ),
        }
    }

    /// The arguments of an input meant for table introspection; SQL is
    /// refused.
    pub fn as_table_desc(&self) -> (r: Result<&TableDescArgs, OdbcError>)
        ensures
            r is Ok <==> self is TableDesc,
            r is Ok ==> *r->Ok_0 == self->TableDesc_0,
            r is Err ==> r->Err_0 is TypeConversionError,
    {
        match self {
            StatementInput::TableDesc(a) => Ok(a),
            StatementInput::Sql(_) => Err(
                OdbcError::TypeConversionError("expect table desc args".to_string()),
            ),
        }
    }
}

} // verus!
