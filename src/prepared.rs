use vstd::prelude::*;

use crate::cell::Cell;
use crate::column::{OdbcColumnDescription, OdbcParamsDescription};
use crate::error::OdbcError;
use crate::materialize::rows_view;
use crate::options::Options;
use crate::query::{QueryResult, all_rows, batches_ok, columns_resolve, query_result_from_cursor};

verus! {

/// A prepared statement with the column and parameter metadata fetched
/// once at preparation.
///
/// `S` is the driver's handle of the statement. Buffer layouts are derived
/// anew from the cached column metadata at each execution.
pub struct OdbcPrepared<S> {
    pub prepared: S,
    pub result_cols_des: Vec<OdbcColumnDescription>,
    pub params_des: Vec<OdbcParamsDescription>,
    pub options: Options,
}

impl<S> OdbcPrepared<S> {
    pub fn new(
        prepared: S,
        result_cols_des: Vec<OdbcColumnDescription>,
        params_des: Vec<OdbcParamsDescription>,
        options: Options,
    ) -> (r: Self)
        ensures
            r.prepared == prepared,
            r.result_cols_des@ == result_cols_des@,
            r.params_des@ == params_des@,
            r.options == options,
    {
        OdbcPrepared { prepared, result_cols_des, params_des, options }
    }

    /// The cached metadata of the result columns.
    pub fn result_cols_description(&self) -> (r: &[OdbcColumnDescription])
        ensures
            r@ == self.result_cols_des@,
    {
        self.result_cols_des.as_slice()
    }

    /// The cached metadata of the parameters.
    pub fn params_description(&self) -> (r: &[OdbcParamsDescription])
        ensures
            r@ == self.params_des@,
    {
        self.params_des.as_slice()
    }

    /// Builds the result of one execution from the batches its cursor
    /// yielded, with the cached column metadata.
    pub fn query_result(&self, batches: Vec<Vec<Vec<Cell>>>) -> (r: Result<QueryResult, OdbcError>)
        requires
            self.options.is_normalized(),
        ensures
            r is Ok <==> columns_resolve(self.result_cols_des@, self.options) && batches_ok(
                batches@,
                self.result_cols_des@,
                self.options,
            ),
            r is Ok ==> rows_view(r->Ok_0.data@) == all_rows(batches@),
            r is Ok ==> r->Ok_0.columns@.len() == self.result_cols_des@.len(),
            r is Err && !columns_resolve(self.result_cols_des@, self.options) ==> r->Err_0 is TypeConversionError,
            r is Err && columns_resolve(self.result_cols_des@, self.options) ==> r->Err_0 is DataHandlerError,
    {
        let data = match query_result_from_cursor(batches, self.result_cols_des.as_slice(), &self.options) {
            Ok(d) => d,
            Err(e) => {
                return Err(e);
            },
        };
        let columns = self.result_cols_des.clone();
        Ok(QueryResult { columns, data })
    }
}

} // verus!
