use vstd::prelude::*;

use crate::buffer::{BufferDesc, buffer_desc, spec_buffer_desc, within_limits};
use crate::cell::{Cell, cell_bounded, lemma_fits_bounded};
use crate::column::OdbcColumnDescription;
use crate::error::OdbcError;
use crate::materialize::{
    RowCollector,
    batch_ok,
    batch_rows,
    rows_fit,
    rows_view,
    transposed,
};
use crate::options::Options;
use crate::table::{catalog_name, to_catalog_name};

verus! {

/// What a non-query statement reports.
#[derive(Debug, Clone, Copy, PartialEq, Eq, Structural, Default)]
pub struct ExecResult {
    /// Rows the statement affected; zero where the driver reports none.
    pub rows_affected: usize,
}

impl ExecResult {
    /// The result of a statement whose driver reported `row_count` rows,
    /// or no count at all.
    pub fn from_row_count(row_count: Option<usize>) -> (r: Self)
        ensures
            r.rows_affected == match row_count {
                Some(n) => n,
                None => 0,
            },
    {
        match row_count {
            Some(n) => ExecResult { rows_affected: n },
            None => ExecResult { rows_affected: 0 },
        }
    }
}

/// The columns of a query's result and its rows, in fetch order.
#[derive(Debug, Clone)]
pub struct QueryResult {
    pub columns: Vec<OdbcColumnDescription>,
    pub data: Vec<Vec<Cell>>,
}

/// Every column has a buffer layout.
pub open spec fn columns_resolve(columns: Seq<OdbcColumnDescription>, o: Options) -> bool {
    forall|i: int|
        0 <= i < columns.len() ==> (#[trigger] spec_buffer_desc(
            columns[i].data_type,
            columns[i].nullable,
            o,
        )) is Some
}

/// The buffer layouts of `columns`, in order.
pub open spec fn resolved_descs(columns: Seq<OdbcColumnDescription>, o: Options) -> Seq<
    BufferDesc,
> {
    Seq::new(
        columns.len(),
        |i: int| spec_buffer_desc(columns[i].data_type, columns[i].nullable, o)->Some_0,
    )
}

/// The rows of a sequence of fetched batches, concatenated in fetch order.
pub open spec fn all_rows(batches: Seq<Vec<Vec<Cell>>>) -> Seq<Seq<Cell>>
    decreases batches.len(),
{
    if batches.len() == 0 {
        Seq::empty()
    } else {
        all_rows(batches.drop_last()) + transposed(
            batches.last()@,
            batch_rows(batches.last()@),
        )
    }
}

/// Every batch is one that the resolved buffers can have produced.
pub open spec fn batches_ok(
    batches: Seq<Vec<Vec<Cell>>>,
    columns: Seq<OdbcColumnDescription>,
    o: Options,
) -> bool {
    forall|i: int|
        0 <= i < batches.len() ==> batch_ok(
            (#[trigger] batches[i])@,
            resolved_descs(columns, o),
            o.max_batch_size as nat,
        )
}

/// Resolves the buffer layout of every column, failing on the first column
/// that has none.
pub fn buffer_descs(columns: &[OdbcColumnDescription], options: &Options) -> (r: Result<
    Vec<BufferDesc>,
    OdbcError,
>)
    ensures
        r is Ok <==> columns_resolve(columns@, *options),
        r is Ok ==> r->Ok_0@ == resolved_descs(columns@, *options),
        r is Ok ==> forall|i: int|
            0 <= i < r->Ok_0@.len() ==> within_limits(#[trigger] r->Ok_0@[i], *options),
        r is Err ==> r->Err_0 is TypeConversionError,
{
    let mut descs: Vec<BufferDesc> = Vec::new();
    let mut i: usize = 0;
    while i < columns.len()
        invariant
            i <= columns@.len(),
            descs@ == resolved_descs(columns@, *options).take(i as int),
            columns_resolve(columns@.take(i as int), *options),
            forall|j: int| 0 <= j < i ==> within_limits(#[trigger] descs@[j], *options),
        decreases columns@.len() - i,
    {
        match buffer_desc(&columns[i], options) {
            Ok(d) => {
                descs.push(d);
            },
            Err(e) => {
                assert(!(spec_buffer_desc(columns@[i as int].data_type, columns@[i as int].nullable, *options) is Some));
                return Err(e);
            },
        }
        i += 1;
        assert(descs@ =~= resolved_descs(columns@, *options).take(i as int));
        assert forall|j: int| 0 <= j < i implies (#[trigger] spec_buffer_desc(
            columns@.take(i as int)[j].data_type,
            columns@.take(i as int)[j].nullable,
            *options,
        )) is Some by {
            if j < i - 1 {
                assert(columns@.take(i as int)[j] == columns@.take(i - 1)[j]);
            }
        }
    }
    assert(columns@.take(i as int) =~= columns@);
    assert(descs@ =~= resolved_descs(columns@, *options));
    Ok(descs)
}

/// The names of `columns` in order, upper-cased unless case matters.
pub fn column_names(columns: &[OdbcColumnDescription], case_sensitive: bool) -> (r: Vec<String>)
    ensures
        r@.len() == columns@.len(),
        forall|i: int|
            0 <= i < columns@.len() ==> (#[trigger] r@[i])@ == catalog_name(
                columns@[i].name@,
                case_sensitive,
            ),
{
    let mut names: Vec<String> = Vec::new();
    let mut i: usize = 0;
    while i < columns.len()
        invariant
            i <= columns@.len(),
            names@.len() == i,
            forall|j: int|
                0 <= j < i ==> (#[trigger] names@[j])@ == catalog_name(
                    columns@[j].name@,
                    case_sensitive,
                ),
        decreases columns@.len() - i,
    {
        names.push(to_catalog_name(&columns[i].name, case_sensitive));
        i += 1;
    }
    names
}

/// Reads the rows of a result out of its fetched batches.
///
/// The layouts of the buffers come from `columns` and `options`; each batch
/// holds at most `options.max_batch_size` rows, given column by column.
pub fn query_result_from_cursor(
    batches: Vec<Vec<Vec<Cell>>>,
    columns: &[OdbcColumnDescription],
    options: &Options,
) -> (r: Result<Vec<Vec<Cell>>, OdbcError>)
    requires
        options.is_normalized(),
    ensures
        r is Ok <==> columns_resolve(columns@, *options) && batches_ok(batches@, columns@, *options),
        r is Ok ==> rows_view(r->Ok_0@) == all_rows(batches@),
        r is Ok ==> forall|i: int, j: int|
            0 <= i < r->Ok_0@.len() && 0 <= j < r->Ok_0@[i]@.len() ==> cell_bounded(
                #[trigger] r->Ok_0@[i]@[j],
                *options,
            ),
        r is Err && !columns_resolve(columns@, *options) ==> r->Err_0 is TypeConversionError,
        r is Err && columns_resolve(columns@, *options) ==> r->Err_0 is DataHandlerError,
{
    let descs = match buffer_descs(columns, options) {
        Ok(d) => d,
        Err(e) => {
            return Err(e);
        },
    };
    let ghost dv = descs@;
    let ghost all = batches@;
    let mut collector = RowCollector::new(descs, options.max_batch_size);
    let mut pending = reversed_batches(batches);
    let mut k: usize = 0;
    let total = pending.len();
    while pending.len() > 0
        invariant
            total == all.len(),
            all == batches@,
            k + pending@.len() == all.len(),
            forall|i: int| 0 <= i < pending@.len() ==> #[trigger] pending@[i] == all[all.len() - 1 - i],
            collector.wf(),
            collector.descs() == dv,
            dv == resolved_descs(columns@, *options),
            columns_resolve(columns@, *options),
            collector.capacity() == options.max_batch_size as nat,
            collector.rows() == all_rows(all.take(k as int)),
            forall|i: int| 0 <= i < k ==> batch_ok((#[trigger] all[i])@, dv, options.max_batch_size as nat),
        decreases pending@.len(),
    {
        let batch = pending.pop().unwrap();
        assert(batch == all[k as int]);
        match collector.absorb(batch) {
            Ok(()) => {},
            Err(e) => {
                assert(!batch_ok(all[k as int]@, dv, options.max_batch_size as nat));
                assert(!batches_ok(all, columns@, *options));
                return Err(e);
            },
        }
        k += 1;
        assert(all.take(k as int).drop_last() =~= all.take(k - 1));
    }
    assert(all.take(k as int) =~= all);
    let rows = collector.into_rows();
    proof {
        assert forall|i: int, j: int|
            0 <= i < rows@.len() && 0 <= j < rows@[i]@.len() implies cell_bounded(
            #[trigger] rows@[i]@[j],
            *options,
        ) by {
            assert(rows_view(rows@)[i] == rows@[i]@);
            assert(rows_fit(rows_view(rows@), dv));
            lemma_fits_bounded(rows@[i]@[j], dv[j], *options);
        }
    }
    Ok(rows)
}

/// `v` in reverse order.
fn reversed_batches(v: Vec<Vec<Vec<Cell>>>) -> (r: Vec<Vec<Vec<Cell>>>)
    ensures
        r@.len() == v@.len(),
        forall|i: int| 0 <= i < v@.len() ==> #[trigger] r@[i] == v@[v@.len() - 1 - i],
{
    let ghost orig = v@;
    let mut v = v;
    let mut r: Vec<Vec<Vec<Cell>>> = Vec::new();
    while v.len() > 0
        invariant
            r@.len() + v@.len() == orig.len(),
            v@ == orig.take(v@.len() as int),
            forall|i: int| 0 <= i < r@.len() ==> #[trigger] r@[i] == orig[orig.len() - 1 - i],
        decreases v@.len(),
    {
        let x = v.pop().unwrap();
        r.push(x);
    }
    r
}

} // verus!
