use vstd::prelude::*;

use crate::buffer::BufferDesc;
use crate::cell::{Cell, cell_fits, fits};
use crate::error::OdbcError;

verus! {

/// The rows of a result, each as the sequence of its cells.
pub open spec fn rows_view(rows: Seq<Vec<Cell>>) -> Seq<Seq<Cell>> {
    Seq::new(rows.len(), |r: int| rows[r]@)
}

/// The `n` rows of a column-major batch: row `r` holds the `r`-th value of
/// each column, in column order.
pub open spec fn transposed(batch: Seq<Vec<Cell>>, n: nat) -> Seq<Seq<Cell>> {
    Seq::new(n, |r: int| Seq::new(batch.len(), |c: int| batch[c]@[r]))
}

/// Number of rows of a batch: the length of its first column.
pub open spec fn batch_rows(batch: Seq<Vec<Cell>>) -> nat {
    if batch.len() == 0 {
        0
    } else {
        batch[0]@.len()
    }
}

/// A batch that a buffer of layouts `descs` and `capacity` rows can have
/// produced: one column per layout, all columns of one length no greater
/// than the capacity, and every value fitting its column's layout.
pub open spec fn batch_ok(batch: Seq<Vec<Cell>>, descs: Seq<BufferDesc>, capacity: nat) -> bool {
    &&& batch.len() == descs.len()
    &&& batch_rows(batch) <= capacity
    &&& forall|c: int| 0 <= c < batch.len() ==> #[trigger] batch[c]@.len() == batch_rows(batch)
    &&& forall|c: int, r: int|
        0 <= c < batch.len() && 0 <= r < batch_rows(batch) ==> cell_fits(
            #[trigger] batch[c]@[r],
            descs[c],
        )
}

/// Rows whose cells match `descs` one for one.
pub open spec fn rows_fit(rows: Seq<Seq<Cell>>, descs: Seq<BufferDesc>) -> bool {
    forall|r: int|
        0 <= r < rows.len() ==> {
            &&& #[trigger] rows[r].len() == descs.len()
            &&& forall|c: int| 0 <= c < descs.len() ==> cell_fits(#[trigger] rows[r][c], descs[c])
        }
}

/// Reading the rows of a batch back column by column gives the batch's
/// columns: the transpose loses, reorders and invents no value.
pub proof fn lemma_transpose_round_trip(batch: Seq<Vec<Cell>>, n: nat)
    requires
        forall|c: int| 0 <= c < batch.len() ==> #[trigger] batch[c]@.len() == n,
    ensures
        transposed(batch, n).len() == n,
        forall|r: int| 0 <= r < n ==> #[trigger] transposed(batch, n)[r].len() == batch.len(),
        Seq::new(batch.len(), |c: int| Seq::new(n, |r: int| transposed(batch, n)[r][c]))
            == Seq::new(batch.len(), |c: int| batch[c]@),
{
    let back = Seq::new(batch.len(), |c: int| Seq::new(n, |r: int| transposed(batch, n)[r][c]));
    assert forall|c: int| 0 <= c < batch.len() implies back[c] == batch[c]@ by {
        assert(back[c] =~= batch[c]@);
    }
    assert(back =~= Seq::new(batch.len(), |c: int| batch[c]@));
}

/// `v` in reverse order.
fn reversed<T>(v: Vec<T>) -> (r: Vec<T>)
    ensures
        r@.len() == v@.len(),
        forall|i: int| 0 <= i < v@.len() ==> #[trigger] r@[i] == v@[v@.len() - 1 - i],
{
    let ghost orig = v@;
    let mut v = v;
    let mut r: Vec<T> = Vec::new();
    while v.len() > 0
        invariant
            r@.len() + v@.len() == orig.len(),
            v@ == orig.take(v@.len() as int),
            forall|i: int| 0 <= i < r@.len() ==> #[trigger] r@[i] == orig[orig.len() - 1 - i],
        decreases v@.len(),
    {
        let x = v.pop().unwrap();
        r.push(x);
    }
    r
}

/// Transposes a column-major batch of `n` rows into row-major form.
///
/// The row buffer is sized from the first column and then filled one
/// column at a time.
fn transpose(batch: Vec<Vec<Cell>>, n: usize) -> (rows: Vec<Vec<Cell>>)
    requires
        forall|c: int| 0 <= c < batch@.len() ==> #[trigger] batch@[c]@.len() == n,
    ensures
        rows_view(rows@) == transposed(batch@, n as nat),
{
    let ghost b = batch@;
    let mut cols = reversed(batch);
    let mut rows: Vec<Vec<Cell>> = Vec::new();
    let mut i: usize = 0;
    while i < n
        invariant
            i <= n,
            rows@.len() == i,
            forall|r: int| 0 <= r < i ==> (#[trigger] rows@[r])@.len() == 0,
        decreases n - i,
    {
        rows.push(Vec::new());
        i += 1;
    }
    let mut k: usize = 0;
    let total = cols.len();
    while cols.len() > 0
        invariant
            total == b.len(),
            k + cols@.len() == b.len(),
            forall|i: int| 0 <= i < cols@.len() ==> #[trigger] cols@[i] == b[b.len() - 1 - i],
            forall|c: int| 0 <= c < b.len() ==> #[trigger] b[c]@.len() == n,
            rows@.len() == n,
            forall|r: int|
                0 <= r < n ==> (#[trigger] rows@[r])@ == Seq::new(k as nat, |c: int| b[c]@[r]),
        decreases cols@.len(),
    {
        let col = cols.pop().unwrap();
        assert(col == b[k as int]);
        let mut vals = reversed(col);
        let ghost before = rows@;
        let mut pending = reversed(rows);
        let mut next: Vec<Vec<Cell>> = Vec::new();
        let mut r: usize = 0;
        while pending.len() > 0
            invariant
                r <= n,
                next@.len() == r,
                pending@.len() == n - r,
                vals@.len() == n - r,
                forall|i: int| 0 <= i < n - r ==> #[trigger] vals@[i] == b[k as int]@[n - 1 - i],
                forall|i: int| 0 <= i < n - r ==> #[trigger] pending@[i] == before[n - 1 - i],
                forall|j: int|
                    0 <= j < r ==> (#[trigger] next@[j])@ == before[j]@.push(b[k as int]@[j]),
            decreases pending@.len(),
        {
            let mut row = pending.pop().unwrap();
            let v = vals.pop().unwrap();
            row.push(v);
            next.push(row);
            r += 1;
        }
        rows = next;
        k += 1;
        assert forall|r: int| 0 <= r < n implies (#[trigger] rows@[r])@ == Seq::new(
            k as nat,
            |c: int| b[c]@[r],
        ) by {
            assert(rows@[r]@ =~= Seq::new(k as nat, |c: int| b[c]@[r]));
        }
    }
    assert(rows_view(rows@) =~= transposed(b, n as nat));
    rows
}

/// Tests `batch_ok` on a batch.
fn check_batch(batch: &Vec<Vec<Cell>>, descs: &Vec<BufferDesc>, capacity: usize) -> (r: bool)
    ensures
        r == batch_ok(batch@, descs@, capacity as nat),
{
    if batch.len() != descs.len() {
        return false;
    }
    if batch.len() == 0 {
        return true;
    }
    let n = batch[0].len();
    if n > capacity {
        return false;
    }
    let mut c: usize = 0;
    while c < batch.len()
        invariant
            c <= batch@.len(),
            batch@.len() == descs@.len(),
            batch@.len() > 0,
            n == batch_rows(batch@),
            n <= capacity,
            forall|i: int| 0 <= i < c ==> #[trigger] batch@[i]@.len() == n,
            forall|i: int, j: int|
                0 <= i < c && 0 <= j < n ==> cell_fits(#[trigger] batch@[i]@[j], descs@[i]),
        decreases batch@.len() - c,
    {
        let col = &batch[c];
        if col.len() != n {
            return false;
        }
        let mut r: usize = 0;
        while r < n
            invariant
                c < batch@.len(),
                batch@.len() == descs@.len(),
                *col == batch@[c as int],
                col@.len() == n,
                r <= n,
                forall|j: int| 0 <= j < r ==> cell_fits(#[trigger] col@[j], descs@[c as int]),
            decreases n - r,
        {
            if !fits(&col[r], &descs[c]) {
                return false;
            }
            r += 1;
        }
        c += 1;
    }
    true
}

/// Accumulates the rows of a result across fetch cycles.
///
/// Each fetched batch arrives column-major, at most `capacity` rows of it,
/// and is appended row-major to the rows gathered so far.
pub struct RowCollector {
    descs: Vec<BufferDesc>,
    capacity: usize,
    rows: Vec<Vec<Cell>>,
    fetches: Vec<usize>,
}

impl RowCollector {
    /// The layouts of the result's columns, in order.
    pub closed spec fn descs(&self) -> Seq<BufferDesc> {
        self.descs@
    }

    /// The largest number of rows that one fetch cycle may yield.
    pub closed spec fn capacity(&self) -> nat {
        self.capacity as nat
    }

    /// The rows gathered so far, in fetch order.
    pub closed spec fn rows(&self) -> Seq<Seq<Cell>> {
        rows_view(self.rows@)
    }

    /// The row count of each fetch cycle so far.
    pub closed spec fn fetches(&self) -> Seq<usize> {
        self.fetches@
    }

    /// Every gathered row has one fitting cell per column.
    pub closed spec fn wf(&self) -> bool {
        &&& self.capacity > 0
        &&& rows_fit(self.rows(), self.descs())
    }

    /// A collector for columns of layouts `descs`, fetching at most
    /// `capacity` rows per cycle.
    pub fn new(descs: Vec<BufferDesc>, capacity: usize) -> (r: Self)
        requires
            capacity > 0,
        ensures
            r.wf(),
            r.descs() == descs@,
            r.capacity() == capacity,
            r.rows() == Seq::<Seq<Cell>>::empty(),
            r.fetches() == Seq::<usize>::empty(),
    {
        let r = RowCollector { descs, capacity, rows: Vec::new(), fetches: Vec::new() };
        assert(r.rows() =~= Seq::<Seq<Cell>>::empty());
        r
    }

    /// Appends the rows of one fetched batch, given column by column.
    ///
    /// A batch with the wrong number of columns, columns of unequal length,
    /// more rows than the capacity, or a value that does not fit its column
    /// is a broken driver contract: the call fails and nothing is appended.
    pub fn absorb(&mut self, batch: Vec<Vec<Cell>>) -> (r: Result<(), OdbcError>)
        requires
            old(self).wf(),
        ensures
            final(self).wf(),
            final(self).descs() == old(self).descs(),
            final(self).capacity() == old(self).capacity(),
            r is Ok <==> batch_ok(batch@, old(self).descs(), old(self).capacity()),
            r is Ok ==> final(self).rows() == old(self).rows() + transposed(
                batch@,
                batch_rows(batch@),
            ),
            r is Ok ==> final(self).fetches() == old(self).fetches().push(
                batch_rows(batch@) as usize,
            ),
            r is Err ==> final(self).rows() == old(self).rows(),
            r is Err ==> final(self).fetches() == old(self).fetches(),
            r is Err ==> r->Err_0 is DataHandlerError,
    {
        if !check_batch(&batch, &self.descs, self.capacity) {
            return Err(OdbcError::DataHandlerError("fetched batch breaks the buffer layout".to_string()));
        }
        let n: usize = if batch.len() == 0 {
            0
        } else {
            batch[0].len()
        };
        let ghost b = batch@;
        let ghost old_rows = self.rows();
        let mut fresh = transpose(batch, n);
        let ghost fresh_view = rows_view(fresh@);
        self.rows.append(&mut fresh);
        self.fetches.push(n);
        assert(self.rows() =~= old_rows + fresh_view);
        assert forall|r: int| 0 <= r < self.rows().len() implies {
            &&& #[trigger] self.rows()[r].len() == self.descs().len()
            &&& forall|c: int|
                0 <= c < self.descs().len() ==> cell_fits(#[trigger] self.rows()[r][c], self.descs()[c])
        } by {
            if r >= old_rows.len() {
                let k = r - old_rows.len();
                assert(self.rows()[r] == fresh_view[k]);
                assert forall|c: int| 0 <= c < self.descs().len() implies cell_fits(
                    #[trigger] self.rows()[r][c],
                    self.descs()[c],
                ) by {
                    assert(self.rows()[r][c] == b[c]@[k]);
                }
            } else {
                assert(self.rows()[r] == old_rows[r]);
            }
        }
        Ok(())
    }

    /// The rows gathered so far.
    pub fn row_data(&self) -> (r: &Vec<Vec<Cell>>)
        ensures
            rows_view(r@) == self.rows(),
    {
        &self.rows
    }

    /// The row count of each fetch cycle so far.
    pub fn fetch_sizes(&self) -> (r: &Vec<usize>)
        ensures
            r@ == self.fetches(),
    {
        &self.fetches
    }

    /// Gives up the gathered rows.
    pub fn into_rows(self) -> (r: Vec<Vec<Cell>>)
        requires
            self.wf(),
        ensures
            rows_view(r@) == self.rows(),
            rows_fit(rows_view(r@), self.descs()),
    {
        self.rows
    }
}

} // verus!
