//! INSERT queries.

use vstd::prelude::*;

use crate::value::DbValue;

verus! {

/// Whether a row of owned column names holds, in order, the given columns
/// and values.
pub open spec fn row_of(row: Seq<(String, DbValue)>, given: Seq<(&str, DbValue)>) -> bool {
    &&& row.len() == given.len()
    &&& forall|j: int| 0 <= j < row.len() ==> #[trigger] row[j].0@ == given[j].0@ && row[j].1 == given[j].1
}

/// Whether `rows` holds, in order, one row for each of `given`.
pub open spec fn rows_of(rows: Seq<Vec<(String, DbValue)>>, given: Seq<Vec<(&str, DbValue)>>) -> bool {
    &&& rows.len() == given.len()
    &&& forall|j: int| 0 <= j < rows.len() ==> row_of(#[trigger] rows[j]@, given[j]@)
}

/// The given columns and values, with owned column names.
pub fn owned_row(row: Vec<(&str, DbValue)>) -> (r: Vec<(String, DbValue)>)
    ensures
        row_of(r@, row@),
{
    let ghost given = row@;
    let mut out: Vec<(String, DbValue)> = Vec::new();
    for pair in it: row
        invariant
            it.seq() == given,
            out@.len() == it.index(),
            forall|j: int| 0 <= j < out@.len() ==> #[trigger] out@[j].0@ == given[j].0@ && out@[j].1 == given[j].1,
    {
        let (name, value) = pair;
        out.push((name.to_owned(), value));
    }
    out
}

/// INSERT query builder: rows of `(column, value)` pairs for a collection.
#[derive(Debug, Clone)]
pub struct InsertQuery {
    pub collection: String,
    pub values: Vec<Vec<(String, DbValue)>>,
}

impl InsertQuery {
    /// Creates an insert query for the given collection, with no row.
    pub fn new(collection: &str) -> (r: Self)
        ensures
            r.collection@ == collection@,
            r.values@.len() == 0,
    {
        InsertQuery { collection: collection.to_owned(), values: Vec::new() }
    }

    /// Appends one row of `(column, value)` pairs.
    pub fn insert(self, row: Vec<(&str, DbValue)>) -> (r: Self)
        ensures
            r.collection@ == self.collection@,
            r.values@.len() == self.values@.len() + 1,
            r.values@.drop_last() == self.values@,
            row_of(r.values@.last()@, row@),
    {
        let mut q = self;
        let owned = owned_row(row);
        q.values.push(owned);
        assert(q.values@.drop_last() =~= self.values@);
        q
    }

    /// Appends one row for each of the given rows, in order.
    pub fn bulk_insert(self, rows: Vec<Vec<(&str, DbValue)>>) -> (r: Self)
        ensures
            r.collection@ == self.collection@,
            r.values@.len() == self.values@.len() + rows@.len(),
            r.values@.subrange(0, self.values@.len() as int) == self.values@,
            rows_of(r.values@.subrange(self.values@.len() as int, r.values@.len() as int), rows@),
    {
        let ghost given = rows@;
        let ghost start = self.values@;
        let mut q = self;
        for row in it: rows
            invariant
                it.seq() == given,
                q.collection@ == self.collection@,
                q.values@.len() == start.len() + it.index(),
                q.values@.subrange(0, start.len() as int) == start,
                forall|j: int| 0 <= j < it.index() ==> row_of(#[trigger] q.values@[start.len() + j]@, given[j]@),
        {
            let ghost before = q.values@;
            let ghost k = it.index();
            assert(row == given[k]);
            q = q.insert(row);
            assert(q.values@.subrange(0, start.len() as int) =~= before.subrange(0, start.len() as int));
            assert forall|j: int| 0 <= j < before.len() implies q.values@[j] == before[j] by {
                assert(q.values@.drop_last()[j] == q.values@[j]);
            }
            assert(q.values@[before.len() as int] == q.values@.last());
            assert(row_of(q.values@[start.len() + k]@, given[k]@));
            assert forall|j: int| 0 <= j < k + 1 implies row_of(
                #[trigger] q.values@[start.len() + j]@,
                given[j]@,
            ) by {
                if j < k {
                    assert(q.values@[start.len() + j] == before[start.len() + j]);
                }
            }
        }
        assert(q.values@.subrange(start.len() as int, q.values@.len() as int).len() == given.len());
        assert forall|j: int| 0 <= j < given.len() implies row_of(
            #[trigger] q.values@.subrange(start.len() as int, q.values@.len() as int)[j]@,
            given[j]@,
        ) by {
            assert(q.values@.subrange(start.len() as int, q.values@.len() as int)[j] == q.values@[start.len() + j]);
        }
        q
    }

    /// Appends rows that already hold owned column names, in order.
    pub fn values(self, rows: Vec<Vec<(String, DbValue)>>) -> (r: Self)
        ensures
            r.collection@ == self.collection@,
            r.values@ == self.values@ + rows@,
    {
        let mut q = self;
        let mut rows = rows;
        q.values.append(&mut rows);
        q
    }
}

} // verus!
