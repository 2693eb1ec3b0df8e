//! UPDATE queries.

use vstd::prelude::*;

use crate::builders::{Filter, FilterBuilder, FilterList};
use crate::value::DbValue;

verus! {

/// UPDATE query builder: field assignments and the filters (WHERE clause,
/// implicit AND) that pick the rows to modify.
///
/// With no filter the update applies to every row of the collection.
#[derive(Debug, Clone)]
pub struct UpdateQuery {
    pub collection: String,
    pub updates: Vec<(String, DbValue)>,
    pub filters: FilterList,
}

impl UpdateQuery {
    /// Creates an update query for the given collection, with no assignment
    /// and no filter.
    pub fn new(collection: &str) -> (r: Self)
        ensures
            r.collection@ == collection@,
            r.updates@.len() == 0,
            r.filters@ == Seq::<Filter>::empty(),
    {
        UpdateQuery {
            collection: collection.to_owned(),
            updates: Vec::new(),
            filters: FilterList::new(),
        }
    }

    /// Appends the assignment `field = value`.
    pub fn set(self, field: &str, value: DbValue) -> (r: Self)
        ensures
            r.collection@ == self.collection@,
            r.filters@ == self.filters@,
            r.updates@.len() == self.updates@.len() + 1,
            r.updates@.drop_last() == self.updates@,
            r.updates@.last().0@ == field@,
            r.updates@.last().1 == value,
    {
        let mut q = self;
        q.updates.push((field.to_owned(), value));
        assert(q.updates@.drop_last() =~= self.updates@);
        q
    }

    /// Appends the given assignments, in order.
    pub fn set_row(self, row: Vec<(String, DbValue)>) -> (r: Self)
        ensures
            r.collection@ == self.collection@,
            r.filters@ == self.filters@,
            r.updates@ == self.updates@ + row@,
    {
        let mut q = self;
        let mut row = row;
        q.updates.append(&mut row);
        q
    }

    /// Appends filter predicates (WHERE clause, implicit AND).
    pub fn filter(self, filters: FilterList) -> (r: Self)
        ensures
            r.collection@ == self.collection@,
            r.updates@ == self.updates@,
            r.filters@ == self.filters@ + filters@,
    {
        let mut q = self;
        q.filters.extend(filters);
        q
    }

    /// Appends filter predicates (the same as `filter`).
    pub fn with_filters(self, filters: FilterList) -> (r: Self)
        ensures
            r.collection@ == self.collection@,
            r.updates@ == self.updates@,
            r.filters@ == self.filters@ + filters@,
    {
        self.filter(filters)
    }

    /// Appends the predicates that `build` adds to an empty builder.
    pub fn with_filter_builder<F>(self, build: F) -> (r: Self) where
        F: FnOnce(FilterBuilder) -> FilterBuilder,

        requires
            forall|b: FilterBuilder| b@ == Seq::<Filter>::empty() ==> call_requires(build, (b,)),
        ensures
            exists|b0: FilterBuilder, b1: FilterBuilder|
                #![trigger call_ensures(build, (b0,), b1)]
                b0@ == Seq::<Filter>::empty() && call_ensures(build, (b0,), b1)
                    && r.filters@ == self.filters@ + b1@,
            r.collection@ == self.collection@,
            r.updates@ == self.updates@,
    {
        let b0 = FilterBuilder::new();
        let ghost g0 = b0;
        let b1 = build(b0);
        let ghost g1 = b1;
        let r = self.filter(b1.build());
        assert(call_ensures(build, (g0,), g1));
        r
    }
}

} // verus!
