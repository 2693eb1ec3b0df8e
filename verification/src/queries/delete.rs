//! DELETE queries.

use vstd::prelude::*;

use crate::builders::{Filter, FilterBuilder, FilterList};

verus! {

/// DELETE query builder: the filters (WHERE clause, implicit AND) that pick
/// the rows to remove.
///
/// With no filter the delete applies to every row of the collection.
#[derive(Debug, Clone)]
pub struct DeleteQuery {
    pub collection: String,
    pub filters: FilterList,
}

impl DeleteQuery {
    /// Creates a delete query for the given collection, with no filter.
    pub fn new(collection: &str) -> (r: Self)
        ensures
            r.collection@ == collection@,
            r.filters@ == Seq::<Filter>::empty(),
    {
        DeleteQuery { collection: collection.to_owned(), filters: FilterList::new() }
    }

    /// Appends filter predicates (WHERE clause, implicit AND).
    pub fn filter(self, filters: FilterList) -> (r: Self)
        ensures
            r.collection@ == self.collection@,
            r.filters@ == self.filters@ + filters@,
    {
        let mut q = self;
        q.filters.extend(filters);
        q
    }

    /// Sets the entire filter definition at once, replacing any filters
    /// added before.
    pub fn with_filters(self, filters: FilterList) -> (r: Self)
        ensures
            r.collection@ == self.collection@,
            r.filters@ == filters@,
    {
        let mut q = self;
        q.filters = filters;
        q
    }

    /// Appends the predicates that `build` adds to an empty builder.
    pub fn with_filter_builder<F>(self, build: F) -> (r: Self) where
        F: FnOnce(FilterBuilder) -> FilterBuilder,

        requires
            forall|b: FilterBuilder| b@ == Seq::<Filter>::empty() ==> call_requires(build, (b,)),
        ensures
            exists|b0: FilterBuilder, b1: FilterBuilder|
                #![trigger call_ensures(build, (b0,), b1)]
                b0@ == Seq::<Filter>::empty() && call_ensures(build, (b0,), b1)
                    && r.filters@ == self.filters@ + b1@,
            r.collection@ == self.collection@,
    {
        let b0 = FilterBuilder::new();
        let ghost g0 = b0;
        let b1 = build(b0);
        let ghost g1 = b1;
        let r = self.filter(b1.build());
        assert(call_ensures(build, (g0,), g1));
        r
    }
}

} // verus!
