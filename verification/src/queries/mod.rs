//! The entry point `Query`, named collections, and the four CRUD query types.

pub mod delete;
pub mod find;
pub mod insert;
pub mod update;

pub use delete::DeleteQuery;
pub use find::FindQuery;
pub use insert::InsertQuery;
pub use update::UpdateQuery;

use vstd::prelude::*;

use crate::builders::Filter;

verus! {

/// Entry point for building queries: one constructor per CRUD operation.
pub struct Query;

impl Query {
    /// A SELECT query of `collection`, with no clause.
    pub fn find(collection: &str) -> (r: FindQuery)
        ensures
            r.collection@ == collection@,
            r.projections@.len() == 0,
            r.filters@ == Seq::<Filter>::empty(),
            r.sorts@.len() == 0,
            r.groups@.len() == 0,
            r.limit is None,
            r.offset is None,
    {
        FindQuery::new(collection)
    }

    /// An INSERT query into `collection`, with no row.
    pub fn insert(collection: &str) -> (r: InsertQuery)
        ensures
            r.collection@ == collection@,
            r.values@.len() == 0,
    {
        InsertQuery::new(collection)
    }

    /// An UPDATE query of `collection`, with no assignment and no filter.
    pub fn update(collection: &str) -> (r: UpdateQuery)
        ensures
            r.collection@ == collection@,
            r.updates@.len() == 0,
            r.filters@ == Seq::<Filter>::empty(),
    {
        UpdateQuery::new(collection)
    }

    /// A DELETE query of `collection`, with no filter.
    pub fn delete(collection: &str) -> (r: DeleteQuery)
        ensures
            r.collection@ == collection@,
            r.filters@ == Seq::<Filter>::empty(),
    {
        DeleteQuery::new(collection)
    }
}

/// A named collection, from which queries of it start.
pub struct Collection(String);

impl Collection {
    /// A collection of the given name.
    pub fn new(name: &str) -> (r: Self)
        ensures
            r.spec_name() == name@,
    {
        Collection(name.to_owned())
    }

    /// The name of this collection.
    pub closed spec fn spec_name(&self) -> Seq<char> {
        self.0@
    }

    /// The name of this collection.
    pub fn name(&self) -> (r: &str)
        ensures
            r@ == self.spec_name(),
    {
        self.0.as_str()
    }

    /// A SELECT query of this collection.
    pub fn find(&self) -> (r: FindQuery)
        ensures
            r.collection@ == self.spec_name(),
            r.projections@.len() == 0,
            r.filters@ == Seq::<Filter>::empty(),
            r.sorts@.len() == 0,
            r.groups@.len() == 0,
            r.limit is None,
            r.offset is None,
    {
        Query::find(self.name())
    }

    /// An INSERT query into this collection.
    pub fn insert(&self) -> (r: InsertQuery)
        ensures
            r.collection@ == self.spec_name(),
            r.values@.len() == 0,
    {
        Query::insert(self.name())
    }

    /// An UPDATE query of this collection.
    pub fn update(&self) -> (r: UpdateQuery)
        ensures
            r.collection@ == self.spec_name(),
            r.updates@.len() == 0,
            r.filters@ == Seq::<Filter>::empty(),
    {
        Query::update(self.name())
    }

    /// A DELETE query of this collection.
    pub fn delete(&self) -> (r: DeleteQuery)
        ensures
            r.collection@ == self.spec_name(),
            r.filters@ == Seq::<Filter>::empty(),
    {
        Query::delete(self.name())
    }
}

} // verus!
