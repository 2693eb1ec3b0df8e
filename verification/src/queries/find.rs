//! SELECT queries.

use vstd::prelude::*;

use crate::builders::{
    Filter, FilterBuilder, FilterList, GroupBuilder, GroupList, Projection, ProjectionBuilder,
    ProjectionList, Sort, SortBuilder, SortList,
};
use crate::outside::smol_text;

verus! {

/// SELECT query builder for reading data from a collection.
///
/// It holds column selections and aggregates (projections), row filters
/// (WHERE, combined with implicit AND), result ordering (ORDER BY), grouping
/// (GROUP BY) and pagination (LIMIT / OFFSET). Every clause method appends to
/// its list; `limit` and `offset` replace the previous setting.
#[derive(Debug, Clone)]
pub struct FindQuery {
    pub collection: String,
    pub projections: ProjectionList,
    pub filters: FilterList,
    pub sorts: SortList,
    pub groups: GroupList,
    pub limit: Option<usize>,
    pub offset: Option<usize>,
}

/// The group-by field names of a list, as text.
pub open spec fn group_names(groups: GroupList) -> Seq<Seq<char>> {
    groups@.map_values(|f| smol_text(f))
}

impl FindQuery {
    /// Whether `self` and `other` agree on every part but the projections.
    pub open spec fn same_but_projections(self, other: FindQuery) -> bool {
        &&& self.collection@ == other.collection@
        &&& self.filters@ == other.filters@
        &&& self.sorts@ == other.sorts@
        &&& self.groups@ == other.groups@
        &&& self.limit == other.limit
        &&& self.offset == other.offset
    }

    /// Whether `self` and `other` agree on every part but the filters.
    pub open spec fn same_but_filters(self, other: FindQuery) -> bool {
        &&& self.collection@ == other.collection@
        &&& self.projections@ == other.projections@
        &&& self.sorts@ == other.sorts@
        &&& self.groups@ == other.groups@
        &&& self.limit == other.limit
        &&& self.offset == other.offset
    }

    /// Whether `self` and `other` agree on every part but the sorts.
    pub open spec fn same_but_sorts(self, other: FindQuery) -> bool {
        &&& self.collection@ == other.collection@
        &&& self.projections@ == other.projections@
        &&& self.filters@ == other.filters@
        &&& self.groups@ == other.groups@
        &&& self.limit == other.limit
        &&& self.offset == other.offset
    }

    /// Whether `self` and `other` agree on every part but the groups.
    pub open spec fn same_but_groups(self, other: FindQuery) -> bool {
        &&& self.collection@ == other.collection@
        &&& self.projections@ == other.projections@
        &&& self.filters@ == other.filters@
        &&& self.sorts@ == other.sorts@
        &&& self.limit == other.limit
        &&& self.offset == other.offset
    }

    /// Whether `self` and `other` agree on every list of clauses and the collection.
    pub open spec fn same_clauses(self, other: FindQuery) -> bool {
        &&& self.collection@ == other.collection@
        &&& self.projections@ == other.projections@
        &&& self.filters@ == other.filters@
        &&& self.sorts@ == other.sorts@
        &&& self.groups@ == other.groups@
    }

    /// Creates a query of the given collection with no clause and no pagination.
    pub fn new(collection: &str) -> (r: Self)
        ensures
            r.collection@ == collection@,
            r.projections@ == Seq::<Projection>::empty(),
            r.filters@ == Seq::<Filter>::empty(),
            r.sorts@ == Seq::<Sort>::empty(),
            r.groups@.len() == 0,
            r.limit is None,
            r.offset is None,
    {
        FindQuery {
            collection: collection.to_owned(),
            projections: ProjectionList::new(),
            filters: FilterList::new(),
            sorts: SortList::new(),
            groups: GroupList::new(),
            limit: None,
            offset: None,
        }
    }

    /// Appends column selections and aggregates (SELECT clause).
    pub fn project(self, projections: ProjectionList) -> (r: Self)
        ensures
            r.projections@ == self.projections@ + projections@,
            r.same_but_projections(self),
    {
        let mut q = self;
        q.projections.extend(projections);
        q
    }

    /// Appends the projections that `build` adds to an empty builder.
    pub fn with_projection_builder<F>(self, build: F) -> (r: Self) where
        F: FnOnce(ProjectionBuilder) -> ProjectionBuilder,

        requires
            forall|b: ProjectionBuilder| b@ == Seq::<Projection>::empty() ==> call_requires(
                build,
                (b,),
            ),
        ensures
            exists|b0: ProjectionBuilder, b1: ProjectionBuilder|
                #![trigger call_ensures(build, (b0,), b1)]
                b0@ == Seq::<Projection>::empty() && call_ensures(build, (b0,), b1)
                    && r.projections@ == self.projections@ + b1@,
            r.same_but_projections(self),
    {
        let b0 = ProjectionBuilder::new();
        let ghost g0 = b0;
        let b1 = build(b0);
        let ghost g1 = b1;
        let r = self.project(b1.build());
        assert(call_ensures(build, (g0,), g1));
        r
    }

    /// Appends filter predicates (WHERE clause, implicit AND).
    pub fn filter(self, filters: FilterList) -> (r: Self)
        ensures
            r.filters@ == self.filters@ + filters@,
            r.same_but_filters(self),
    {
        let mut q = self;
        q.filters.extend(filters);
        q
    }

    /// Replaces the filter definition wholesale, for a list built outside
    /// the builder.
    pub fn with_filters(self, filters: FilterList) -> (r: Self)
        ensures
            r.filters@ == filters@,
            r.same_but_filters(self),
    {
        let mut q = self;
        q.filters = filters;
        q
    }

    /// Appends the predicates that `build` adds to an empty builder.
    pub fn with_filter_builder<F>(self, build: F) -> (r: Self) where
        F: FnOnce(FilterBuilder) -> FilterBuilder,

        requires
            forall|b: FilterBuilder| b@ == Seq::<Filter>::empty() ==> call_requires(build, (b,)),
        ensures
            exists|b0: FilterBuilder, b1: FilterBuilder|
                #![trigger call_ensures(build, (b0,), b1)]
                b0@ == Seq::<Filter>::empty() && call_ensures(build, (b0,), b1)
                    && r.filters@ == self.filters@ + b1@,
            r.same_but_filters(self),
    {
        let b0 = FilterBuilder::new();
        let ghost g0 = b0;
        let b1 = build(b0);
        let ghost g1 = b1;
        let r = self.filter(b1.build());
        assert(call_ensures(build, (g0,), g1));
        r
    }

    /// Appends sort instructions (ORDER BY clause); earlier ones take priority.
    pub fn order_by(self, sorts: SortList) -> (r: Self)
        ensures
            r.sorts@ == self.sorts@ + sorts@,
            r.same_but_sorts(self),
    {
        let mut q = self;
        q.sorts.extend(sorts);
        q
    }

    /// Appends the sort instructions that `build` adds to an empty builder.
    pub fn with_sort_builder<F>(self, build: F) -> (r: Self) where
        F: FnOnce(SortBuilder) -> SortBuilder,

        requires
            forall|b: SortBuilder| b@ == Seq::<Sort>::empty() ==> call_requires(build, (b,)),
        ensures
            exists|b0: SortBuilder, b1: SortBuilder|
                #![trigger call_ensures(build, (b0,), b1)]
                b0@ == Seq::<Sort>::empty() && call_ensures(build, (b0,), b1) && r.sorts@
                    == self.sorts@ + b1@,
            r.same_but_sorts(self),
    {
        let b0 = SortBuilder::new();
        let ghost g0 = b0;
        let b1 = build(b0);
        let ghost g1 = b1;
        let r = self.order_by(b1.build());
        assert(call_ensures(build, (g0,), g1));
        r
    }

    /// Appends group-by fields (GROUP BY clause).
    pub fn group_by(self, groups: GroupList) -> (r: Self)
        ensures
            r.groups@ == self.groups@ + groups@,
            r.same_but_groups(self),
    {
        let mut q = self;
        q.groups.extend(groups);
        q
    }

    /// Appends the group-by fields that `build` adds to an empty builder.
    pub fn with_group_builder<F>(self, build: F) -> (r: Self) where
        F: FnOnce(GroupBuilder) -> GroupBuilder,

        requires
            forall|b: GroupBuilder| b@ == Seq::<Seq<char>>::empty() ==> call_requires(build, (b,)),
        ensures
            exists|b0: GroupBuilder, b1: GroupBuilder|
                #![trigger call_ensures(build, (b0,), b1)]
                b0@ == Seq::<Seq<char>>::empty() && call_ensures(build, (b0,), b1)
                    && group_names(r.groups) == group_names(self.groups) + b1@,
            r.same_but_groups(self),
    {
        let b0 = GroupBuilder::new();
        let ghost g0 = b0;
        let b1 = build(b0);
        let ghost g1 = b1;
        let list = b1.build();
        let r = self.group_by(list);
        assert(group_names(r.groups) =~= group_names(self.groups) + group_names(list));
        assert(call_ensures(build, (g0,), g1));
        r
    }

    /// Sets the maximum number of rows to return (LIMIT).
    pub fn limit(self, limit: usize) -> (r: Self)
        ensures
            r.limit == Some(limit),
            r.offset == self.offset,
            r.same_clauses(self),
    {
        let mut q = self;
        q.limit = Some(limit);
        q
    }

    /// Sets the number of rows to skip before returning results (OFFSET).
    pub fn offset(self, offset: usize) -> (r: Self)
        ensures
            r.offset == Some(offset),
            r.limit == self.limit,
            r.same_clauses(self),
    {
        let mut q = self;
        q.offset = Some(offset);
        q
    }
}

} // verus!
