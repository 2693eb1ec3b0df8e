//! Clause builders: filters (WHERE), projections (SELECT), sorts (ORDER BY)
//! and groups (GROUP BY).

pub mod filter;
pub mod group;
pub mod projection;
pub mod sort;

pub use filter::{Filter, FilterBuilder};
pub use group::GroupBuilder;
pub use projection::{Projection, ProjectionBuilder};
pub use sort::{Sort, SortBuilder};
pub use crate::lists::{FilterList, GroupList, ProjectionList, SortList};

use vstd::prelude::*;

verus! {

/// A list of filter predicates, combined with implicit AND.
pub type FilterDefinition = FilterList;

/// A list of projections.
pub type ProjectionDefinition = ProjectionList;

/// A list of sort instructions.
pub type SortDefinition = SortList;

/// A list of group-by field names.
pub type GroupDefinition = GroupList;

} // verus!
