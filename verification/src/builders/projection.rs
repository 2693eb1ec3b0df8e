//! SELECT projections and the fluent builder that collects them.

use vstd::prelude::*;
use smol_str::SmolStr;

use crate::lists::ProjectionList;
use crate::outside::{smol_new, smol_text};

verus! {

/// A column selection, an aggregate, or an aliased projection.
#[derive(Debug)]
pub enum Projection {
    /// A single column: `SELECT price`
    Field(SmolStr),
    /// `inner_projection AS alias_name`, such as `SUM(price) AS total`
    Aliased(Box<Projection>, SmolStr),
    /// `COUNT(*)`: counts all rows, including those with NULL values
    CountAll,
    /// `COUNT(field)`: counts the non-null values of the column
    Count(SmolStr),
    /// `SUM(field)`: sum of the non-null values of the column
    Sum(SmolStr),
    /// `AVG(field)`: average of the non-null values
    Avg(SmolStr),
    /// `MIN(field)`: smallest non-null value of the column
    Min(SmolStr),
    /// `MAX(field)`: largest non-null value of the column
    Max(SmolStr),
}

/// Whether `b` is a copy of `a`: the same projection, over field names and
/// aliases with the same text.
pub open spec fn projection_copy(a: Projection, b: Projection) -> bool
    decreases a,
{
    match (a, b) {
        (Projection::Field(x), Projection::Field(y)) => smol_text(x) == smol_text(y),
        (Projection::Aliased(i, x), Projection::Aliased(j, y)) => projection_copy(*i, *j)
            && smol_text(x) == smol_text(y),
        (Projection::CountAll, Projection::CountAll) => true,
        (Projection::Count(x), Projection::Count(y)) => smol_text(x) == smol_text(y),
        (Projection::Sum(x), Projection::Sum(y)) => smol_text(x) == smol_text(y),
        (Projection::Avg(x), Projection::Avg(y)) => smol_text(x) == smol_text(y),
        (Projection::Min(x), Projection::Min(y)) => smol_text(x) == smol_text(y),
        (Projection::Max(x), Projection::Max(y)) => smol_text(x) == smol_text(y),
        _ => false,
    }
}

impl Clone for Projection {
    /// A deep copy: the same projection over copies of its field names.
    fn clone(&self) -> (r: Self)
        ensures
            projection_copy(*self, r),
        decreases self,
    {
        match self {
            Projection::Field(f) => Projection::Field(f.clone()),
            Projection::Aliased(inner, a) => Projection::Aliased(Box::new((**inner).clone()), a.clone()),
            Projection::CountAll => Projection::CountAll,
            Projection::Count(f) => Projection::Count(f.clone()),
            Projection::Sum(f) => Projection::Sum(f.clone()),
            Projection::Avg(f) => Projection::Avg(f.clone()),
            Projection::Min(f) => Projection::Min(f.clone()),
            Projection::Max(f) => Projection::Max(f.clone()),
        }
    }
}

impl Projection {
    /// Wraps this projection with an alias: `projection AS alias`.
    pub fn alias(self, alias: &str) -> (r: Projection)
        ensures
            r matches Projection::Aliased(inner, a) && *inner == self && smol_text(a) == alias@,
    {
        Projection::Aliased(Box::new(self), smol_new(alias))
    }
}

/// Fluent builder for a list of projections.
pub struct ProjectionBuilder(ProjectionList);

impl View for ProjectionBuilder {
    type V = Seq<Projection>;

    closed spec fn view(&self) -> Seq<Projection> {
        self.0@
    }
}

impl ProjectionBuilder {
    /// Creates an empty builder.
    pub fn new() -> (r: Self)
        ensures
            r@ == Seq::<Projection>::empty(),
    {
        ProjectionBuilder(ProjectionList::new())
    }

    /// Appends one projection.
    fn add(self, projection: Projection) -> (r: Self)
        ensures
            r@ == self@.push(projection),
    {
        let mut list = self.0;
        list.push(projection);
        ProjectionBuilder(list)
    }

    /// Appends the given projections, in order.
    pub fn extend(self, projections: ProjectionList) -> (r: Self)
        ensures
            r@ == self@ + projections@,
    {
        let mut list = self.0;
        list.extend(projections);
        ProjectionBuilder(list)
    }

    /// Selects a single field.
    pub fn field(self, field: &str) -> (r: Self)
        ensures
            r@.len() > 0 && r@ == self@.push(r@.last()),
            r@.last() matches Projection::Field(f) && smol_text(f) == field@,
    {
        self.add(Projection::Field(smol_new(field)))
    }

    /// Counts all rows.
    pub fn count_all(self) -> (r: Self)
        ensures
            r@ == self@.push(Projection::CountAll),
    {
        self.add(Projection::CountAll)
    }

    /// Counts the non-null values of a field.
    pub fn count(self, field: &str) -> (r: Self)
        ensures
            r@.len() > 0 && r@ == self@.push(r@.last()),
            r@.last() matches Projection::Count(f) && smol_text(f) == field@,
    {
        self.add(Projection::Count(smol_new(field)))
    }

    /// Sums the values of a field.
    pub fn sum(self, field: &str) -> (r: Self)
        ensures
            r@.len() > 0 && r@ == self@.push(r@.last()),
            r@.last() matches Projection::Sum(f) && smol_text(f) == field@,
    {
        self.add(Projection::Sum(smol_new(field)))
    }

    /// Averages the values of a field.
    pub fn avg(self, field: &str) -> (r: Self)
        ensures
            r@.len() > 0 && r@ == self@.push(r@.last()),
            r@.last() matches Projection::Avg(f) && smol_text(f) == field@,
    {
        self.add(Projection::Avg(smol_new(field)))
    }

    /// The smallest value of a field.
    pub fn min(self, field: &str) -> (r: Self)
        ensures
            r@.len() > 0 && r@ == self@.push(r@.last()),
            r@.last() matches Projection::Min(f) && smol_text(f) == field@,
    {
        self.add(Projection::Min(smol_new(field)))
    }

    /// The largest value of a field.
    pub fn max(self, field: &str) -> (r: Self)
        ensures
            r@.len() > 0 && r@ == self@.push(r@.last()),
            r@.last() matches Projection::Max(f) && smol_text(f) == field@,
    {
        self.add(Projection::Max(smol_new(field)))
    }

    /// The collected projections.
    pub fn build(self) -> (r: ProjectionList)
        ensures
            r@ == self@,
    {
        self.0
    }
}

impl Default for ProjectionBuilder {
    fn default() -> (r: Self)
        ensures
            r@ == Seq::<Projection>::empty(),
    {
        Self::new()
    }
}

/// Which kind of projection this is, numbered in declaration order.
pub open spec fn projection_kind(p: Projection) -> int {
    match p {
        Projection::Field(_) => 0,
        Projection::Aliased(_, _) => 1,
        Projection::CountAll => 2,
        Projection::Count(_) => 3,
        Projection::Sum(_) => 4,
        Projection::Avg(_) => 5,
        Projection::Min(_) => 6,
        Projection::Max(_) => 7,
    }
}

/// The text a projection names: its field, or for an aliased projection
/// its alias (empty for `COUNT(*)`).
pub open spec fn projection_name(p: Projection) -> Seq<char> {
    match p {
        Projection::Field(f) => smol_text(f),
        Projection::Aliased(_, a) => smol_text(a),
        Projection::CountAll => Seq::empty(),
        Projection::Count(f) => smol_text(f),
        Projection::Sum(f) => smol_text(f),
        Projection::Avg(f) => smol_text(f),
        Projection::Min(f) => smol_text(f),
        Projection::Max(f) => smol_text(f),
    }
}

/// A copy of a projection is the same projection: the same kind, naming
/// the same text, and for an aliased one, over a copy of the same inner
/// projection.
pub proof fn law_projection_copy_is_same(a: Projection, b: Projection)
    requires
        projection_copy(a, b),
    ensures
        projection_kind(a) == projection_kind(b),
        projection_name(a) == projection_name(b),
        a matches Projection::Aliased(i, _) ==> (b matches Projection::Aliased(j, _) && projection_copy(
            *i,
            *j,
        )),
{
}

} // verus!
