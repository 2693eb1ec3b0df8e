//! WHERE predicates and the fluent builder that collects them.

use vstd::prelude::*;
use smol_str::SmolStr;

use crate::lists::FilterList;
use crate::outside::{smol_new, smol_text};
use crate::value::{DbValue, ValueModel};

verus! {

/// A single filter predicate of a WHERE clause.
///
/// The variants cover null checks, scalar comparisons, pattern matching,
/// regular expressions, ranges, set membership and logical combinators.
/// Drivers translate them into their native query syntax. Several top-level
/// filters in one list are combined with implicit AND.
#[derive(Debug)]
pub enum Filter {
    /// `field IS NULL`
    IsNull(SmolStr),
    /// `field IS NOT NULL`
    IsNotNull(SmolStr),
    /// `field = value`
    Eq(SmolStr, DbValue),
    /// `field != value`
    Neq(SmolStr, DbValue),
    /// `field < value`
    Lt(SmolStr, DbValue),
    /// `field <= value`
    Lte(SmolStr, DbValue),
    /// `field > value`
    Gt(SmolStr, DbValue),
    /// `field >= value`
    Gte(SmolStr, DbValue),
    /// `field LIKE 'value%'`
    StartsWith(SmolStr, DbValue),
    /// `field NOT LIKE 'value%'`
    NotStartsWith(SmolStr, DbValue),
    /// `field LIKE '%value'`
    EndsWith(SmolStr, DbValue),
    /// `field NOT LIKE '%value'`
    NotEndsWith(SmolStr, DbValue),
    /// `field LIKE '%value%'`
    Contains(SmolStr, DbValue),
    /// `field NOT LIKE '%value%'`
    NotContains(SmolStr, DbValue),
    /// `field ~ regex`
    Regex(SmolStr, SmolStr),
    /// `field BETWEEN low AND high` (inclusive)
    Between(SmolStr, (DbValue, DbValue)),
    /// `field NOT BETWEEN low AND high`
    NotBetween(SmolStr, (DbValue, DbValue)),
    /// `field IN (v1, v2, ...)`
    In(SmolStr, Vec<DbValue>),
    /// `field NOT IN (v1, v2, ...)`
    NotIn(SmolStr, Vec<DbValue>),
    /// `(a AND b AND ...)`
    And(Vec<Filter>),
    /// `(a OR b OR ...)`
    Or(Vec<Filter>),
    /// `NOT predicate`
    Not(Box<Filter>),
}

/// Whether `b` holds copies of the values of `a`, in order.
pub open spec fn values_copy(a: Seq<DbValue>, b: Seq<DbValue>) -> bool {
    &&& a.len() == b.len()
    &&& forall|i: int| 0 <= i < a.len() ==> (#[trigger] a[i])@ == b[i]@
}

/// Whether `b` is a copy of `a`: the same predicate, over field names with
/// the same text and values with the same view.
pub open spec fn filter_copy(a: Filter, b: Filter) -> bool
    decreases a,
{
    match (a, b) {
        (Filter::IsNull(x), Filter::IsNull(y)) => smol_text(x) == smol_text(y),
        (Filter::IsNotNull(x), Filter::IsNotNull(y)) => smol_text(x) == smol_text(y),
        (Filter::Eq(x, v), Filter::Eq(y, w)) => smol_text(x) == smol_text(y) && v@ == w@,
        (Filter::Neq(x, v), Filter::Neq(y, w)) => smol_text(x) == smol_text(y) && v@ == w@,
        (Filter::Lt(x, v), Filter::Lt(y, w)) => smol_text(x) == smol_text(y) && v@ == w@,
        (Filter::Lte(x, v), Filter::Lte(y, w)) => smol_text(x) == smol_text(y) && v@ == w@,
        (Filter::Gt(x, v), Filter::Gt(y, w)) => smol_text(x) == smol_text(y) && v@ == w@,
        (Filter::Gte(x, v), Filter::Gte(y, w)) => smol_text(x) == smol_text(y) && v@ == w@,
        (Filter::StartsWith(x, v), Filter::StartsWith(y, w)) => smol_text(x) == smol_text(y) && v@ == w@,
        (Filter::NotStartsWith(x, v), Filter::NotStartsWith(y, w)) => smol_text(x) == smol_text(y) && v@ == w@,
        (Filter::EndsWith(x, v), Filter::EndsWith(y, w)) => smol_text(x) == smol_text(y) && v@ == w@,
        (Filter::NotEndsWith(x, v), Filter::NotEndsWith(y, w)) => smol_text(x) == smol_text(y) && v@ == w@,
        (Filter::Contains(x, v), Filter::Contains(y, w)) => smol_text(x) == smol_text(y) && v@ == w@,
        (Filter::NotContains(x, v), Filter::NotContains(y, w)) => smol_text(x) == smol_text(y) && v@ == w@,
        (Filter::Regex(x, p), Filter::Regex(y, q)) => smol_text(x) == smol_text(y) && smol_text(p)
            == smol_text(q),
        (Filter::Between(x, (l, h)), Filter::Between(y, (m, k))) => smol_text(x) == smol_text(y)
            && l@ == m@ && h@ == k@,
        (Filter::NotBetween(x, (l, h)), Filter::NotBetween(y, (m, k))) => smol_text(x) == smol_text(
            y,
        ) && l@ == m@ && h@ == k@,
        (Filter::In(x, vs), Filter::In(y, ws)) => smol_text(x) == smol_text(y) && values_copy(vs@, ws@),
        (Filter::NotIn(x, vs), Filter::NotIn(y, ws)) => smol_text(x) == smol_text(y) && values_copy(
            vs@,
            ws@,
        ),
        (Filter::And(g), Filter::And(h)) => group_copy(g, h),
        (Filter::Or(g), Filter::Or(h)) => group_copy(g, h),
        (Filter::Not(i), Filter::Not(j)) => filter_copy(*i, *j),
        _ => false,
    }
}

/// Whether `h` holds copies of the predicates of `g`, in order.
pub open spec fn group_copy(g: Vec<Filter>, h: Vec<Filter>) -> bool
    decreases g,
{
    &&& g@.len() == h@.len()
    &&& forall|i: int| 0 <= i < g@.len() ==> filter_copy(#[trigger] g@[i], h@[i])
}

/// A copy of a group of predicates, each cloned, in order.
fn clone_group(g: &Vec<Filter>) -> (r: Vec<Filter>)
    ensures
        group_copy(*g, r),
    decreases g,
{
    let mut out: Vec<Filter> = Vec::new();
    let mut i: usize = 0;
    while i < g.len()
        invariant
            i <= g@.len(),
            out@.len() == i,
            forall|j: int| 0 <= j < i ==> filter_copy(#[trigger] g@[j], out@[j]),
        decreases g@.len() - i,
    {
        assert(decreases_to!(g => g@[i as int]));
        out.push(g[i].clone());
        i = i + 1;
    }
    out
}

impl Clone for Filter {
    /// A deep copy: the same predicate over copies of its field names and
    /// values.
    fn clone(&self) -> (r: Self)
        ensures
            filter_copy(*self, r),
        decreases self,
    {
        match self {
            Filter::IsNull(f) => Filter::IsNull(f.clone()),
            Filter::IsNotNull(f) => Filter::IsNotNull(f.clone()),
            Filter::Eq(f, v) => Filter::Eq(f.clone(), v.clone()),
            Filter::Neq(f, v) => Filter::Neq(f.clone(), v.clone()),
            Filter::Lt(f, v) => Filter::Lt(f.clone(), v.clone()),
            Filter::Lte(f, v) => Filter::Lte(f.clone(), v.clone()),
            Filter::Gt(f, v) => Filter::Gt(f.clone(), v.clone()),
            Filter::Gte(f, v) => Filter::Gte(f.clone(), v.clone()),
            Filter::StartsWith(f, v) => Filter::StartsWith(f.clone(), v.clone()),
            Filter::NotStartsWith(f, v) => Filter::NotStartsWith(f.clone(), v.clone()),
            Filter::EndsWith(f, v) => Filter::EndsWith(f.clone(), v.clone()),
            Filter::NotEndsWith(f, v) => Filter::NotEndsWith(f.clone(), v.clone()),
            Filter::Contains(f, v) => Filter::Contains(f.clone(), v.clone()),
            Filter::NotContains(f, v) => Filter::NotContains(f.clone(), v.clone()),
            Filter::Regex(f, r) => Filter::Regex(f.clone(), r.clone()),
            Filter::Between(f, (lo, hi)) => Filter::Between(f.clone(), (lo.clone(), hi.clone())),
            Filter::NotBetween(f, (lo, hi)) => Filter::NotBetween(f.clone(), (lo.clone(), hi.clone())),
            Filter::In(f, vs) => Filter::In(f.clone(), vs.clone()),
            Filter::NotIn(f, vs) => Filter::NotIn(f.clone(), vs.clone()),
            Filter::And(g) => Filter::And(clone_group(g)),
            Filter::Or(g) => Filter::Or(clone_group(g)),
            Filter::Not(b) => Filter::Not(Box::new((**b).clone())),
        }
    }
}

/// Whether `after` is `before` with one more filter at its end.
pub open spec fn appends_one(before: Seq<Filter>, after: Seq<Filter>) -> bool {
    after.len() > 0 && after == before.push(after.last())
}

/// Whether `after` is `before` with the group `(a AND b AND ...)` of
/// `group` appended, or `before` itself when `group` is empty.
pub open spec fn and_grouped(before: Seq<Filter>, group: Seq<Filter>, after: Seq<Filter>) -> bool {
    &&& group.len() == 0 ==> after == before
    &&& group.len() > 0 ==> appends_one(before, after) && (after.last() matches Filter::And(g)
        && g@ == group)
}

/// Whether `after` is `before` with the group `(a OR b OR ...)` of `group`
/// appended, or `before` itself when `group` is empty.
pub open spec fn or_grouped(before: Seq<Filter>, group: Seq<Filter>, after: Seq<Filter>) -> bool {
    &&& group.len() == 0 ==> after == before
    &&& group.len() > 0 ==> appends_one(before, after) && (after.last() matches Filter::Or(g)
        && g@ == group)
}

/// Whether `after` is `before` with the negation of `group` appended:
/// nothing for an empty group, `NOT p` for one predicate, `NOT (a AND b AND
/// ...)` for more.
pub open spec fn negated(before: Seq<Filter>, group: Seq<Filter>, after: Seq<Filter>) -> bool {
    &&& group.len() == 0 ==> after == before
    &&& group.len() == 1 ==> after == before.push(Filter::Not(Box::new(group[0])))
    &&& group.len() > 1 ==> appends_one(before, after) && (after.last() matches Filter::Not(b)
        && (*b matches Filter::And(g) && g@ == group))
}

/// Fluent builder for a list of filter predicates (implicit AND).
///
/// Each method appends one predicate; `and`, `or` and `not` append a group
/// built from a list of predicates.
pub struct FilterBuilder(FilterList);

impl View for FilterBuilder {
    type V = Seq<Filter>;

    closed spec fn view(&self) -> Seq<Filter> {
        self.0@
    }
}

impl FilterBuilder {
    /// Creates an empty builder.
    pub fn new() -> (r: Self)
        ensures
            r@ == Seq::<Filter>::empty(),
    {
        FilterBuilder(FilterList::new())
    }

    /// Appends one predicate.
    pub fn add(self, filter: Filter) -> (r: Self)
        ensures
            r@ == self@.push(filter),
    {
        let mut list = self.0;
        list.push(filter);
        FilterBuilder(list)
    }

    /// Appends the given predicates, in order.
    pub fn extend(self, filters: FilterList) -> (r: Self)
        ensures
            r@ == self@ + filters@,
    {
        let mut list = self.0;
        list.extend(filters);
        FilterBuilder(list)
    }

    /// Appends the given predicates, in order (the same as `extend`).
    pub fn extends(self, filters: FilterList) -> (r: Self)
        ensures
            r@ == self@ + filters@,
    {
        self.extend(filters)
    }

    /// Appends `field IS NULL`.
    pub fn is_null(self, field: &str) -> (r: Self)
        ensures
            appends_one(self@, r@),
            r@.last() matches Filter::IsNull(f) && smol_text(f) == field@,
    {
        self.add(Filter::IsNull(smol_new(field)))
    }

    /// Appends `field IS NOT NULL`.
    pub fn is_not_null(self, field: &str) -> (r: Self)
        ensures
            appends_one(self@, r@),
            r@.last() matches Filter::IsNotNull(f) && smol_text(f) == field@,
    {
        self.add(Filter::IsNotNull(smol_new(field)))
    }

    /// Appends `field = value`.
    pub fn eq(self, field: &str, value: DbValue) -> (r: Self)
        ensures
            appends_one(self@, r@),
            r@.last() matches Filter::Eq(f, x) && smol_text(f) == field@ && x == value,
    {
        self.add(Filter::Eq(smol_new(field), value))
    }

    /// Appends `field != value`.
    pub fn neq(self, field: &str, value: DbValue) -> (r: Self)
        ensures
            appends_one(self@, r@),
            r@.last() matches Filter::Neq(f, x) && smol_text(f) == field@ && x == value,
    {
        self.add(Filter::Neq(smol_new(field), value))
    }

    /// Appends `field < value`.
    pub fn lt(self, field: &str, value: DbValue) -> (r: Self)
        ensures
            appends_one(self@, r@),
            r@.last() matches Filter::Lt(f, x) && smol_text(f) == field@ && x == value,
    {
        self.add(Filter::Lt(smol_new(field), value))
    }

    /// Appends `field <= value`.
    pub fn lte(self, field: &str, value: DbValue) -> (r: Self)
        ensures
            appends_one(self@, r@),
            r@.last() matches Filter::Lte(f, x) && smol_text(f) == field@ && x == value,
    {
        self.add(Filter::Lte(smol_new(field), value))
    }

    /// Appends `field > value`.
    pub fn gt(self, field: &str, value: DbValue) -> (r: Self)
        ensures
            appends_one(self@, r@),
            r@.last() matches Filter::Gt(f, x) && smol_text(f) == field@ && x == value,
    {
        self.add(Filter::Gt(smol_new(field), value))
    }

    /// Appends `field >= value`.
    pub fn gte(self, field: &str, value: DbValue) -> (r: Self)
        ensures
            appends_one(self@, r@),
            r@.last() matches Filter::Gte(f, x) && smol_text(f) == field@ && x == value,
    {
        self.add(Filter::Gte(smol_new(field), value))
    }

    /// Appends `field LIKE 'value%'`.
    pub fn starts_with(self, field: &str, value: DbValue) -> (r: Self)
        ensures
            appends_one(self@, r@),
            r@.last() matches Filter::StartsWith(f, x) && smol_text(f) == field@ && x == value,
    {
        self.add(Filter::StartsWith(smol_new(field), value))
    }

    /// Appends `field NOT LIKE 'value%'`.
    pub fn not_starts_with(self, field: &str, value: DbValue) -> (r: Self)
        ensures
            appends_one(self@, r@),
            r@.last() matches Filter::NotStartsWith(f, x) && smol_text(f) == field@ && x == value,
    {
        self.add(Filter::NotStartsWith(smol_new(field), value))
    }

    /// Appends `field LIKE '%value%'`.
    pub fn contains(self, field: &str, value: DbValue) -> (r: Self)
        ensures
            appends_one(self@, r@),
            r@.last() matches Filter::Contains(f, x) && smol_text(f) == field@ && x == value,
    {
        self.add(Filter::Contains(smol_new(field), value))
    }

    /// Appends `field NOT LIKE '%value%'`.
    pub fn not_contains(self, field: &str, value: DbValue) -> (r: Self)
        ensures
            appends_one(self@, r@),
            r@.last() matches Filter::NotContains(f, x) && smol_text(f) == field@ && x == value,
    {
        self.add(Filter::NotContains(smol_new(field), value))
    }

    /// Appends `field LIKE '%value'`.
    pub fn ends_with(self, field: &str, value: DbValue) -> (r: Self)
        ensures
            appends_one(self@, r@),
            r@.last() matches Filter::EndsWith(f, x) && smol_text(f) == field@ && x == value,
    {
        self.add(Filter::EndsWith(smol_new(field), value))
    }

    /// Appends `field NOT LIKE '%value'`.
    pub fn not_ends_with(self, field: &str, value: DbValue) -> (r: Self)
        ensures
            appends_one(self@, r@),
            r@.last() matches Filter::NotEndsWith(f, x) && smol_text(f) == field@ && x == value,
    {
        self.add(Filter::NotEndsWith(smol_new(field), value))
    }

    /// Appends a regular-expression match on `field`.
    pub fn regex(self, field: &str, regex: &str) -> (r: Self)
        ensures
            appends_one(self@, r@),
            r@.last() matches Filter::Regex(f, x) && smol_text(f) == field@ && smol_text(x)
                == regex@,
    {
        self.add(Filter::Regex(smol_new(field), smol_new(regex)))
    }

    /// Appends `field BETWEEN low AND high` (inclusive).
    pub fn between(self, field: &str, low: DbValue, high: DbValue) -> (r: Self)
        ensures
            appends_one(self@, r@),
            r@.last() matches Filter::Between(f, (lo, hi)) && smol_text(f) == field@ && lo == low
                && hi == high,
    {
        self.add(Filter::Between(smol_new(field), (low, high)))
    }

    /// Appends `field NOT BETWEEN low AND high`.
    pub fn not_between(self, field: &str, low: DbValue, high: DbValue) -> (r: Self)
        ensures
            appends_one(self@, r@),
            r@.last() matches Filter::NotBetween(f, (lo, hi)) && smol_text(f) == field@ && lo
                == low && hi == high,
    {
        self.add(Filter::NotBetween(smol_new(field), (low, high)))
    }

    /// Appends `field IN (values)`.
    pub fn is_in(self, field: &str, values: Vec<DbValue>) -> (r: Self)
        ensures
            appends_one(self@, r@),
            r@.last() matches Filter::In(f, vs) && smol_text(f) == field@ && vs@ == values@,
    {
        self.add(Filter::In(smol_new(field), values))
    }

    /// Appends `field NOT IN (values)`.
    pub fn not_in(self, field: &str, values: Vec<DbValue>) -> (r: Self)
        ensures
            appends_one(self@, r@),
            r@.last() matches Filter::NotIn(f, vs) && smol_text(f) == field@ && vs@ == values@,
    {
        self.add(Filter::NotIn(smol_new(field), values))
    }

    /// Appends the group `(a AND b AND ...)` of the given predicates; an
    /// empty group is dropped.
    pub fn and(self, filters: FilterList) -> (r: Self)
        ensures
            and_grouped(self@, filters@, r@),
    {
        let group = filters.into_vec();
        if group.len() == 0 {
            self
        } else {
            self.add(Filter::And(group))
        }
    }

    /// Appends the group `(a OR b OR ...)` of the given predicates; an empty
    /// group is dropped.
    pub fn or(self, filters: FilterList) -> (r: Self)
        ensures
            or_grouped(self@, filters@, r@),
    {
        let group = filters.into_vec();
        if group.len() == 0 {
            self
        } else {
            self.add(Filter::Or(group))
        }
    }

    /// Appends the negation of the given predicates: nothing for none,
    /// `NOT p` for one, `NOT (a AND b AND ...)` for more.
    pub fn not(self, filters: FilterList) -> (r: Self)
        ensures
            negated(self@, filters@, r@),
    {
        let mut filters = filters;
        let n = filters.len();
        if n == 0 {
            self
        } else if n == 1 {
            match filters.pop() {
                Some(only) => self.add(Filter::Not(Box::new(only))),
                None => self,
            }
        } else {
            self.add(Filter::Not(Box::new(Filter::And(filters.into_vec()))))
        }
    }

    /// Appends, grouped with AND, the predicates that `build` adds to an
    /// empty builder; an empty group is dropped.
    pub fn and_with<F>(self, build: F) -> (r: Self) where F: FnOnce(FilterBuilder) -> FilterBuilder,
        requires
            forall|b: FilterBuilder| b@ == Seq::<Filter>::empty() ==> call_requires(build, (b,)),
        ensures
            exists|b0: FilterBuilder, b1: FilterBuilder|
                #![trigger call_ensures(build, (b0,), b1)]
                b0@ == Seq::<Filter>::empty() && call_ensures(build, (b0,), b1) && and_grouped(
                    self@,
                    b1@,
                    r@,
                ),
    {
        let b0 = FilterBuilder::new();
        let ghost g0 = b0;
        let b1 = build(b0);
        let ghost g1 = b1;
        let r = self.and(b1.build());
        assert(call_ensures(build, (g0,), g1));
        r
    }

    /// Appends, grouped with OR, the predicates that `build` adds to an empty
    /// builder; an empty group is dropped.
    pub fn or_with<F>(self, build: F) -> (r: Self) where F: FnOnce(FilterBuilder) -> FilterBuilder,
        requires
            forall|b: FilterBuilder| b@ == Seq::<Filter>::empty() ==> call_requires(build, (b,)),
        ensures
            exists|b0: FilterBuilder, b1: FilterBuilder|
                #![trigger call_ensures(build, (b0,), b1)]
                b0@ == Seq::<Filter>::empty() && call_ensures(build, (b0,), b1) && or_grouped(
                    self@,
                    b1@,
                    r@,
                ),
    {
        let b0 = FilterBuilder::new();
        let ghost g0 = b0;
        let b1 = build(b0);
        let ghost g1 = b1;
        let r = self.or(b1.build());
        assert(call_ensures(build, (g0,), g1));
        r
    }

    /// Appends the negation of the predicates that `build` adds to an empty
    /// builder: nothing for none, `NOT p` for one, `NOT (a AND b AND ...)`
    /// for more.
    pub fn not_with<F>(self, build: F) -> (r: Self) where F: FnOnce(FilterBuilder) -> FilterBuilder,
        requires
            forall|b: FilterBuilder| b@ == Seq::<Filter>::empty() ==> call_requires(build, (b,)),
        ensures
            exists|b0: FilterBuilder, b1: FilterBuilder|
                #![trigger call_ensures(build, (b0,), b1)]
                b0@ == Seq::<Filter>::empty() && call_ensures(build, (b0,), b1) && negated(
                    self@,
                    b1@,
                    r@,
                ),
    {
        let b0 = FilterBuilder::new();
        let ghost g0 = b0;
        let b1 = build(b0);
        let ghost g1 = b1;
        let r = self.not(b1.build());
        assert(call_ensures(build, (g0,), g1));
        r
    }

    /// The collected predicates.
    pub fn build(self) -> (r: FilterList)
        ensures
            r@ == self@,
    {
        self.0
    }
}

impl Default for FilterBuilder {
    fn default() -> (r: Self)
        ensures
            r@ == Seq::<Filter>::empty(),
    {
        Self::new()
    }
}

// =========================================================================
// Laws
// =========================================================================

/// Which kind of predicate a filter is, numbered in declaration order.
pub open spec fn filter_kind(f: Filter) -> int {
    match f {
        Filter::IsNull(_) => 0,
        Filter::IsNotNull(_) => 1,
        Filter::Eq(_, _) => 2,
        Filter::Neq(_, _) => 3,
        Filter::Lt(_, _) => 4,
        Filter::Lte(_, _) => 5,
        Filter::Gt(_, _) => 6,
        Filter::Gte(_, _) => 7,
        Filter::StartsWith(_, _) => 8,
        Filter::NotStartsWith(_, _) => 9,
        Filter::EndsWith(_, _) => 10,
        Filter::NotEndsWith(_, _) => 11,
        Filter::Contains(_, _) => 12,
        Filter::NotContains(_, _) => 13,
        Filter::Regex(_, _) => 14,
        Filter::Between(_, _) => 15,
        Filter::NotBetween(_, _) => 16,
        Filter::In(_, _) => 17,
        Filter::NotIn(_, _) => 18,
        Filter::And(_) => 19,
        Filter::Or(_) => 20,
        Filter::Not(_) => 21,
    }
}

/// The text of the field a filter tests (empty for `And`, `Or`, `Not`).
pub open spec fn filter_field(f: Filter) -> Seq<char> {
    match f {
        Filter::IsNull(f) => smol_text(f),
        Filter::IsNotNull(f) => smol_text(f),
        Filter::Eq(f, _) => smol_text(f),
        Filter::Neq(f, _) => smol_text(f),
        Filter::Lt(f, _) => smol_text(f),
        Filter::Lte(f, _) => smol_text(f),
        Filter::Gt(f, _) => smol_text(f),
        Filter::Gte(f, _) => smol_text(f),
        Filter::StartsWith(f, _) => smol_text(f),
        Filter::NotStartsWith(f, _) => smol_text(f),
        Filter::EndsWith(f, _) => smol_text(f),
        Filter::NotEndsWith(f, _) => smol_text(f),
        Filter::Contains(f, _) => smol_text(f),
        Filter::NotContains(f, _) => smol_text(f),
        Filter::Regex(f, _) => smol_text(f),
        Filter::Between(f, _) => smol_text(f),
        Filter::NotBetween(f, _) => smol_text(f),
        Filter::In(f, _) => smol_text(f),
        Filter::NotIn(f, _) => smol_text(f),
        _ => Seq::empty(),
    }
}

/// The values a filter compares against, in order (empty where it has none).
pub open spec fn filter_operands(f: Filter) -> Seq<ValueModel> {
    match f {
        Filter::Eq(_, x) => seq![x@],
        Filter::Neq(_, x) => seq![x@],
        Filter::Lt(_, x) => seq![x@],
        Filter::Lte(_, x) => seq![x@],
        Filter::Gt(_, x) => seq![x@],
        Filter::Gte(_, x) => seq![x@],
        Filter::StartsWith(_, x) => seq![x@],
        Filter::NotStartsWith(_, x) => seq![x@],
        Filter::EndsWith(_, x) => seq![x@],
        Filter::NotEndsWith(_, x) => seq![x@],
        Filter::Contains(_, x) => seq![x@],
        Filter::NotContains(_, x) => seq![x@],
        Filter::Between(_, (l, h)) => seq![l@, h@],
        Filter::NotBetween(_, (l, h)) => seq![l@, h@],
        Filter::In(_, vs) => vs@.map_values(|v: DbValue| v@),
        Filter::NotIn(_, vs) => vs@.map_values(|v: DbValue| v@),
        _ => Seq::empty(),
    }
}

/// The pattern text of a `Regex` filter (empty for any other).
pub open spec fn filter_pattern(f: Filter) -> Seq<char> {
    match f {
        Filter::Regex(_, p) => smol_text(p),
        _ => Seq::empty(),
    }
}

/// The predicates a filter groups or negates, in order (empty where it has
/// none).
pub open spec fn filter_children(f: Filter) -> Seq<Filter> {
    match f {
        Filter::And(g) => g@,
        Filter::Or(g) => g@,
        Filter::Not(b) => seq![*b],
        _ => Seq::empty(),
    }
}

/// A copy of a filter is the same predicate: the same kind (`Lt` stays
/// `Lt`), on a field with the same text, against values with the same views
/// in the same order, with the same pattern, and over copies of the same
/// sub-predicates in the same order.
pub proof fn law_filter_copy_is_same_predicate(a: Filter, b: Filter)
    requires
        filter_copy(a, b),
    ensures
        filter_kind(a) == filter_kind(b),
        filter_field(a) == filter_field(b),
        filter_operands(a) == filter_operands(b),
        filter_pattern(a) == filter_pattern(b),
        filter_children(a).len() == filter_children(b).len(),
        forall|i: int|
            0 <= i < filter_children(a).len() ==> filter_copy(
                #[trigger] filter_children(a)[i],
                filter_children(b)[i],
            ),
{
    match (a, b) {
        (Filter::In(_, vs), Filter::In(_, ws)) => {
            assert(filter_operands(a) =~= filter_operands(b));
        },
        (Filter::NotIn(_, vs), Filter::NotIn(_, ws)) => {
            assert(filter_operands(a) =~= filter_operands(b));
        },
        (Filter::And(g), Filter::And(h)) => {
            assert(group_copy(g, h));
        },
        (Filter::Or(g), Filter::Or(h)) => {
            assert(group_copy(g, h));
        },
        (Filter::Not(x), Filter::Not(y)) => {
            assert(filter_copy(*x, *y));
            assert(filter_children(a)[0] == *x);
        },
        _ => {},
    }
}

} // verus!
