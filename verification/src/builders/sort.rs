//! ORDER BY instructions and the fluent builder that collects them.

use vstd::prelude::*;
use smol_str::SmolStr;

use crate::lists::SortList;
use crate::outside::{smol_new, smol_text};

verus! {

/// A sort instruction: direction, placement of NULLs, or random order.
#[derive(Debug)]
pub enum Sort {
    /// `field ASC`: smallest first
    Asc(SmolStr),
    /// `field DESC`: largest first
    Desc(SmolStr),
    /// `field ASC NULLS FIRST`
    AscNullsFirst(SmolStr),
    /// `field ASC NULLS LAST`
    AscNullsLast(SmolStr),
    /// `field DESC NULLS FIRST`
    DescNullsFirst(SmolStr),
    /// `field DESC NULLS LAST`
    DescNullsLast(SmolStr),
    /// `ORDER BY RANDOM()`
    Random,
}

/// Whether `b` is a copy of `a`: the same instruction, over a field name
/// with the same text.
pub open spec fn sort_copy(a: Sort, b: Sort) -> bool {
    match (a, b) {
        (Sort::Asc(x), Sort::Asc(y)) => smol_text(x) == smol_text(y),
        (Sort::Desc(x), Sort::Desc(y)) => smol_text(x) == smol_text(y),
        (Sort::AscNullsFirst(x), Sort::AscNullsFirst(y)) => smol_text(x) == smol_text(y),
        (Sort::AscNullsLast(x), Sort::AscNullsLast(y)) => smol_text(x) == smol_text(y),
        (Sort::DescNullsFirst(x), Sort::DescNullsFirst(y)) => smol_text(x) == smol_text(y),
        (Sort::DescNullsLast(x), Sort::DescNullsLast(y)) => smol_text(x) == smol_text(y),
        (Sort::Random, Sort::Random) => true,
        _ => false,
    }
}

impl Clone for Sort {
    /// A copy over a copy of the field name.
    fn clone(&self) -> (r: Self)
        ensures
            sort_copy(*self, r),
    {
        match self {
            Sort::Asc(f) => Sort::Asc(f.clone()),
            Sort::Desc(f) => Sort::Desc(f.clone()),
            Sort::AscNullsFirst(f) => Sort::AscNullsFirst(f.clone()),
            Sort::AscNullsLast(f) => Sort::AscNullsLast(f.clone()),
            Sort::DescNullsFirst(f) => Sort::DescNullsFirst(f.clone()),
            Sort::DescNullsLast(f) => Sort::DescNullsLast(f.clone()),
            Sort::Random => Sort::Random,
        }
    }
}

/// Fluent builder for a list of sort instructions; earlier instructions take
/// higher priority.
pub struct SortBuilder(SortList);

impl View for SortBuilder {
    type V = Seq<Sort>;

    closed spec fn view(&self) -> Seq<Sort> {
        self.0@
    }
}

impl SortBuilder {
    /// Creates an empty builder.
    pub fn new() -> (r: Self)
        ensures
            r@ == Seq::<Sort>::empty(),
    {
        SortBuilder(SortList::new())
    }

    /// Appends one sort instruction.
    fn add(self, sort: Sort) -> (r: Self)
        ensures
            r@ == self@.push(sort),
    {
        let mut list = self.0;
        list.push(sort);
        SortBuilder(list)
    }

    /// Appends the given sort instructions, in order.
    pub fn extend(self, sorts: SortList) -> (r: Self)
        ensures
            r@ == self@ + sorts@,
    {
        let mut list = self.0;
        list.extend(sorts);
        SortBuilder(list)
    }

    /// Sorts ascending.
    pub fn asc(self, field: &str) -> (r: Self)
        ensures
            r@.len() > 0 && r@ == self@.push(r@.last()),
            r@.last() matches Sort::Asc(f) && smol_text(f) == field@,
    {
        self.add(Sort::Asc(smol_new(field)))
    }

    /// Sorts descending.
    pub fn desc(self, field: &str) -> (r: Self)
        ensures
            r@.len() > 0 && r@ == self@.push(r@.last()),
            r@.last() matches Sort::Desc(f) && smol_text(f) == field@,
    {
        self.add(Sort::Desc(smol_new(field)))
    }

    /// Sorts ascending with NULLs first.
    pub fn asc_nulls_first(self, field: &str) -> (r: Self)
        ensures
            r@.len() > 0 && r@ == self@.push(r@.last()),
            r@.last() matches Sort::AscNullsFirst(f) && smol_text(f) == field@,
    {
        self.add(Sort::AscNullsFirst(smol_new(field)))
    }

    /// Sorts ascending with NULLs last.
    pub fn asc_nulls_last(self, field: &str) -> (r: Self)
        ensures
            r@.len() > 0 && r@ == self@.push(r@.last()),
            r@.last() matches Sort::AscNullsLast(f) && smol_text(f) == field@,
    {
        self.add(Sort::AscNullsLast(smol_new(field)))
    }

    /// Sorts descending with NULLs first.
    pub fn desc_nulls_first(self, field: &str) -> (r: Self)
        ensures
            r@.len() > 0 && r@ == self@.push(r@.last()),
            r@.last() matches Sort::DescNullsFirst(f) && smol_text(f) == field@,
    {
        self.add(Sort::DescNullsFirst(smol_new(field)))
    }

    /// Sorts descending with NULLs last.
    pub fn desc_nulls_last(self, field: &str) -> (r: Self)
        ensures
            r@.len() > 0 && r@ == self@.push(r@.last()),
            r@.last() matches Sort::DescNullsLast(f) && smol_text(f) == field@,
    {
        self.add(Sort::DescNullsLast(smol_new(field)))
    }

    /// Sorts in random order.
    pub fn random(self) -> (r: Self)
        ensures
            r@ == self@.push(Sort::Random),
    {
        self.add(Sort::Random)
    }

    /// The collected sort instructions.
    pub fn build(self) -> (r: SortList)
        ensures
            r@ == self@,
    {
        self.0
    }
}

impl Default for SortBuilder {
    fn default() -> (r: Self)
        ensures
            r@ == Seq::<Sort>::empty(),
    {
        Self::new()
    }
}

/// Which kind of sort instruction this is, numbered in declaration order.
pub open spec fn sort_kind(s: Sort) -> int {
    match s {
        Sort::Asc(_) => 0,
        Sort::Desc(_) => 1,
        Sort::AscNullsFirst(_) => 2,
        Sort::AscNullsLast(_) => 3,
        Sort::DescNullsFirst(_) => 4,
        Sort::DescNullsLast(_) => 5,
        Sort::Random => 6,
    }
}

/// The text of the field a sort instruction orders by (empty for `Random`).
pub open spec fn sort_field(s: Sort) -> Seq<char> {
    match s {
        Sort::Asc(f) => smol_text(f),
        Sort::Desc(f) => smol_text(f),
        Sort::AscNullsFirst(f) => smol_text(f),
        Sort::AscNullsLast(f) => smol_text(f),
        Sort::DescNullsFirst(f) => smol_text(f),
        Sort::DescNullsLast(f) => smol_text(f),
        Sort::Random => Seq::empty(),
    }
}

/// A copy of a sort instruction is the same instruction: the same kind
/// (ascending stays ascending) on a field with the same text.
pub proof fn law_sort_copy_is_same(a: Sort, b: Sort)
    requires
        sort_copy(a, b),
    ensures
        sort_kind(a) == sort_kind(b),
        sort_field(a) == sort_field(b),
{
}

} // verus!
