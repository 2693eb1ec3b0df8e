//! GROUP BY fields and the fluent builder that collects them.

use vstd::prelude::*;

use crate::lists::GroupList;
use crate::outside::{smol_new, smol_text};

verus! {

/// Fluent builder for a list of group-by field names.
pub struct GroupBuilder(GroupList);

impl View for GroupBuilder {
    type V = Seq<Seq<char>>;

    closed spec fn view(&self) -> Seq<Seq<char>> {
        self.0@.map_values(|f| smol_text(f))
    }
}

impl GroupBuilder {
    /// Creates an empty builder.
    pub fn new() -> (r: Self)
        ensures
            r@ == Seq::<Seq<char>>::empty(),
    {
        let r = GroupBuilder(GroupList::new());
        assert(r@ =~= Seq::<Seq<char>>::empty());
        r
    }

    /// Adds one field to group by.
    pub fn field(self, field: &str) -> (r: Self)
        ensures
            r@ == self@.push(field@),
    {
        let mut list = self.0;
        list.push(smol_new(field));
        let r = GroupBuilder(list);
        assert(r@ =~= self@.push(field@));
        r
    }

    /// Adds several fields to group by, in order.
    pub fn fields(self, fields: Vec<&str>) -> (r: Self)
        ensures
            r@ == self@ + fields@.map_values(|f: &str| f@),
    {
        let mut builder = self;
        let mut i: usize = 0;
        while i < fields.len()
            invariant
                i <= fields.len(),
                builder@ == self@ + fields@.subrange(0, i as int).map_values(|f: &str| f@),
            decreases fields.len() - i,
        {
            let ghost prev = builder@;
            builder = builder.field(fields[i]);
            assert(fields@.subrange(0, (i + 1) as int).map_values(|f: &str| f@)
                =~= fields@.subrange(0, i as int).map_values(|f: &str| f@).push(fields@[i as int]@));
            i = i + 1;
        }
        assert(fields@.subrange(0, fields.len() as int) =~= fields@);
        builder
    }

    /// The collected field names.
    pub fn build(self) -> (r: GroupList)
        ensures
            r@.map_values(|f| smol_text(f)) == self@,
    {
        self.0
    }
}

impl Default for GroupBuilder {
    fn default() -> (r: Self)
        ensures
            r@ == Seq::<Seq<char>>::empty(),
    {
        Self::new()
    }
}

} // verus!
