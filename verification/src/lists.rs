//! The short lists that queries keep their clauses in. Each holds a
//! `smallvec::SmallVec`, which keeps its first few items inline and spills to
//! the heap beyond them. Verus cannot declare `SmallVec` itself (its
//! parameter is bound by an outside trait), so each list is a struct of this
//! crate around one, trusted as a whole; its contents are named by a spec
//! function and every operation is a trusted call with a contract over that
//! name. Like `Vec::push`, the growing operations abort only when memory is
//! exhausted; that is not modelled.

use vstd::prelude::*;
use smallvec::SmallVec;
use smol_str::SmolStr;

use crate::outside::smol_text;

use crate::builders::filter::filter_copy;
use crate::builders::projection::projection_copy;
use crate::builders::sort::sort_copy;
use crate::builders::{Filter, Projection, Sort};

verus! {

/// A list of filter predicates (a WHERE clause), inline for up to 8 items.
#[verifier::external_body]
#[derive(Debug)]
pub struct FilterList {
    inner: SmallVec<[Filter; 8]>,
}

/// The items of a `FilterList`, in order.
pub uninterp spec fn filter_items(list: FilterList) -> Seq<Filter>;

impl View for FilterList {
    type V = Seq<Filter>;

    open spec fn view(&self) -> Seq<Filter> {
        filter_items(*self)
    }
}

impl FilterList {
    /// `SmallVec::new`: an empty list.
    #[verifier::external_body]
    fn sv_new() -> (r: Self)
        ensures
            filter_items(r) == Seq::<Filter>::empty(),
    {
        FilterList { inner: SmallVec::new() }
    }

    /// `SmallVec::push`: appends an item.
    #[verifier::external_body]
    fn sv_push(&mut self, item: Filter)
        ensures
            filter_items(*final(self)) == filter_items(*old(self)).push(item),
    {
        self.inner.push(item)
    }

    /// `SmallVec::extend` with the items of another list: appends them in order.
    #[verifier::external_body]
    fn sv_extend(&mut self, other: FilterList)
        ensures
            filter_items(*final(self)) == filter_items(*old(self)) + filter_items(other),
    {
        self.inner.extend(other.inner)
    }

    /// `SmallVec::len`: the number of items.
    #[verifier::external_body]
    fn sv_len(&self) -> (r: usize)
        ensures
            r == filter_items(*self).len(),
    {
        self.inner.len()
    }

    /// `SmallVec::as_slice`: the items in order.
    #[verifier::external_body]
    fn sv_as_slice(&self) -> (r: &[Filter])
        ensures
            r@ == filter_items(*self),
    {
        self.inner.as_slice()
    }

    /// An empty list.
    pub fn new() -> (r: Self)
        ensures
            r@ == Seq::<Filter>::empty(),
    {
        Self::sv_new()
    }

    /// Appends an item.
    pub fn push(&mut self, item: Filter)
        ensures
            final(self)@ == old(self)@.push(item),
    {
        self.sv_push(item)
    }

    /// Appends the items of another list, in order.
    pub fn extend(&mut self, other: FilterList)
        ensures
            final(self)@ == old(self)@ + other@,
    {
        self.sv_extend(other)
    }

    /// The number of items.
    pub fn len(&self) -> (r: usize)
        ensures
            r == self@.len(),
    {
        self.sv_len()
    }

    /// The items in order.
    pub fn as_slice(&self) -> (r: &[Filter])
        ensures
            r@ == self@,
    {
        self.sv_as_slice()
    }

    /// Whether the list has no item.
    pub fn is_empty(&self) -> (r: bool)
        ensures
            r == (self@.len() == 0),
    {
        self.sv_len() == 0
    }
}

/// A list of projections (a SELECT clause), inline for up to 10 items.
#[verifier::external_body]
#[derive(Debug)]
pub struct ProjectionList {
    inner: SmallVec<[Projection; 10]>,
}

/// The items of a `ProjectionList`, in order.
pub uninterp spec fn projection_items(list: ProjectionList) -> Seq<Projection>;

impl View for ProjectionList {
    type V = Seq<Projection>;

    open spec fn view(&self) -> Seq<Projection> {
        projection_items(*self)
    }
}

impl ProjectionList {
    /// `SmallVec::new`: an empty list.
    #[verifier::external_body]
    fn sv_new() -> (r: Self)
        ensures
            projection_items(r) == Seq::<Projection>::empty(),
    {
        ProjectionList { inner: SmallVec::new() }
    }

    /// `SmallVec::push`: appends an item.
    #[verifier::external_body]
    fn sv_push(&mut self, item: Projection)
        ensures
            projection_items(*final(self)) == projection_items(*old(self)).push(item),
    {
        self.inner.push(item)
    }

    /// `SmallVec::extend` with the items of another list: appends them in order.
    #[verifier::external_body]
    fn sv_extend(&mut self, other: ProjectionList)
        ensures
            projection_items(*final(self)) == projection_items(*old(self)) + projection_items(other),
    {
        self.inner.extend(other.inner)
    }

    /// `SmallVec::len`: the number of items.
    #[verifier::external_body]
    fn sv_len(&self) -> (r: usize)
        ensures
            r == projection_items(*self).len(),
    {
        self.inner.len()
    }

    /// `SmallVec::as_slice`: the items in order.
    #[verifier::external_body]
    fn sv_as_slice(&self) -> (r: &[Projection])
        ensures
            r@ == projection_items(*self),
    {
        self.inner.as_slice()
    }

    /// An empty list.
    pub fn new() -> (r: Self)
        ensures
            r@ == Seq::<Projection>::empty(),
    {
        Self::sv_new()
    }

    /// Appends an item.
    pub fn push(&mut self, item: Projection)
        ensures
            final(self)@ == old(self)@.push(item),
    {
        self.sv_push(item)
    }

    /// Appends the items of another list, in order.
    pub fn extend(&mut self, other: ProjectionList)
        ensures
            final(self)@ == old(self)@ + other@,
    {
        self.sv_extend(other)
    }

    /// The number of items.
    pub fn len(&self) -> (r: usize)
        ensures
            r == self@.len(),
    {
        self.sv_len()
    }

    /// The items in order.
    pub fn as_slice(&self) -> (r: &[Projection])
        ensures
            r@ == self@,
    {
        self.sv_as_slice()
    }

    /// Whether the list has no item.
    pub fn is_empty(&self) -> (r: bool)
        ensures
            r == (self@.len() == 0),
    {
        self.sv_len() == 0
    }
}

/// A list of sort instructions (an ORDER BY clause), inline for up to 4 items.
#[verifier::external_body]
#[derive(Debug)]
pub struct SortList {
    inner: SmallVec<[Sort; 4]>,
}

/// The items of a `SortList`, in order.
pub uninterp spec fn sort_items(list: SortList) -> Seq<Sort>;

impl View for SortList {
    type V = Seq<Sort>;

    open spec fn view(&self) -> Seq<Sort> {
        sort_items(*self)
    }
}

impl SortList {
    /// `SmallVec::new`: an empty list.
    #[verifier::external_body]
    fn sv_new() -> (r: Self)
        ensures
            sort_items(r) == Seq::<Sort>::empty(),
    {
        SortList { inner: SmallVec::new() }
    }

    /// `SmallVec::push`: appends an item.
    #[verifier::external_body]
    fn sv_push(&mut self, item: Sort)
        ensures
            sort_items(*final(self)) == sort_items(*old(self)).push(item),
    {
        self.inner.push(item)
    }

    /// `SmallVec::extend` with the items of another list: appends them in order.
    #[verifier::external_body]
    fn sv_extend(&mut self, other: SortList)
        ensures
            sort_items(*final(self)) == sort_items(*old(self)) + sort_items(other),
    {
        self.inner.extend(other.inner)
    }

    /// `SmallVec::len`: the number of items.
    #[verifier::external_body]
    fn sv_len(&self) -> (r: usize)
        ensures
            r == sort_items(*self).len(),
    {
        self.inner.len()
    }

    /// `SmallVec::as_slice`: the items in order.
    #[verifier::external_body]
    fn sv_as_slice(&self) -> (r: &[Sort])
        ensures
            r@ == sort_items(*self),
    {
        self.inner.as_slice()
    }

    /// An empty list.
    pub fn new() -> (r: Self)
        ensures
            r@ == Seq::<Sort>::empty(),
    {
        Self::sv_new()
    }

    /// Appends an item.
    pub fn push(&mut self, item: Sort)
        ensures
            final(self)@ == old(self)@.push(item),
    {
        self.sv_push(item)
    }

    /// Appends the items of another list, in order.
    pub fn extend(&mut self, other: SortList)
        ensures
            final(self)@ == old(self)@ + other@,
    {
        self.sv_extend(other)
    }

    /// The number of items.
    pub fn len(&self) -> (r: usize)
        ensures
            r == self@.len(),
    {
        self.sv_len()
    }

    /// The items in order.
    pub fn as_slice(&self) -> (r: &[Sort])
        ensures
            r@ == self@,
    {
        self.sv_as_slice()
    }

    /// Whether the list has no item.
    pub fn is_empty(&self) -> (r: bool)
        ensures
            r == (self@.len() == 0),
    {
        self.sv_len() == 0
    }
}

/// A list of group-by field names (a GROUP BY clause), inline for up to 4 items.
#[verifier::external_body]
#[derive(Debug)]
pub struct GroupList {
    inner: SmallVec<[SmolStr; 4]>,
}

/// The items of a `GroupList`, in order.
pub uninterp spec fn group_items(list: GroupList) -> Seq<SmolStr>;

impl View for GroupList {
    type V = Seq<SmolStr>;

    open spec fn view(&self) -> Seq<SmolStr> {
        group_items(*self)
    }
}

impl GroupList {
    /// `SmallVec::new`: an empty list.
    #[verifier::external_body]
    fn sv_new() -> (r: Self)
        ensures
            group_items(r) == Seq::<SmolStr>::empty(),
    {
        GroupList { inner: SmallVec::new() }
    }

    /// `SmallVec::push`: appends an item.
    #[verifier::external_body]
    fn sv_push(&mut self, item: SmolStr)
        ensures
            group_items(*final(self)) == group_items(*old(self)).push(item),
    {
        self.inner.push(item)
    }

    /// `SmallVec::extend` with the items of another list: appends them in order.
    #[verifier::external_body]
    fn sv_extend(&mut self, other: GroupList)
        ensures
            group_items(*final(self)) == group_items(*old(self)) + group_items(other),
    {
        self.inner.extend(other.inner)
    }

    /// `SmallVec::len`: the number of items.
    #[verifier::external_body]
    fn sv_len(&self) -> (r: usize)
        ensures
            r == group_items(*self).len(),
    {
        self.inner.len()
    }

    /// `SmallVec::as_slice`: the items in order.
    #[verifier::external_body]
    fn sv_as_slice(&self) -> (r: &[SmolStr])
        ensures
            r@ == group_items(*self),
    {
        self.inner.as_slice()
    }

    /// An empty list.
    pub fn new() -> (r: Self)
        ensures
            r@ == Seq::<SmolStr>::empty(),
    {
        Self::sv_new()
    }

    /// Appends an item.
    pub fn push(&mut self, item: SmolStr)
        ensures
            final(self)@ == old(self)@.push(item),
    {
        self.sv_push(item)
    }

    /// Appends the items of another list, in order.
    pub fn extend(&mut self, other: GroupList)
        ensures
            final(self)@ == old(self)@ + other@,
    {
        self.sv_extend(other)
    }

    /// The number of items.
    pub fn len(&self) -> (r: usize)
        ensures
            r == self@.len(),
    {
        self.sv_len()
    }

    /// The items in order.
    pub fn as_slice(&self) -> (r: &[SmolStr])
        ensures
            r@ == self@,
    {
        self.sv_as_slice()
    }

    /// Whether the list has no item.
    pub fn is_empty(&self) -> (r: bool)
        ensures
            r == (self@.len() == 0),
    {
        self.sv_len() == 0
    }
}

impl FilterList {
    /// `SmallVec::pop`: removes and returns the last item, if any.
    #[verifier::external_body]
    fn sv_pop(&mut self) -> (r: Option<Filter>)
        ensures
            filter_items(*old(self)).len() == 0 ==> r is None && filter_items(*final(self))
                == filter_items(*old(self)),
            filter_items(*old(self)).len() > 0 ==> r == Some(filter_items(*old(self)).last())
                && filter_items(*final(self)) == filter_items(*old(self)).drop_last(),
    {
        self.inner.pop()
    }

    /// `SmallVec::into_vec`: the items, in order, in a `Vec`.
    #[verifier::external_body]
    fn sv_into_vec(self) -> (r: Vec<Filter>)
        ensures
            r@ == filter_items(self),
    {
        self.inner.into_vec()
    }

    /// Removes and returns the last item, if any.
    pub fn pop(&mut self) -> (r: Option<Filter>)
        ensures
            old(self)@.len() == 0 ==> r is None && final(self)@ == old(self)@,
            old(self)@.len() > 0 ==> r == Some(old(self)@.last()) && final(self)@ == old(
                self,
            )@.drop_last(),
    {
        self.sv_pop()
    }

    /// The items, in order, in a `Vec`.
    pub fn into_vec(self) -> (r: Vec<Filter>)
        ensures
            r@ == self@,
    {
        self.sv_into_vec()
    }
}

impl Clone for FilterList {
    /// A copy holding a clone of each item, in order.
    fn clone(&self) -> (r: Self)
        ensures
            r@.len() == self@.len(),
            forall|j: int| 0 <= j < self@.len() ==> filter_copy(#[trigger] self@[j], r@[j]),
    {
        let items = self.as_slice();
        let mut out = FilterList::new();
        let mut i: usize = 0;
        while i < items.len()
            invariant
                items@ == self@,
                i <= items@.len(),
                out@.len() == i,
                forall|j: int| 0 <= j < i ==> filter_copy(#[trigger] self@[j], out@[j]),
            decreases items@.len() - i,
        {
            out.push(items[i].clone());
            i = i + 1;
        }
        out
    }
}

impl Clone for ProjectionList {
    /// A copy holding a clone of each item, in order.
    fn clone(&self) -> (r: Self)
        ensures
            r@.len() == self@.len(),
            forall|j: int| 0 <= j < self@.len() ==> projection_copy(#[trigger] self@[j], r@[j]),
    {
        let items = self.as_slice();
        let mut out = ProjectionList::new();
        let mut i: usize = 0;
        while i < items.len()
            invariant
                items@ == self@,
                i <= items@.len(),
                out@.len() == i,
                forall|j: int| 0 <= j < i ==> projection_copy(#[trigger] self@[j], out@[j]),
            decreases items@.len() - i,
        {
            out.push(items[i].clone());
            i = i + 1;
        }
        out
    }
}

impl Clone for SortList {
    /// A copy holding a clone of each item, in order.
    fn clone(&self) -> (r: Self)
        ensures
            r@.len() == self@.len(),
            forall|j: int| 0 <= j < self@.len() ==> sort_copy(#[trigger] self@[j], r@[j]),
    {
        let items = self.as_slice();
        let mut out = SortList::new();
        let mut i: usize = 0;
        while i < items.len()
            invariant
                items@ == self@,
                i <= items@.len(),
                out@.len() == i,
                forall|j: int| 0 <= j < i ==> sort_copy(#[trigger] self@[j], out@[j]),
            decreases items@.len() - i,
        {
            out.push(items[i].clone());
            i = i + 1;
        }
        out
    }
}

impl Clone for GroupList {
    /// A copy holding a clone of each item, in order.
    fn clone(&self) -> (r: Self)
        ensures
            r@.len() == self@.len(),
            forall|j: int| 0 <= j < self@.len() ==> smol_text(#[trigger] r@[j]) == smol_text(self@[j]),
    {
        let items = self.as_slice();
        let mut out = GroupList::new();
        let mut i: usize = 0;
        while i < items.len()
            invariant
                items@ == self@,
                i <= items@.len(),
                out@.len() == i,
                forall|j: int| 0 <= j < i ==> smol_text(#[trigger] out@[j]) == smol_text(self@[j]),
            decreases items@.len() - i,
        {
            out.push(items[i].clone());
            i = i + 1;
        }
        out
    }
}

} // verus!
