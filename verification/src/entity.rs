//! Entities: a value bound for or loaded from a collection, its tracking
//! state, and the queries that saving or deleting it sends.

use vstd::prelude::*;

use crate::builders::{Filter, FilterBuilder, FilterList};
use crate::outside::smol_text;
use crate::queries::insert::row_of;
use crate::queries::{DeleteQuery, InsertQuery, UpdateQuery};
use crate::types::DbRow;
use crate::value::{is_nan, law_eq_reflexive, values_equal, DbValue, ValueModel};

verus! {

/// Whether `filters` holds, in order, one equality `column = value` for each
/// of the key columns.
pub open spec fn key_filters(keys: Seq<(&'static str, DbValue)>, filters: Seq<Filter>) -> bool {
    &&& filters.len() == keys.len()
    &&& forall|j: int|
        0 <= j < keys.len() ==> (#[trigger] filters[j] matches Filter::Eq(f, v) && smol_text(f)
            == keys[j].0@ && v == keys[j].1)
}

/// The filters that select a row by its key columns: one equality
/// `column = value` per key column, in order.
pub fn key_filter(keys: Vec<(&'static str, DbValue)>) -> (r: FilterList)
    ensures
        key_filters(keys@, r@),
{
    let ghost given = keys@;
    let mut builder = FilterBuilder::new();
    for pair in it: keys
        invariant
            it.seq() == given,
            builder@.len() == it.index(),
            forall|j: int|
                0 <= j < it.index() ==> (#[trigger] builder@[j] matches Filter::Eq(f, v) && smol_text(
                    f,
                ) == given[j].0@ && v == given[j].1),
    {
        let ghost before = builder@;
        let ghost k = it.index();
        let (key, val) = pair;
        builder = builder.eq(key, val);
        assert forall|j: int| 0 <= j < k implies builder@[j] == before[j] by {
            assert(builder@ == before.push(builder@.last()));
        }
        assert(builder@[k] == builder@.last());
    }
    builder.build()
}

/// A type stored as rows of a collection.
///
/// Implementors name the collection, list the primary-key columns and all
/// stored columns with their values, and read a value back from a row.
pub trait DbEntityTrait: Sized + Clone {
    /// The name of the collection.
    fn collection_name() -> &'static str;

    /// The primary-key columns and their values.
    fn primary_key(&self) -> Vec<(&'static str, DbValue)>;

    /// The stored columns and their values.
    fn to_db(&self) -> Vec<(&'static str, DbValue)>;

    /// Reads a value from a row.
    fn from_db<R: DbRow + ?Sized>(row: &R) -> Self;

    /// The filters that select this value's row: one equality per
    /// primary-key column, in order.
    fn primary_key_filter(&self) -> (r: FilterList)
        ensures
            exists|keys: Vec<(&'static str, DbValue)>|
                call_ensures(Self::primary_key, (self,), keys) && #[trigger] key_filters(keys@, r@),
    {
        let pk = self.primary_key();
        let ghost keys = pk;
        let r = key_filter(pk);
        assert(key_filters(keys@, r@));
        r
    }
}

/// The tracking state of an entity.
///
/// - `Untracked`: new, not saved yet;
/// - `TrackedWith(original)`: in the database, with the value last saved or
///   loaded, for change detection;
/// - `Detached`: loaded but no longer tracked (read-only).
#[derive(Debug, Clone)]
pub enum TrackingState<T> {
    Untracked,
    TrackedWith(T),
    Detached,
}

impl<T> TrackingState<T> {
    /// Whether the entity is tracked.
    pub fn is_tracked(&self) -> (r: bool)
        ensures
            r == (*self is TrackedWith),
    {
        match self {
            TrackingState::TrackedWith(_) => true,
            _ => false,
        }
    }

    /// Whether the entity is untracked.
    pub fn is_untracked(&self) -> (r: bool)
        ensures
            r == (*self is Untracked),
    {
        match self {
            TrackingState::Untracked => true,
            _ => false,
        }
    }

    /// Whether the entity is detached.
    pub fn is_detached(&self) -> (r: bool)
        ensures
            r == (*self is Detached),
    {
        match self {
            TrackingState::Detached => true,
            _ => false,
        }
    }

    /// The original value, if tracked.
    pub fn original(&self) -> (r: Option<&T>)
        ensures
            r is Some <==> *self is TrackedWith,
            r matches Some(o) ==> *self == TrackingState::TrackedWith(*o),
    {
        match self {
            TrackingState::TrackedWith(original) => Some(original),
            _ => None,
        }
    }
}

/// Whether `name` is the name of one of the key columns.
pub open spec fn is_key(keys: Seq<(&'static str, DbValue)>, name: Seq<char>) -> bool {
    exists|k: int| 0 <= k < keys.len() && (#[trigger] keys[k]).0@ == name
}

/// The columns that saving a tracked value sends, among the first `n`
/// positions: in order, those that are not key columns and whose value does
/// not compare equal to the original's at the same position.
pub open spec fn changes_upto(
    current: Seq<(&'static str, DbValue)>,
    original: Seq<(&'static str, DbValue)>,
    keys: Seq<(&'static str, DbValue)>,
    n: int,
) -> Seq<(Seq<char>, ValueModel)>
    decreases n,
{
    if n <= 0 {
        Seq::empty()
    } else {
        let rest = changes_upto(current, original, keys, n - 1);
        let c = current[n - 1];
        if !is_key(keys, c.0@) && !values_equal(c.1@, original[n - 1].1@) {
            rest.push((c.0@, c.1@))
        } else {
            rest
        }
    }
}

/// The changed columns of `current` against `original`, over the positions
/// that both have.
pub open spec fn changes(
    current: Seq<(&'static str, DbValue)>,
    original: Seq<(&'static str, DbValue)>,
    keys: Seq<(&'static str, DbValue)>,
) -> Seq<(Seq<char>, ValueModel)> {
    let n = if current.len() <= original.len() {
        current.len()
    } else {
        original.len()
    };
    changes_upto(current, original, keys, n as int)
}

/// The plain view of columns with owned names.
pub open spec fn columns_view(row: Seq<(String, DbValue)>) -> Seq<(Seq<char>, ValueModel)> {
    row.map_values(|p: (String, DbValue)| (p.0@, p.1@))
}

/// Whether two texts are the same.
fn same_text(a: &str, b: &str) -> (r: bool)
    ensures
        r == (a@ == b@),
{
    let x = a.to_owned();
    let y = b.to_owned();
    x == y
}

/// Whether `name` names one of the key columns.
fn is_key_column(keys: &Vec<(&'static str, DbValue)>, name: &str) -> (r: bool)
    ensures
        r == is_key(keys@, name@),
{
    let mut k: usize = 0;
    while k < keys.len()
        invariant
            k <= keys@.len(),
            forall|j: int| 0 <= j < k ==> (#[trigger] keys@[j]).0@ != name@,
        decreases keys@.len() - k,
    {
        if same_text(keys[k].0, name) {
            assert(keys@[k as int].0@ == name@);
            return true;
        }
        k = k + 1;
    }
    false
}

/// The columns that saving a tracked value sends: position by position over
/// the columns that both lists have, the non-key columns whose current value
/// does not compare equal to the original one.
pub fn changed_fields(
    current: &Vec<(&'static str, DbValue)>,
    original: &Vec<(&'static str, DbValue)>,
    keys: &Vec<(&'static str, DbValue)>,
) -> (r: Vec<(String, DbValue)>)
    ensures
        columns_view(r@) == changes(current@, original@, keys@),
{
    let n = if current.len() <= original.len() {
        current.len()
    } else {
        original.len()
    };
    let mut out: Vec<(String, DbValue)> = Vec::new();
    let mut i: usize = 0;
    while i < n
        invariant
            i <= n,
            n <= current@.len(),
            n <= original@.len(),
            n == (if current@.len() <= original@.len() {
                current@.len()
            } else {
                original@.len()
            }),
            columns_view(out@) == changes_upto(current@, original@, keys@, i as int),
        decreases n - i,
    {
        let name = current[i].0;
        let key = is_key_column(keys, name);
        if !key && current[i].1 != original[i].1 {
            let value = current[i].1.clone();
            let ghost before = out@;
            out.push((name.to_owned(), value));
            assert(columns_view(out@) =~= columns_view(before).push((name@, value@)));
        }
        i = i + 1;
    }
    out
}

/// What saving an entity sends to the database.
pub enum SaveAction {
    /// Insert the entity's row.
    Insert(InsertQuery),
    /// Update the changed columns of the entity's row.
    Update(UpdateQuery),
    /// Send nothing.
    Skip,
}

/// Whether `q` inserts into `collection` exactly one row: the given
/// columns, in order.
pub open spec fn inserts(q: InsertQuery, collection: Seq<char>, fields: Seq<(&'static str, DbValue)>) -> bool {
    &&& q.collection@ == collection
    &&& q.values@.len() == 1
    &&& row_of(q.values@[0]@, fields)
}

/// Whether `q` sets, in `collection` and on the rows that `filters` select,
/// exactly the given columns.
pub open spec fn updates(
    q: UpdateQuery,
    collection: Seq<char>,
    columns: Seq<(Seq<char>, ValueModel)>,
    filters: Seq<Filter>,
) -> bool {
    &&& q.collection@ == collection
    &&& columns_view(q.updates@) == columns
    &&& q.filters@ == filters
}

/// Whether `q` deletes, from `collection`, the rows that `filters` select.
pub open spec fn deletes(q: DeleteQuery, collection: Seq<char>, filters: Seq<Filter>) -> bool {
    &&& q.collection@ == collection
    &&& q.filters@ == filters
}

/// What saving a new entity sends: an insert of all its columns into its
/// collection.
pub fn insert_action(collection: &str, fields: Vec<(&'static str, DbValue)>) -> (r: SaveAction)
    ensures
        r matches SaveAction::Insert(q) && inserts(q, collection@, fields@),
{
    let q = InsertQuery::new(collection).insert(fields);
    SaveAction::Insert(q)
}

/// What saving a tracked entity sends, from its current and original
/// columns, its key columns and the filters that select its row: nothing
/// when no non-key column changed, else an update of exactly the changed
/// non-key columns on that row.
pub fn update_action(
    collection: &str,
    current: &Vec<(&'static str, DbValue)>,
    original: &Vec<(&'static str, DbValue)>,
    keys: &Vec<(&'static str, DbValue)>,
    row_filter: FilterList,
) -> (r: SaveAction)
    ensures
        changes(current@, original@, keys@).len() == 0 ==> r is Skip,
        changes(current@, original@, keys@).len() > 0 ==> (r matches SaveAction::Update(q) && updates(
            q,
            collection@,
            changes(current@, original@, keys@),
            row_filter@,
        )),
{
    let changed = changed_fields(current, original, keys);
    if changed.len() == 0 {
        SaveAction::Skip
    } else {
        let q = UpdateQuery::new(collection).filter(row_filter).set_row(changed);
        assert(q.filters@ == row_filter@);
        SaveAction::Update(q)
    }
}

/// An entity value together with its tracking state.
///
/// An untracked entity is new: saving inserts it. A tracked entity keeps the
/// value last loaded or saved: saving updates only the columns that changed
/// since (never the primary key), and deleting removes its row. A detached
/// entity is read-only: saving and deleting send nothing.
///
/// Saving and deleting run in two steps around the database call: the
/// action (`save_action`, `delete_action`) says what to send, and once the
/// database has accepted it, `saved` or `deleted` moves the state on.
#[derive(Debug, Clone)]
pub struct DbEntity<T: DbEntityTrait> {
    value: T,
    state: TrackingState<T>,
}

impl<T: DbEntityTrait> DbEntity<T> {
    /// The current value.
    pub closed spec fn current(&self) -> T {
        self.value
    }

    /// The tracking state.
    pub closed spec fn tracking(&self) -> TrackingState<T> {
        self.state
    }

    /// A new, untracked entity.
    pub fn new(entity: T) -> (r: Self)
        ensures
            r.current() == entity,
            r.tracking() is Untracked,
    {
        DbEntity { value: entity, state: TrackingState::Untracked }
    }

    /// A tracked entity read from a row: the original is the value that
    /// `T::from_db` read, the current value a clone of it.
    pub fn from_db<R: DbRow + ?Sized>(row: &R) -> (r: Self)
        ensures
            exists|v: T|
                #[trigger] call_ensures(T::from_db, (row,), v) && r.tracking()
                    == TrackingState::TrackedWith(v) && vstd::pervasive::cloned(v, r.current()),
    {
        let entity = T::from_db(row);
        let ghost g = entity;
        let r = DbEntity { value: entity.clone(), state: TrackingState::TrackedWith(entity) };
        assert(call_ensures(T::from_db, (row,), g));
        r
    }

    /// A detached (read-only) entity holding the value that `T::from_db`
    /// read from a row.
    pub fn from_db_readonly<R: DbRow + ?Sized>(row: &R) -> (r: Self)
        ensures
            call_ensures(T::from_db, (row,), r.current()),
            r.tracking() is Detached,
    {
        let entity = T::from_db(row);
        DbEntity { value: entity, state: TrackingState::Detached }
    }

    /// The current value.
    pub fn get(&self) -> (r: &T)
        ensures
            *r == self.current(),
    {
        &self.value
    }

    /// The current value, to modify; the tracking state stays as it is.
    pub fn get_mut(&mut self) -> (r: &mut T)
        ensures
            *r == old(self).current(),
            final(self).current() == *final(r),
            final(self).tracking() == old(self).tracking(),
    {
        &mut self.value
    }

    /// The current value, consuming the entity.
    pub fn into_inner(self) -> (r: T)
        ensures
            r == self.current(),
    {
        self.value
    }

    /// The tracking state.
    pub fn get_state(&self) -> (r: &TrackingState<T>)
        ensures
            *r == self.tracking(),
    {
        &self.state
    }

    /// Whether the entity is tracked.
    pub fn is_tracked(&self) -> (r: bool)
        ensures
            r == (self.tracking() is TrackedWith),
    {
        self.state.is_tracked()
    }

    /// Whether the entity is untracked.
    pub fn is_untracked(&self) -> (r: bool)
        ensures
            r == (self.tracking() is Untracked),
    {
        self.state.is_untracked()
    }

    /// Whether the entity is detached.
    pub fn is_detached(&self) -> (r: bool)
        ensures
            r == (self.tracking() is Detached),
    {
        self.state.is_detached()
    }

    /// What saving the entity sends: for an untracked entity, an insert of
    /// all its columns (`T::to_db`) into `T::collection_name()`; for a
    /// tracked one, what `update_action` decides from the current and the
    /// original columns, the current key columns and the current value's
    /// `primary_key_filter`; for a detached one, nothing.
    pub fn save_action(&self) -> (r: SaveAction)
        ensures
            self.tracking() is Untracked ==> exists|name: &'static str, fields: Vec<(&'static str, DbValue)>|
                call_ensures(T::collection_name, (), name) && call_ensures(
                    T::to_db,
                    (&self.current(),),
                    fields,
                ) && #[trigger] inserts_saved(r, name@, fields@),
            self.tracking() is Detached ==> r is Skip,
            self.tracking() matches TrackingState::TrackedWith(o) ==> exists|
                cur: Vec<(&'static str, DbValue)>,
                orig: Vec<(&'static str, DbValue)>,
                keys: Vec<(&'static str, DbValue)>,
            |
                call_ensures(T::to_db, (&self.current(),), cur) && call_ensures(T::to_db, (&o,), orig)
                    && call_ensures(T::primary_key, (&self.current(),), keys) && #[trigger] tracked_saved::<T>(
                    r,
                    self.current(),
                    cur@,
                    orig@,
                    keys@,
                ),
    {
        match &self.state {
            TrackingState::Untracked => {
                let name = T::collection_name();
                let fields = T::to_db(&self.value);
                let ghost g = fields;
                let r = insert_action(name, fields);
                assert(inserts_saved(r, name@, g@));
                r
            },
            TrackingState::TrackedWith(original) => {
                let current_fields = T::to_db(&self.value);
                let original_fields = T::to_db(original);
                let keys = T::primary_key(&self.value);
                let changed = changed_fields(&current_fields, &original_fields, &keys);
                if changed.len() == 0 {
                    assert(tracked_saved::<T>(SaveAction::Skip, self.current(), current_fields@, original_fields@, keys@));
                    SaveAction::Skip
                } else {
                    let name = T::collection_name();
                    let row_filter = T::primary_key_filter(&self.value);
                    let ghost f = row_filter;
                    let q = UpdateQuery::new(name).filter(row_filter).set_row(changed);
                    let r = SaveAction::Update(q);
                    assert(updates_saved(r, name@, changes(current_fields@, original_fields@, keys@), f@));
                    assert(tracked_saved::<T>(r, self.current(), current_fields@, original_fields@, keys@));
                    r
                }
            },
            TrackingState::Detached => SaveAction::Skip,
        }
    }

    /// Records that the database accepted the save: the entity becomes
    /// tracked, with a clone of its current value as the original; a
    /// detached entity stays detached.
    pub fn saved(&mut self)
        ensures
            final(self).current() == old(self).current(),
            old(self).tracking() is Detached ==> final(self).tracking() is Detached,
            !(old(self).tracking() is Detached) ==> (final(self).tracking() matches TrackingState::TrackedWith(o)
                && vstd::pervasive::cloned(old(self).current(), o)),
    {
        if !self.state.is_detached() {
            self.state = TrackingState::TrackedWith(self.value.clone());
        }
    }

    /// What deleting the entity sends: for a tracked entity, a delete from
    /// `T::collection_name()` of the rows that the current value's
    /// `primary_key_filter` selects; otherwise nothing.
    pub fn delete_action(&self) -> (r: Option<DeleteQuery>)
        ensures
            r is Some <==> self.tracking() is TrackedWith,
            r is Some ==> exists|name: &'static str, filters: FilterList|
                call_ensures(T::collection_name, (), name) && call_ensures(
                    T::primary_key_filter,
                    (&self.current(),),
                    filters,
                ) && #[trigger] deletes(r->0, name@, filters@),
    {
        if self.state.is_tracked() {
            let name = T::collection_name();
            let row_filter = T::primary_key_filter(&self.value);
            let ghost f = row_filter;
            let r = Some(DeleteQuery::new(name).filter(row_filter));
            assert(deletes(r->0, name@, f@));
            r
        } else {
            None
        }
    }

    /// Records that the database accepted the delete: a tracked entity
    /// becomes detached; any other keeps its state.
    pub fn deleted(&mut self)
        ensures
            final(self).current() == old(self).current(),
            old(self).tracking() is TrackedWith ==> final(self).tracking() is Detached,
            !(old(self).tracking() is TrackedWith) ==> final(self).tracking() == old(
                self,
            ).tracking(),
    {
        if self.state.is_tracked() {
            self.state = TrackingState::Detached;
        }
    }
}

/// Whether `r` inserts into `collection` exactly one row of the given
/// columns.
pub open spec fn inserts_saved(r: SaveAction, collection: Seq<char>, fields: Seq<(&'static str, DbValue)>) -> bool {
    r matches SaveAction::Insert(q) && inserts(q, collection, fields)
}

/// Whether `r` is what saving `value`, tracked, sends given its current
/// columns, its original columns and its key columns: nothing when no
/// non-key column changed; else an update, in `T`'s collection and on the
/// rows that `value`'s `primary_key_filter` selects, of exactly the changed
/// non-key columns.
pub open spec fn tracked_saved<T: DbEntityTrait>(
    r: SaveAction,
    value: T,
    current: Seq<(&'static str, DbValue)>,
    original: Seq<(&'static str, DbValue)>,
    keys: Seq<(&'static str, DbValue)>,
) -> bool {
    let ch = changes(current, original, keys);
    &&& ch.len() == 0 ==> r is Skip
    &&& ch.len() > 0 ==> exists|name: &'static str, filters: FilterList|
        call_ensures(T::collection_name, (), name) && call_ensures(
            T::primary_key_filter,
            (&value,),
            filters,
        ) && #[trigger] updates_saved(r, name@, ch, filters@)
}

/// Whether `r` is an update in `collection` of exactly the given columns on
/// the rows that `filters` select.
pub open spec fn updates_saved(
    r: SaveAction,
    collection: Seq<char>,
    columns: Seq<(Seq<char>, ValueModel)>,
    filters: Seq<Filter>,
) -> bool {
    r matches SaveAction::Update(q) && updates(q, collection, columns, filters)
}

/// Every column that saving sends among the first `n` positions comes from
/// some position `i < n`: it is not a key column, and its value does not
/// compare equal to the original's.
proof fn lemma_changes_upto_sources(
    current: Seq<(&'static str, DbValue)>,
    original: Seq<(&'static str, DbValue)>,
    keys: Seq<(&'static str, DbValue)>,
    n: int,
    j: int,
)
    requires
        0 <= j < changes_upto(current, original, keys, n).len(),
    ensures
        exists|i: int|
            0 <= i < n && (#[trigger] current[i]).0@ == changes_upto(current, original, keys, n)[j].0
                && current[i].1@ == changes_upto(current, original, keys, n)[j].1 && !is_key(
                keys,
                current[i].0@,
            ) && !values_equal(current[i].1@, original[i].1@),
    decreases n,
{
    if n > 0 {
        let rest = changes_upto(current, original, keys, n - 1);
        if j < rest.len() {
            lemma_changes_upto_sources(current, original, keys, n - 1, j);
            let i = choose|i: int|
                0 <= i < n - 1 && (#[trigger] current[i]).0@ == rest[j].0 && current[i].1@ == rest[j].1
                    && !is_key(keys, current[i].0@) && !values_equal(current[i].1@, original[i].1@);
            assert(current[i].0@ == changes_upto(current, original, keys, n)[j].0);
        } else {
            assert(current[n - 1].0@ == changes_upto(current, original, keys, n)[j].0);
        }
    }
}

/// Saving never sends a key column, and sends a column only where its
/// current value does not compare equal to the original one.
pub proof fn law_changes_skip_keys_and_equal_values(
    current: Seq<(&'static str, DbValue)>,
    original: Seq<(&'static str, DbValue)>,
    keys: Seq<(&'static str, DbValue)>,
    j: int,
)
    requires
        0 <= j < changes(current, original, keys).len(),
    ensures
        !is_key(keys, changes(current, original, keys)[j].0),
        exists|i: int|
            0 <= i < current.len() && i < original.len() && (#[trigger] current[i]).0@ == changes(
                current,
                original,
                keys,
            )[j].0 && current[i].1@ == changes(current, original, keys)[j].1 && !values_equal(
                current[i].1@,
                original[i].1@,
            ),
{
    let n = if current.len() <= original.len() {
        current.len()
    } else {
        original.len()
    };
    lemma_changes_upto_sources(current, original, keys, n as int, j);
}

/// Among the first `n` positions, a value compared with itself has no
/// change when none of those columns holds a NaN float.
proof fn lemma_no_changes_upto(fields: Seq<(&'static str, DbValue)>, keys: Seq<(&'static str, DbValue)>, n: int)
    requires
        n <= fields.len(),
        forall|i: int| 0 <= i < fields.len() ==> !is_nan((#[trigger] fields[i]).1@),
    ensures
        changes_upto(fields, fields, keys, n).len() == 0,
    decreases n,
{
    if n > 0 {
        lemma_no_changes_upto(fields, keys, n - 1);
        law_eq_reflexive(fields[n - 1].1@);
    }
}

/// Saving a tracked value whose columns equal the original's sends nothing,
/// provided no column holds a NaN float (NaN never compares equal, so such a
/// column is sent on every save).
pub proof fn law_unchanged_value_sends_nothing(
    fields: Seq<(&'static str, DbValue)>,
    keys: Seq<(&'static str, DbValue)>,
)
    requires
        forall|i: int| 0 <= i < fields.len() ==> !is_nan((#[trigger] fields[i]).1@),
    ensures
        changes(fields, fields, keys).len() == 0,
{
    lemma_no_changes_upto(fields, keys, fields.len() as int);
}

/// How many of the positions before `i` hold a column that saving a
/// tracked value must send: a non-key column whose current value does not
/// compare equal to the original one.
pub open spec fn sends_before(
    current: Seq<(&'static str, DbValue)>,
    original: Seq<(&'static str, DbValue)>,
    keys: Seq<(&'static str, DbValue)>,
    i: int,
) -> nat
    decreases i,
{
    if i <= 0 {
        0
    } else {
        sends_before(current, original, keys, i - 1) + if !is_key(keys, current[i - 1].0@)
            && !values_equal(current[i - 1].1@, original[i - 1].1@) {
            1nat
        } else {
            0nat
        }
    }
}

/// The count of columns to send never decreases along the positions.
proof fn lemma_sends_before_monotone(
    current: Seq<(&'static str, DbValue)>,
    original: Seq<(&'static str, DbValue)>,
    keys: Seq<(&'static str, DbValue)>,
    i: int,
    k: int,
)
    requires
        0 <= i <= k,
    ensures
        sends_before(current, original, keys, i) <= sends_before(current, original, keys, k),
    decreases k - i,
{
    if i < k {
        lemma_sends_before_monotone(current, original, keys, i, k - 1);
    }
}

/// Among the first `n` positions, the columns that saving sends are, in
/// order, exactly one for each position that must be sent: that position's
/// column sits at the index counting the positions before it that must be
/// sent.
proof fn lemma_changes_upto_complete(
    current: Seq<(&'static str, DbValue)>,
    original: Seq<(&'static str, DbValue)>,
    keys: Seq<(&'static str, DbValue)>,
    n: int,
)
    requires
        0 <= n <= current.len(),
        n <= original.len(),
    ensures
        changes_upto(current, original, keys, n).len() == sends_before(current, original, keys, n),
        forall|i: int|
            0 <= i < n && !is_key(keys, current[i].0@) && !values_equal(current[i].1@, original[i].1@)
                ==> #[trigger] changes_upto(current, original, keys, n)[sends_before(
                current,
                original,
                keys,
                i,
            ) as int] == (current[i].0@, current[i].1@),
    decreases n,
{
    if n > 0 {
        lemma_changes_upto_complete(current, original, keys, n - 1);
        let rest = changes_upto(current, original, keys, n - 1);
        assert forall|i: int|
            0 <= i < n && !is_key(keys, current[i].0@) && !values_equal(
                current[i].1@,
                original[i].1@,
            ) implies #[trigger] changes_upto(current, original, keys, n)[sends_before(
            current,
            original,
            keys,
            i,
        ) as int] == (current[i].0@, current[i].1@) by {
            if i < n - 1 {
                lemma_sends_before_monotone(current, original, keys, i + 1, n - 1);
                assert(rest[sends_before(current, original, keys, i) as int] == (
                    current[i].0@,
                    current[i].1@,
                ));
            }
        }
    }
}

/// Saving sends every changed column: for each position that both lists
/// have, whose column is not a key column and whose current value does not
/// compare equal to the original one, the column and its current value are
/// sent, and they are sent in position order (the column sits at the index
/// counting the changed positions before it). Nothing else is sent: there
/// are exactly as many columns as changed positions.
pub proof fn law_changes_complete(
    current: Seq<(&'static str, DbValue)>,
    original: Seq<(&'static str, DbValue)>,
    keys: Seq<(&'static str, DbValue)>,
    i: int,
)
    requires
        0 <= i < current.len(),
        i < original.len(),
        !is_key(keys, current[i].0@),
        !values_equal(current[i].1@, original[i].1@),
    ensures
        sends_before(current, original, keys, i) < changes(current, original, keys).len(),
        changes(current, original, keys)[sends_before(current, original, keys, i) as int] == (
            current[i].0@,
            current[i].1@,
        ),
        changes(current, original, keys).len() == sends_before(
            current,
            original,
            keys,
            if current.len() <= original.len() {
                current.len() as int
            } else {
                original.len() as int
            },
        ),
{
    let n: int = if current.len() <= original.len() {
        current.len() as int
    } else {
        original.len() as int
    };
    lemma_changes_upto_complete(current, original, keys, n);
    lemma_sends_before_monotone(current, original, keys, i + 1, n);
}

} // verus!
