use simple_db::builders::Filter;
use simple_db::entity::{
    changed_fields, insert_action, key_filter, update_action, DbEntity, DbEntityTrait, SaveAction, TrackingState,
};
use simple_db::types::{DbError, DbRow, TypeError};
use simple_db::value::DbValue;

#[derive(Clone, Debug, PartialEq)]
struct User {
    id: i64,
    name: String,
    age: i32,
}

impl DbEntityTrait for User {
    fn collection_name() -> &'static str {
        "users"
    }

    fn primary_key(&self) -> Vec<(&'static str, DbValue)> {
        vec![("id", DbValue::from_i64(self.id))]
    }

    fn to_db(&self) -> Vec<(&'static str, DbValue)> {
        vec![
            ("id", DbValue::from_i64(self.id)),
            ("name", DbValue::from_str(&self.name)),
            ("age", DbValue::from_i32(self.age)),
        ]
    }

    fn from_db<R: DbRow + ?Sized>(row: &R) -> Self {
        User {
            id: row.get_by_name("id").and_then(|v| v.as_i64()).unwrap_or(0),
            name: row.get_by_name("name").and_then(|v| v.as_string()).unwrap_or("").to_string(),
            age: row.get_by_name("age").and_then(|v| v.as_i32()).unwrap_or(0),
        }
    }
}

struct Row(Vec<(String, DbValue)>);

impl DbRow for Row {
    fn get_by_index(&self, index: usize) -> Option<&DbValue> {
        self.0.get(index).map(|(_, v)| v)
    }

    fn get_by_name(&self, name: &str) -> Option<&DbValue> {
        self.0.iter().find(|(n, _)| n == name).map(|(_, v)| v)
    }

    fn len(&self) -> usize {
        self.0.len()
    }
}

fn alice_row() -> Row {
    Row(vec![
        ("id".to_string(), DbValue::from_i64(1)),
        ("name".to_string(), DbValue::from_str("Alice")),
        ("age".to_string(), DbValue::from_i32(30)),
    ])
}

#[test]
fn tracking_state_predicates() {
    let u: TrackingState<u8> = TrackingState::Untracked;
    let t: TrackingState<u8> = TrackingState::TrackedWith(3);
    let d: TrackingState<u8> = TrackingState::Detached;
    assert!(u.is_untracked() && !u.is_tracked() && !u.is_detached());
    assert!(t.is_tracked() && !t.is_untracked() && !t.is_detached());
    assert!(d.is_detached() && !d.is_tracked() && !d.is_untracked());
    assert_eq!(t.original(), Some(&3));
    assert_eq!(u.original(), None);
    assert_eq!(d.original(), None);
}

#[test]
fn new_entity_saves_by_insert_then_tracks() {
    let mut e = DbEntity::new(User { id: 7, name: "Bob".to_string(), age: 41 });
    assert!(e.is_untracked());
    match e.save_action() {
        SaveAction::Insert(q) => {
            assert_eq!(q.collection, "users");
            assert_eq!(q.values.len(), 1);
            let names: Vec<&str> = q.values[0].iter().map(|(n, _)| n.as_str()).collect();
            assert_eq!(names, vec!["id", "name", "age"]);
            assert_eq!(q.values[0][1].1.as_string(), Some("Bob"));
        }
        _ => panic!("expected an insert"),
    }
    e.saved();
    assert!(e.is_tracked());
    assert_eq!(e.get_state().original(), Some(&User { id: 7, name: "Bob".to_string(), age: 41 }));
    // nothing changed since the save: nothing to send
    assert!(matches!(e.save_action(), SaveAction::Skip));
}

#[test]
fn tracked_entity_updates_only_changed_non_key_columns() {
    let mut e: DbEntity<User> = DbEntity::from_db(&alice_row());
    assert!(e.is_tracked());
    assert_eq!(e.get().name, "Alice");
    assert!(matches!(e.save_action(), SaveAction::Skip));

    e.get_mut().age = 31;
    e.get_mut().id = 99; // a key column is never sent
    assert!(e.is_tracked());
    match e.save_action() {
        SaveAction::Update(q) => {
            assert_eq!(q.collection, "users");
            assert_eq!(q.updates.len(), 1);
            assert_eq!(q.updates[0].0, "age");
            assert_eq!(q.updates[0].1.as_i32(), Some(31));
            assert_eq!(q.filters.len(), 1);
            match &q.filters.as_slice()[0] {
                Filter::Eq(f, v) => {
                    assert_eq!(f.as_str(), "id");
                    assert_eq!(v.as_i64(), Some(99));
                }
                _ => panic!("expected an equality on the key"),
            }
        }
        _ => panic!("expected an update"),
    }
    e.saved();
    assert!(matches!(e.save_action(), SaveAction::Skip));
}

#[test]
fn detached_entity_sends_nothing_and_stays_detached() {
    let mut e: DbEntity<User> = DbEntity::from_db_readonly(&alice_row());
    assert!(e.is_detached());
    e.get_mut().age = 5;
    assert!(matches!(e.save_action(), SaveAction::Skip));
    assert!(e.delete_action().is_none());
    e.saved();
    e.deleted();
    assert!(e.is_detached());
    assert_eq!(e.into_inner().age, 5);
}

#[test]
fn delete_only_tracked_then_detached() {
    let mut fresh = DbEntity::new(User { id: 1, name: "A".to_string(), age: 1 });
    assert!(fresh.delete_action().is_none());
    fresh.deleted();
    assert!(fresh.is_untracked());

    let mut e: DbEntity<User> = DbEntity::from_db(&alice_row());
    match e.delete_action() {
        Some(q) => {
            assert_eq!(q.collection, "users");
            assert_eq!(q.filters.len(), 1);
            assert!(matches!(q.filters.as_slice()[0], Filter::Eq(_, _)));
        }
        None => panic!("expected a delete"),
    }
    e.deleted();
    assert!(e.is_detached());
    assert!(matches!(e.save_action(), SaveAction::Skip));
}

#[test]
fn primary_key_filter_has_one_equality_per_key() {
    let u = User { id: 5, name: "x".to_string(), age: 2 };
    let f = u.primary_key_filter();
    assert_eq!(f.len(), 1);
    match &f.as_slice()[0] {
        Filter::Eq(name, v) => {
            assert_eq!(name.as_str(), "id");
            assert_eq!(v.as_i64(), Some(5));
        }
        _ => panic!("expected Eq"),
    }
}

#[test]
fn changed_fields_compares_position_by_position() {
    let current = vec![("id", DbValue::from_i64(2)), ("a", DbValue::from_i32(1)), ("b", DbValue::from_str("new"))];
    let original = vec![("id", DbValue::from_i64(1)), ("a", DbValue::from_i32(1)), ("b", DbValue::from_str("old"))];
    let keys = vec![("id", DbValue::from_i64(2))];
    let changed = changed_fields(&current, &original, &keys);
    assert_eq!(changed.len(), 1);
    assert_eq!(changed[0].0, "b");
    assert_eq!(changed[0].1.as_string(), Some("new"));

    // only the positions both lists have are compared
    let longer = vec![("a", DbValue::from_i32(2)), ("z", DbValue::from_i32(9))];
    let shorter = vec![("a", DbValue::from_i32(1))];
    let changed = changed_fields(&longer, &shorter, &Vec::new());
    assert_eq!(changed.len(), 1);
    assert_eq!(changed[0].0, "a");

    // a NaN column is sent on every save
    let nan = vec![("f", DbValue::from_f64_bits(f64::NAN.to_bits()))];
    assert_eq!(changed_fields(&nan, &nan.clone(), &Vec::new()).len(), 1);
}

#[test]
fn row_reads_convert_or_report_the_column() {
    let row = alice_row();
    assert!(!row.is_empty());
    assert_eq!(row.get_by_index_as::<i64>(0).ok(), Some(1));
    assert_eq!(row.get_by_name_as::<String>("name").ok(), Some("Alice".to_string()));
    match row.get_by_index_as::<i64>(9) {
        Err(DbError::Type(TypeError::IndexOutOfBounds(9))) => {}
        _ => panic!("expected the index error"),
    }
    match row.get_by_name_as::<i32>("email") {
        Err(DbError::Type(TypeError::ColumnMissing(c))) => assert_eq!(c, "email"),
        _ => panic!("expected the missing-column error"),
    }
    match row.get_by_name_as::<i32>("name") {
        Err(DbError::Type(TypeError::Mismatch { expected, found })) => {
            assert_eq!(expected, "i32");
            assert_eq!(found, "String");
        }
        _ => panic!("expected a type mismatch"),
    }
    assert!(Row(Vec::new()).is_empty());
}

#[test]
fn save_actions_from_given_columns() {
    match insert_action("t", vec![("a", DbValue::from_i32(1))]) {
        SaveAction::Insert(q) => {
            assert_eq!(q.collection, "t");
            assert_eq!(q.values.len(), 1);
            assert_eq!(q.values[0][0].0, "a");
        }
        _ => panic!("expected an insert"),
    }
    let cur = vec![("k", DbValue::from_i32(1)), ("v", DbValue::from_i32(2))];
    let orig = vec![("k", DbValue::from_i32(1)), ("v", DbValue::from_i32(3))];
    let keys = vec![("k", DbValue::from_i32(1))];
    match update_action("t", &cur, &orig, &keys, key_filter(keys.clone())) {
        SaveAction::Update(q) => {
            assert_eq!(q.updates.len(), 1);
            assert_eq!(q.updates[0].0, "v");
            assert_eq!(q.filters.len(), 1);
        }
        _ => panic!("expected an update"),
    }
    assert!(matches!(update_action("t", &cur, &cur.clone(), &keys, key_filter(keys.clone())), SaveAction::Skip));
}
