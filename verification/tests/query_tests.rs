use simple_db::builders::{Filter, FilterBuilder, GroupBuilder, ProjectionBuilder, SortBuilder};
use simple_db::queries::{Collection, FindQuery, InsertQuery, Query, UpdateQuery};
use simple_db::value::DbValue;

#[test]
fn test_find_query_creation() {
    let query = Query::find("users");
    assert_eq!(query.collection, "users");
    assert_eq!(query.projections.len(), 0);
    assert_eq!(query.filters.len(), 0);
    assert_eq!(query.limit, None);
}

#[test]
fn test_find_query_with_single_projection() {
    let query = Query::find("users").project(ProjectionBuilder::new().field("name").build());

    assert_eq!(query.collection, "users");
    assert!(!query.projections.is_empty());
}

#[test]
fn test_find_query_with_multiple_projections() {
    let query = Query::find("users")
        .project(ProjectionBuilder::new().field("id").field("name").field("email").build());

    assert_eq!(query.projections.len(), 3);
}

#[test]
fn test_find_query_with_filter() {
    let query = Query::find("users").filter(FilterBuilder::new().eq("age", DbValue::from(25)).build());

    assert!(!query.filters.is_empty());
}

#[test]
fn test_find_query_with_multiple_filters() {
    let query = Query::find("users").filter(
        FilterBuilder::new().eq("age", DbValue::from(25)).eq("active", DbValue::from(true)).build(),
    );

    assert_eq!(query.filters.len(), 2);
}

#[test]
fn test_find_query_with_limit_offset() {
    let query = Query::find("users").limit(10).offset(20);

    assert_eq!(query.limit, Some(10));
    assert_eq!(query.offset, Some(20));
}

#[test]
fn test_find_query_with_order_by() {
    let query = Query::find("users").order_by(SortBuilder::new().asc("name").build());

    assert!(!query.sorts.is_empty());
}

#[test]
fn test_find_query_complex_composition() {
    let query = Query::find("users")
        .project(ProjectionBuilder::new().field("id").field("name").field("email").build())
        .filter(FilterBuilder::new().gt("age", DbValue::from(18)).eq("active", DbValue::from(true)).build())
        .order_by(SortBuilder::new().desc("created_at").build())
        .limit(50)
        .offset(0);

    assert_eq!(query.projections.len(), 3);
    assert_eq!(query.filters.len(), 2);
    assert!(!query.sorts.is_empty());
    assert_eq!(query.limit, Some(50));
}

#[test]
fn find_query_clauses_accumulate_and_limits_replace() {
    let query = FindQuery::new("items")
        .with_filter_builder(|b| b.eq("a", DbValue::from(1)))
        .with_filter_builder(|b| b.is_null("b"))
        .with_projection_builder(|b| b.field("x").count_all())
        .with_sort_builder(|b| b.desc("x"))
        .with_group_builder(|b| b.field("x"))
        .group_by(GroupBuilder::new().field("y").build())
        .limit(5)
        .limit(7)
        .offset(1);
    assert_eq!(query.filters.len(), 2);
    assert!(matches!(query.filters.as_slice()[1], Filter::IsNull(_)));
    assert_eq!(query.projections.len(), 2);
    assert_eq!(query.sorts.len(), 1);
    assert_eq!(query.groups.len(), 2);
    assert_eq!(query.limit, Some(7));
    assert_eq!(query.offset, Some(1));
}

#[test]
fn test_insert_query_creation() {
    let query = Query::insert("users");
    assert_eq!(query.collection, "users");
}

#[test]
fn test_insert_query_with_values() {
    let row = vec![("name", DbValue::from("Alice")), ("email", DbValue::from("alice@example.com"))];
    let query = Query::insert("users").insert(row);

    assert_eq!(query.values.len(), 1);
}

#[test]
fn test_bulk_insert_query() {
    let row1 = vec![("name", DbValue::from("Alice")), ("email", DbValue::from("alice@example.com"))];
    let row2 = vec![("name", DbValue::from("Bob")), ("email", DbValue::from("bob@example.com"))];

    let query = Query::insert("users").insert(row1).insert(row2);

    assert_eq!(query.values.len(), 2);
}

#[test]
fn bulk_insert_equals_inserts_in_order() {
    let rows = vec![
        vec![("name", DbValue::from("Alice"))],
        vec![("name", DbValue::from("Bob")), ("age", DbValue::from(30))],
    ];
    let bulk = InsertQuery::new("users").bulk_insert(rows);
    let one_by_one = InsertQuery::new("users")
        .insert(vec![("name", DbValue::from("Alice"))])
        .insert(vec![("name", DbValue::from("Bob")), ("age", DbValue::from(30))]);
    assert_eq!(bulk.values.len(), 2);
    assert_eq!(bulk.values, one_by_one.values);
    assert_eq!(bulk.values[1][0].0, "name");
    assert_eq!(bulk.values[1][1].1.as_i32(), Some(30));
}

#[test]
fn test_update_query_creation() {
    let query = Query::update("users");
    assert_eq!(query.collection, "users");
}

#[test]
fn test_update_query_with_filter() {
    let query = Query::update("users")
        .set("email", DbValue::from("newemail@example.com"))
        .filter(FilterBuilder::new().eq("id", DbValue::from(1)).build());

    assert!(!query.updates.is_empty());
    assert!(!query.filters.is_empty());
}

#[test]
fn test_update_query_multiple_fields() {
    let query = Query::update("users")
        .set("email", DbValue::from("new@example.com"))
        .set("updated_at", DbValue::from("2024-04-13"));

    assert_eq!(query.updates.len(), 2);
}

#[test]
fn update_query_set_row_appends() {
    let query = UpdateQuery::new("t")
        .set("a", DbValue::from(1))
        .set_row(vec![("b".to_string(), DbValue::from(2)), ("c".to_string(), DbValue::from(3))]);
    let names: Vec<&str> = query.updates.iter().map(|(n, _)| n.as_str()).collect();
    assert_eq!(names, vec!["a", "b", "c"]);
}

#[test]
fn test_delete_query_creation() {
    let query = Query::delete("users");
    assert_eq!(query.collection, "users");
}

#[test]
fn test_delete_query_with_filter() {
    let query = Query::delete("users").filter(FilterBuilder::new().eq("id", DbValue::from(1)).build());

    assert!(!query.filters.is_empty());
}

#[test]
fn test_delete_query_with_multiple_filters() {
    let query = Query::delete("users").filter(
        FilterBuilder::new().lt("age", DbValue::from(18)).eq("archived", DbValue::from(true)).build(),
    );

    assert_eq!(query.filters.len(), 2);
}

#[test]
fn collection_builds_queries_for_its_name() {
    let c = Collection::new("orders");
    assert_eq!(c.name(), "orders");
    assert_eq!(c.find().collection, "orders");
    assert_eq!(c.insert().collection, "orders");
    assert_eq!(c.update().collection, "orders");
    assert_eq!(c.delete().collection, "orders");
}

#[test]
fn with_filters_replaces_the_filter_definition() {
    let query = FindQuery::new("users")
        .filter(FilterBuilder::new().eq("a", DbValue::from(1)).eq("b", DbValue::from(2)).build())
        .limit(3)
        .with_filters(FilterBuilder::new().is_null("c").build());
    assert_eq!(query.filters.len(), 1);
    assert!(matches!(query.filters.as_slice()[0], Filter::IsNull(_)));
    assert_eq!(query.limit, Some(3));

    let delete = Query::delete("users")
        .filter(FilterBuilder::new().eq("a", DbValue::from(1)).build())
        .with_filters(FilterBuilder::new().build());
    assert!(delete.filters.is_empty());
    assert_eq!(delete.collection, "users");
}

#[test]
fn bulk_insert_keeps_old_rows_first_and_adds_each_new_row() {
    let q = InsertQuery::new("t").insert(vec![("x", DbValue::from(0))]);
    let q = q.bulk_insert(vec![vec![("x", DbValue::from(1))], vec![("x", DbValue::from(2))]]);
    assert_eq!(q.values.len(), 3);
    assert_eq!(q.values[0][0].1.as_i32(), Some(0));
    assert_eq!(q.values[2][0].1.as_i32(), Some(2));
    let same = InsertQuery::new("t").bulk_insert(Vec::new());
    assert!(same.values.is_empty());
}

#[test]
fn queries_and_filters_clone_deeply() {
    let query = FindQuery::new("users")
        .filter(
            FilterBuilder::new()
                .between("age", DbValue::from(1), DbValue::from(9))
                .or_with(|b| b.eq("a", DbValue::from("x")).is_null("b"))
                .build(),
        )
        .project(ProjectionBuilder::new().field("id").count_all().build())
        .group_by(GroupBuilder::new().field("g").build())
        .limit(4);
    let copy = query.clone();
    assert_eq!(copy.collection, "users");
    assert_eq!(copy.filters.len(), 2);
    match &copy.filters.as_slice()[0] {
        Filter::Between(f, (lo, hi)) => {
            assert_eq!(f.as_str(), "age");
            assert_eq!(lo.as_i32(), Some(1));
            assert_eq!(hi.as_i32(), Some(9));
        }
        _ => panic!("expected Between"),
    }
    match &copy.filters.as_slice()[1] {
        Filter::Or(g) => assert_eq!(g.len(), 2),
        _ => panic!("expected Or"),
    }
    assert_eq!(copy.projections.len(), 2);
    assert_eq!(copy.groups.as_slice()[0].as_str(), "g");
    assert_eq!(copy.limit, Some(4));
    let u = Query::update("t").set("a", DbValue::from(1)).clone();
    assert_eq!(u.updates.len(), 1);
}
