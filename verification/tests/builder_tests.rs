use simple_db::builders::{Filter, FilterBuilder, GroupBuilder, Projection, ProjectionBuilder, Sort, SortBuilder};
use simple_db::value::DbValue;

// =========================================================================
// FILTER BUILDER TESTS
// =========================================================================

#[test]
fn test_equality_filter() {
    let filter = FilterBuilder::new().eq("age", DbValue::from(25)).build();

    assert_eq!(filter.len(), 1);
    assert!(matches!(filter.as_slice()[0], Filter::Eq(_, _)));
}

#[test]
fn test_inequality_filter() {
    let filter = FilterBuilder::new().neq("status", DbValue::from("inactive")).build();

    assert_eq!(filter.len(), 1);
    assert!(matches!(filter.as_slice()[0], Filter::Neq(_, _)));
}

#[test]
fn test_comparison_filters() {
    let filters = FilterBuilder::new()
        .lt("age", DbValue::from(18))
        .lte("price", DbValue::from(100))
        .gt("score", DbValue::from(50))
        .gte("rating", DbValue::from(4))
        .build();

    assert_eq!(filters.len(), 4);
}

#[test]
fn test_null_filters() {
    let filters = FilterBuilder::new().is_null("deleted_at").is_not_null("verified_at").build();

    assert_eq!(filters.len(), 2);
}

#[test]
fn test_string_pattern_filters() {
    let filters = FilterBuilder::new()
        .starts_with("email", DbValue::from("@gmail"))
        .ends_with("filename", DbValue::from(".pdf"))
        .contains("description", DbValue::from("important"))
        .build();

    assert_eq!(filters.len(), 3);
}

#[test]
fn test_range_filter() {
    let filter = FilterBuilder::new().between("age", DbValue::from(18), DbValue::from(65)).build();

    assert_eq!(filter.len(), 1);
    assert!(matches!(filter.as_slice()[0], Filter::Between(_, _)));
}

#[test]
fn test_in_filter() {
    let filter = FilterBuilder::new()
        .is_in("status", vec![DbValue::from("active"), DbValue::from("pending")])
        .build();

    assert_eq!(filter.len(), 1);
}

#[test]
fn test_complex_filters_with_and() {
    let filters = FilterBuilder::new()
        .eq("type", DbValue::from("user"))
        .gte("age", DbValue::from(18))
        .is_not_null("email")
        .build();

    assert_eq!(filters.len(), 3);
}

#[test]
fn test_negated_filter() {
    let inner = FilterBuilder::new().eq("status", DbValue::from("deleted")).build();
    let filter = FilterBuilder::new().not(inner).build();

    assert!(!filter.is_empty());
}

#[test]
fn filter_methods_keep_call_order_and_arguments() {
    let filters = FilterBuilder::new()
        .eq("a", DbValue::from(1))
        .is_null("b")
        .regex("c", "^x+$")
        .not_in("d", vec![DbValue::from(2), DbValue::from(3)])
        .build();
    let items = filters.as_slice();
    assert_eq!(items.len(), 4);
    match &items[0] {
        Filter::Eq(f, v) => {
            assert_eq!(f.as_str(), "a");
            assert_eq!(v.as_i32(), Some(1));
        }
        _ => panic!("expected Eq"),
    }
    match &items[1] {
        Filter::IsNull(f) => assert_eq!(f.as_str(), "b"),
        _ => panic!("expected IsNull"),
    }
    match &items[2] {
        Filter::Regex(f, r) => {
            assert_eq!(f.as_str(), "c");
            assert_eq!(r.as_str(), "^x+$");
        }
        _ => panic!("expected Regex"),
    }
    match &items[3] {
        Filter::NotIn(f, vs) => {
            assert_eq!(f.as_str(), "d");
            assert_eq!(vs.len(), 2);
            assert_eq!(vs[1].as_i32(), Some(3));
        }
        _ => panic!("expected NotIn"),
    }
}

#[test]
fn filter_groups_and_or_not() {
    let empty = FilterBuilder::new().build();
    assert!(FilterBuilder::new().and(empty).build().is_empty());

    let two = FilterBuilder::new().eq("x", DbValue::from(1)).eq("y", DbValue::from(2)).build();
    let grouped = FilterBuilder::new().or(two).build();
    assert_eq!(grouped.len(), 1);
    match &grouped.as_slice()[0] {
        Filter::Or(g) => assert_eq!(g.len(), 2),
        _ => panic!("expected Or"),
    }

    let one = FilterBuilder::new().eq("x", DbValue::from(1)).build();
    let negated = FilterBuilder::new().not(one).build();
    match &negated.as_slice()[0] {
        Filter::Not(inner) => assert!(matches!(**inner, Filter::Eq(_, _))),
        _ => panic!("expected Not"),
    }

    let two = FilterBuilder::new().eq("x", DbValue::from(1)).eq("y", DbValue::from(2)).build();
    let negated = FilterBuilder::new().not(two).build();
    match &negated.as_slice()[0] {
        Filter::Not(inner) => match &**inner {
            Filter::And(g) => assert_eq!(g.len(), 2),
            _ => panic!("expected And under Not"),
        },
        _ => panic!("expected Not"),
    }

    let nothing = FilterBuilder::new().build();
    assert!(FilterBuilder::new().not(nothing).build().is_empty());
}

#[test]
fn filter_list_spills_past_inline_capacity() {
    let mut b = FilterBuilder::new();
    for i in 0..20 {
        b = b.eq("n", DbValue::from(i as i32));
    }
    let list = b.build();
    assert_eq!(list.len(), 20);
    match &list.as_slice()[19] {
        Filter::Eq(_, v) => assert_eq!(v.as_i32(), Some(19)),
        _ => panic!("expected Eq"),
    }
}

// =========================================================================
// PROJECTION BUILDER TESTS
// =========================================================================

#[test]
fn test_single_field_projection() {
    let projections = ProjectionBuilder::new().field("name").build();

    assert_eq!(projections.len(), 1);
}

#[test]
fn test_multiple_field_projection() {
    let projections = ProjectionBuilder::new().field("id").field("name").field("email").build();

    assert_eq!(projections.len(), 3);
}

#[test]
fn test_aggregation_count_all() {
    let projections = ProjectionBuilder::new().count_all().build();

    assert_eq!(projections.len(), 1);
}

#[test]
fn test_aggregation_count() {
    let projections = ProjectionBuilder::new().count("id").build();

    assert_eq!(projections.len(), 1);
}

#[test]
fn test_aggregation_sum() {
    let projections = ProjectionBuilder::new().sum("total_price").build();

    assert_eq!(projections.len(), 1);
}

#[test]
fn test_aggregation_avg() {
    let projections = ProjectionBuilder::new().avg("rating").build();

    assert_eq!(projections.len(), 1);
}

#[test]
fn test_aggregation_min_max() {
    let projections = ProjectionBuilder::new().min("price").max("price").build();

    assert_eq!(projections.len(), 2);
}

#[test]
fn test_multiple_aggregates() {
    let projections = ProjectionBuilder::new().sum("total").count_all().build();

    assert_eq!(projections.len(), 2);
}

#[test]
fn test_mixed_fields_and_aggregates() {
    let projections = ProjectionBuilder::new().field("category").count_all().sum("amount").build();

    assert_eq!(projections.len(), 3);
}

#[test]
fn projection_alias_wraps_inner() {
    let p = Projection::CountAll.alias("total");
    match p {
        Projection::Aliased(inner, a) => {
            assert!(matches!(*inner, Projection::CountAll));
            assert_eq!(a.as_str(), "total");
        }
        _ => panic!("expected Aliased"),
    }
}

// =========================================================================
// SORT BUILDER TESTS
// =========================================================================

#[test]
fn test_ascending_sort() {
    let sorts = SortBuilder::new().asc("name").build();

    assert_eq!(sorts.len(), 1);
}

#[test]
fn test_descending_sort() {
    let sorts = SortBuilder::new().desc("created_at").build();

    assert_eq!(sorts.len(), 1);
}

#[test]
fn test_multiple_sorts() {
    let sorts = SortBuilder::new().asc("category").desc("price").asc("name").build();

    assert_eq!(sorts.len(), 3);
}

#[test]
fn test_null_ordering_asc() {
    let sorts = SortBuilder::new().asc_nulls_first("priority").build();

    assert_eq!(sorts.len(), 1);
}

#[test]
fn test_null_ordering_desc() {
    let sorts = SortBuilder::new().desc_nulls_last("optional_field").build();

    assert_eq!(sorts.len(), 1);
}

#[test]
fn test_random_sort() {
    let sorts = SortBuilder::new().random().build();

    assert_eq!(sorts.len(), 1);
    assert!(matches!(sorts.as_slice()[0], Sort::Random));
}

// =========================================================================
// GROUP BUILDER TESTS
// =========================================================================

#[test]
fn test_single_group() {
    let groups = GroupBuilder::new().field("category").build();

    assert_eq!(groups.len(), 1);
}

#[test]
fn test_multiple_groups() {
    let groups = GroupBuilder::new().field("category").field("status").field("year").build();

    assert_eq!(groups.len(), 3);
}

#[test]
fn test_group_with_fields_convenience() {
    let groups = GroupBuilder::new().field("dept").field("role").build();

    assert_eq!(groups.len(), 2);
}

#[test]
fn group_fields_appends_in_order() {
    let groups = GroupBuilder::new().field("a").fields(vec!["b", "c"]).build();
    let names: Vec<&str> = groups.as_slice().iter().map(|s| s.as_str()).collect();
    assert_eq!(names, vec!["a", "b", "c"]);
}

#[test]
fn filter_groups_built_by_closures() {
    let filters = FilterBuilder::new()
        .eq("status", DbValue::from("active"))
        .gte("age", DbValue::from(18i32))
        .build();
    assert_eq!(filters.len(), 2);

    let filters = FilterBuilder::new()
        .or_with(|b| b.eq("role", DbValue::from("admin")).eq("role", DbValue::from("moderator")))
        .build();
    assert_eq!(filters.len(), 1);
    match &filters.as_slice()[0] {
        Filter::Or(g) => assert_eq!(g.len(), 2),
        _ => panic!("expected Or"),
    }

    let filters = FilterBuilder::new().and_with(|b| b).build();
    assert!(filters.is_empty());

    let filters = FilterBuilder::new().not_with(|b| b.is_null("x")).build();
    match &filters.as_slice()[0] {
        Filter::Not(inner) => assert!(matches!(**inner, Filter::IsNull(_))),
        _ => panic!("expected Not"),
    }
}
