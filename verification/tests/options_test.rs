//! The options-based builder and its positional SELECT rendering.

use query_core::options::{FilterOperator, QueryBuilder, QueryOptions};
use query_core::values::BindValue;

#[test]
fn test_build_query_filters_sort_pagination() {
    let builder = QueryBuilder::new("products".to_string())
        .filter("price", FilterOperator::Ge, Some(BindValue::Int(10)))
        .filter("name", FilterOperator::Like, Some(BindValue::Str("%a%".to_string())))
        .sort("price", true)
        .sort("name", false)
        .limit(20)
        .offset(40);
    let (sql, params) = builder.build_query();
    assert_eq!(
        sql,
        "SELECT * FROM products WHERE price >= $1 AND name LIKE $2 \
         ORDER BY price ASC, name DESC LIMIT 20 OFFSET 40"
    );
    assert_eq!(
        params,
        vec![BindValue::Int(10), BindValue::Str("%a%".to_string())]
    );
}

#[test]
fn test_build_query_null_filters_bind_nothing() {
    let builder = QueryBuilder::new("items".to_string())
        .filter("deleted_at", FilterOperator::IsNull, None)
        .filter("kind", FilterOperator::Eq, Some(BindValue::Str("book".to_string())));
    let (sql, params) = builder.build_query();
    assert_eq!(sql, "SELECT * FROM items WHERE deleted_at IS NULL AND kind = $1");
    assert_eq!(params, vec![BindValue::Str("book".to_string())]);
}

#[test]
fn test_build_query_in_and_missing_value() {
    let builder = QueryBuilder::new("items".to_string())
        .filter("kind", FilterOperator::In, Some(BindValue::Json("[1,2]".to_string())))
        .filter("owner", FilterOperator::Ne, None);
    let (sql, params) = builder.build_query();
    assert_eq!(sql, "SELECT * FROM items WHERE kind IN ($1) AND owner != $2");
    assert_eq!(
        params,
        vec![BindValue::Json("[1,2]".to_string()), BindValue::Null]
    );
}

#[test]
fn test_build_query_bare_and_negative_limit() {
    let (sql, params) = QueryBuilder::new("logs".to_string()).build_query();
    assert_eq!(sql, "SELECT * FROM logs");
    assert!(params.is_empty());
    let (sql, _) = QueryBuilder::new("logs".to_string()).limit(-5).build_query();
    assert_eq!(sql, "SELECT * FROM logs LIMIT -5");
}

#[test]
fn test_options_building() {
    let defaults = QueryOptions::default();
    assert!(defaults.filters.is_empty());
    assert!(defaults.sort.is_empty());
    assert!(defaults.limit.is_none());
    assert!(defaults.offset.is_none());
    assert!(defaults.relations.is_empty());

    let options = QueryBuilder::new("a".to_string())
        .with_relation("comments")
        .sort("id", true)
        .build();
    assert_eq!(options.relations, vec!["comments".to_string()]);
    assert_eq!(options.sort, vec![("id".to_string(), true)]);

    let rebuilt = QueryBuilder::new_with_option("a".to_string(), options);
    let (sql, _) = rebuilt.build_query();
    assert_eq!(sql, "SELECT * FROM a ORDER BY id ASC");
}
