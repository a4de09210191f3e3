//! Rendering: dialect placeholders, operator spellings, the where tree,
//! and the statement builders.

use query_core::builder::QueryBuilderUtil;
use query_core::dialect::DbType;
use query_core::query_models::{ComparisonOperator, JoinType, LogicalOperator, OrderDirection};
use query_core::sql_builder::QueryBuilder;
use query_core::users::User;
use query_core::values::BindValue;

#[test]
fn test_placeholder_styles() {
    assert_eq!(DbType::Postgres.placeholder(1), "$1");
    assert_eq!(DbType::Postgres.placeholder(12), "$12");
    assert_eq!(DbType::MySQL.placeholder(1), "?");
    assert_eq!(DbType::MySQL.placeholder(7), "?");
    assert_eq!(DbType::SQLite.placeholder(3), "?");
}

#[test]
fn test_operator_spellings() {
    assert_eq!(ComparisonOperator::Equal.to_sql(), "=");
    assert_eq!(ComparisonOperator::NotEqual.to_sql(), "!=");
    assert_eq!(ComparisonOperator::GreaterThan.to_sql(), ">");
    assert_eq!(ComparisonOperator::GreaterThanOrEqual.to_sql(), ">=");
    assert_eq!(ComparisonOperator::LessThan.to_sql(), "<");
    assert_eq!(ComparisonOperator::LessThanOrEqual.to_sql(), "<=");
    assert_eq!(ComparisonOperator::Like.to_sql(), "LIKE");
    assert_eq!(ComparisonOperator::ILike.to_sql(), "ILIKE");
    assert_eq!(ComparisonOperator::In.to_sql(), "IN");
    assert_eq!(ComparisonOperator::NotIn.to_sql(), "NOT IN");
    assert_eq!(ComparisonOperator::IsNull.to_sql(), "IS NULL");
    assert_eq!(ComparisonOperator::IsNotNull.to_sql(), "IS NOT NULL");
    assert_eq!(ComparisonOperator::Between.to_sql(), "BETWEEN");
    assert_eq!(LogicalOperator::And.to_sql(), "AND");
    assert_eq!(LogicalOperator::Or.to_sql(), "OR");
    assert_eq!(OrderDirection::Asc.to_sql(), "ASC");
    assert_eq!(OrderDirection::Desc.to_sql(), "DESC");
    assert_eq!(JoinType::Inner.to_sql(), "INNER JOIN");
    assert_eq!(JoinType::Left.to_sql(), "LEFT JOIN");
    assert_eq!(JoinType::Right.to_sql(), "RIGHT JOIN");
    assert_eq!(JoinType::Full.to_sql(), "FULL OUTER JOIN");
}

const ALL_COLS: &str = "id, username, email, password_hash, created_at, updated_at";

fn ordering_builder() -> QueryBuilderUtil<User> {
    QueryBuilderUtil::<User>::new()
        .where_eq("id", BindValue::Int(1))
        .unwrap()
        .where_in("username", vec![BindValue::Int(2), BindValue::Int(3)])
        .unwrap()
        .where_between("email", BindValue::Int(4), BindValue::Int(5))
        .unwrap()
}

#[test]
fn test_placeholder_ordering_positional() {
    let (sql, params) = ordering_builder().build_select_query(DbType::Postgres);
    assert_eq!(
        sql,
        format!(
            "SELECT {} FROM users WHERE id = $1 AND username IN ($2, $3) AND email BETWEEN $4 AND $5",
            ALL_COLS
        )
    );
    assert_eq!(
        params,
        vec![
            BindValue::Int(1),
            BindValue::Int(2),
            BindValue::Int(3),
            BindValue::Int(4),
            BindValue::Int(5),
        ]
    );
}

#[test]
fn test_placeholder_ordering_question_mark() {
    let (sql, params) = ordering_builder().build_select_query(DbType::MySQL);
    assert_eq!(
        sql,
        format!(
            "SELECT {} FROM users WHERE id = ? AND username IN (?, ?) AND email BETWEEN ? AND ?",
            ALL_COLS
        )
    );
    assert_eq!(
        params,
        vec![
            BindValue::Int(1),
            BindValue::Int(2),
            BindValue::Int(3),
            BindValue::Int(4),
            BindValue::Int(5),
        ]
    );
}

#[test]
fn test_grouping_renders_parenthesized() {
    let q = QueryBuilderUtil::<User>::new()
        .where_group_or(|g| {
            g.where_eq("username", BindValue::Str("draft".to_string()))?
                .and()
                .where_eq("id", BindValue::Int(7))
        })
        .unwrap()
        .where_eq("email", BindValue::Bool(false))
        .unwrap();
    let (sql, params) = q.build_select_query(DbType::MySQL);
    assert_eq!(
        sql,
        format!(
            "SELECT {} FROM users WHERE (username = ? AND id = ?) AND email = ?",
            ALL_COLS
        )
    );
    assert_eq!(
        params,
        vec![
            BindValue::Str("draft".to_string()),
            BindValue::Int(7),
            BindValue::Bool(false),
        ]
    );
}

#[test]
fn test_group_joined_by_named_connective() {
    let q = QueryBuilderUtil::<User>::new()
        .where_eq("email", BindValue::Bool(false))
        .unwrap()
        .where_group_or(|g| {
            g.where_eq("username", BindValue::Str("a".to_string()))?
                .or()
                .where_eq("username", BindValue::Str("b".to_string()))
        })
        .unwrap();
    let (sql, _) = q.build_select_query(DbType::Postgres);
    assert_eq!(
        sql,
        format!(
            "SELECT {} FROM users WHERE email = $1 OR (username = $2 OR username = $3)",
            ALL_COLS
        )
    );
}

#[test]
fn test_empty_group_is_discarded() {
    let q = QueryBuilderUtil::<User>::new().where_group_and(|g| Ok(g)).unwrap();
    let (sql, params) = q.build_select_query(DbType::Postgres);
    assert_eq!(sql, format!("SELECT {} FROM users", ALL_COLS));
    assert!(params.is_empty());
}

#[test]
fn test_pagination_offsets() {
    let (s1, _) = QueryBuilderUtil::<User>::new().paginate(1, 10).build_select_query(DbType::Postgres);
    assert!(s1.ends_with(" LIMIT 10 OFFSET 0"), "{}", s1);
    let (s3, _) = QueryBuilderUtil::<User>::new().paginate(3, 10).build_select_query(DbType::Postgres);
    assert!(s3.ends_with(" LIMIT 10 OFFSET 20"), "{}", s3);
    let (s0, _) = QueryBuilderUtil::<User>::new().paginate(0, 10).build_select_query(DbType::Postgres);
    assert_eq!(s0, s1);
}

#[test]
fn test_unknown_column_fails_before_rendering() {
    let err = QueryBuilderUtil::<User>::new().where_eq("nope", BindValue::Int(1)).unwrap_err();
    match err {
        query_core::errors::ApiError::InvalidColumn(c) => assert_eq!(c, "nope"),
        other => panic!("unexpected error: {:?}", other),
    }
    assert!(QueryBuilderUtil::<User>::new().order_by_asc("nope").is_err());
    assert!(QueryBuilderUtil::<User>::new().group_by("nope").is_err());
    assert!(QueryBuilderUtil::<User>::new().select(vec!["id".to_string(), "nope".to_string()]).is_err());
    assert!(QueryBuilderUtil::<User>::new().set("nope", BindValue::Null).is_err());
    assert!(QueryBuilderUtil::<User>::new().value("nope", BindValue::Null).is_err());
    let q = QueryBuilderUtil::<User>::new();
    assert!(q.validate_column("id").is_ok());
    assert!(q.validate_column("nope").is_err());
    assert!(
        query_core::group::GroupBuilder::<User>::new()
            .where_eq("nope", BindValue::Int(0))
            .is_err()
    );
}

#[test]
fn test_select_projection_distinct_order_group() {
    let q = QueryBuilderUtil::<User>::new()
        .distinct()
        .select(vec!["id".to_string(), "email".to_string()])
        .unwrap()
        .order_by_desc("created_at")
        .unwrap()
        .group_by("email")
        .unwrap();
    let (sql, params) = q.build_select_query(DbType::Postgres);
    assert_eq!(
        sql,
        "SELECT DISTINCT id, email FROM users GROUP BY email ORDER BY created_at DESC"
    );
    assert!(params.is_empty());
}

#[test]
fn test_joins_render_in_order() {
    let q = QueryBuilderUtil::<User>::new()
        .inner_join("profiles", "profiles.user_id = users.id")
        .left_join("roles", "roles.user_id = users.id");
    let (sql, _) = q.build_count_query(DbType::Postgres);
    assert_eq!(
        sql,
        "SELECT COUNT(*) FROM users INNER JOIN profiles ON profiles.user_id = users.id \
         LEFT JOIN roles ON roles.user_id = users.id"
    );
}

#[test]
fn test_update_query() {
    let q = QueryBuilderUtil::<User>::new()
        .set("username", BindValue::Str("x".to_string()))
        .unwrap()
        .set("email", BindValue::Str("y".to_string()))
        .unwrap()
        .where_eq("id", BindValue::Int(1))
        .unwrap();
    let (sql, params) = q.build_update_query(DbType::Postgres).unwrap();
    assert_eq!(sql, "UPDATE users SET username = $1, email = $2 WHERE id = $3");
    assert_eq!(
        params,
        vec![
            BindValue::Str("x".to_string()),
            BindValue::Str("y".to_string()),
            BindValue::Int(1),
        ]
    );
}

#[test]
fn test_update_replaces_repeated_column() {
    let q = QueryBuilderUtil::<User>::new()
        .set("username", BindValue::Str("first".to_string()))
        .unwrap()
        .set("username", BindValue::Str("second".to_string()))
        .unwrap();
    let (sql, params) = q.build_update_query(DbType::Postgres).unwrap();
    assert_eq!(sql, "UPDATE users SET username = $1");
    assert_eq!(params, vec![BindValue::Str("second".to_string())]);
}

#[test]
fn test_set_multiple_and_values() {
    let q = QueryBuilderUtil::<User>::new()
        .set_multiple(vec![
            ("username".to_string(), BindValue::Str("x".to_string())),
            ("email".to_string(), BindValue::Str("y".to_string())),
        ])
        .unwrap();
    let (sql, params) = q.build_update_query(DbType::Postgres).unwrap();
    assert_eq!(sql, "UPDATE users SET username = $1, email = $2");
    assert_eq!(
        params,
        vec![
            BindValue::Str("x".to_string()),
            BindValue::Str("y".to_string()),
        ]
    );
    match QueryBuilderUtil::<User>::new()
        .set_multiple(vec![("nope".to_string(), BindValue::Null)])
    {
        Err(query_core::errors::ApiError::InvalidColumn(c)) => assert_eq!(c, "nope"),
        other => panic!("unexpected: {:?}", other),
    }
    let q = QueryBuilderUtil::<User>::new()
        .values(vec![
            ("username".to_string(), BindValue::Str("u".to_string())),
            ("email".to_string(), BindValue::Str("e".to_string())),
        ])
        .unwrap();
    let (sql, _) = q.build_insert_query(DbType::Postgres).unwrap();
    assert_eq!(sql, "INSERT INTO users (username, email) VALUES ($1, $2)");
    assert!(QueryBuilderUtil::<User>::new()
        .values(vec![("nope".to_string(), BindValue::Null)])
        .is_err());
}

#[test]
fn test_empty_update_fails() {
    let q = QueryBuilderUtil::<User>::new();
    match q.build_update_query(DbType::Postgres) {
        Err(query_core::errors::ApiError::InvalidQuery(m)) => {
            assert_eq!(m, "No data provided for update")
        }
        other => panic!("unexpected: {:?}", other),
    }
}

#[test]
fn test_insert_query() {
    let q = QueryBuilderUtil::<User>::new()
        .value("username", BindValue::Str("u".to_string()))
        .unwrap()
        .value("email", BindValue::Str("e".to_string()))
        .unwrap();
    let (sql, params) = q.build_insert_query(DbType::Postgres).unwrap();
    assert_eq!(sql, "INSERT INTO users (username, email) VALUES ($1, $2)");
    assert_eq!(
        params,
        vec![
            BindValue::Str("u".to_string()),
            BindValue::Str("e".to_string()),
        ]
    );
}

#[test]
fn test_empty_insert_fails() {
    let q = QueryBuilderUtil::<User>::new();
    match q.build_insert_query(DbType::Postgres) {
        Err(query_core::errors::ApiError::InvalidQuery(m)) => {
            assert_eq!(m, "No data provided for insert")
        }
        other => panic!("unexpected: {:?}", other),
    }
}

#[test]
fn test_delete_query() {
    let q = QueryBuilderUtil::<User>::new().where_eq("id", BindValue::Int(9)).unwrap();
    let (sql, params) = q.build_delete_query(DbType::Postgres);
    assert_eq!(sql, "DELETE FROM users WHERE id = $1");
    assert_eq!(params, vec![BindValue::Int(9)]);
}

#[test]
fn test_null_conditions_bind_nothing() {
    let q = QueryBuilderUtil::<User>::new()
        .where_null("email")
        .unwrap()
        .or()
        .where_not_null("username")
        .unwrap();
    let (sql, params) = q.build_select_query(DbType::Postgres);
    assert_eq!(
        sql,
        format!("SELECT {} FROM users WHERE email IS NULL OR username IS NOT NULL", ALL_COLS)
    );
    assert!(params.is_empty());
}

#[test]
fn test_sql_accumulator() {
    let b = QueryBuilder::<User>::new(DbType::Postgres)
        .set_sql("SELECT *")
        .append("FROM users")
        .append("WHERE id = $1");
    assert_eq!(b.get_sql(), "SELECT * FROM users WHERE id = $1");
    let mut b = QueryBuilder::<User>::new(DbType::Postgres);
    assert_eq!(b.placeholder(), "$1");
    assert_eq!(b.placeholder(), "$2");
    assert_eq!(b.param_count(), 2);
    let mut m = QueryBuilder::<User>::new(DbType::MySQL);
    assert_eq!(m.placeholder(), "?");
    assert_eq!(m.placeholder(), "?");
    assert_eq!(m.param_count(), 2);
}
