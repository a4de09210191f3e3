//! The repository plans: CRUD SQL, short-circuits, and decisions.

use query_core::dialect::DbType;
use query_core::errors::ApiError;
use query_core::query_models::OrderDirection;
use query_core::repository::{
    count_all_sql, create_many_plan, create_plan, delete_by_id_sql, delete_many_sql, delete_result,
    exists_from_count, exists_sql, find_advanced_plan, find_all_sql, find_by_column_sql,
    find_by_columns_sql, find_by_id_sql, find_by_range_plan, find_by_values_plan,
    paginate_sorted_plan, paginate_sql, search_by_pattern_plan, transaction_outcome,
    update_partial_plan, update_plan, TxAction,
};
use query_core::users::User;
use query_core::values::BindValue;

const ALL_COLS: &str = "id, username, email, password_hash, created_at, updated_at";

fn sample_user() -> User {
    User {
        id: "0000".to_string(),
        username: "u".to_string(),
        email: "e@x".to_string(),
        password_hash: "h".to_string(),
        created_at: 5,
        updated_at: 5,
    }
}

#[test]
fn test_find_all_sql() {
    assert_eq!(find_all_sql::<User>(), format!("SELECT {} FROM users", ALL_COLS));
}

#[test]
fn test_find_by_id_sql() {
    assert_eq!(
        find_by_id_sql::<User>(DbType::Postgres),
        format!("SELECT {} FROM users WHERE id = $1", ALL_COLS)
    );
    assert_eq!(
        find_by_id_sql::<User>(DbType::SQLite),
        format!("SELECT {} FROM users WHERE id = ?", ALL_COLS)
    );
}

#[test]
fn test_find_by_column_sql() {
    assert_eq!(
        find_by_column_sql::<User>(DbType::Postgres, "email").unwrap(),
        format!("SELECT {} FROM users WHERE email = $1", ALL_COLS)
    );
    match find_by_column_sql::<User>(DbType::Postgres, "nope") {
        Err(ApiError::InvalidColumn(c)) => assert_eq!(c, "nope"),
        other => panic!("unexpected: {:?}", other),
    }
}

#[test]
fn test_find_by_columns_sql() {
    let cols = vec!["username".to_string(), "email".to_string()];
    assert_eq!(
        find_by_columns_sql::<User>(DbType::Postgres, &cols, 2).unwrap(),
        format!("SELECT {} FROM users WHERE username = $1 AND email = $2", ALL_COLS)
    );
    // An empty filter degrades to the fetch-all statement.
    let none: Vec<String> = vec![];
    assert_eq!(
        find_by_columns_sql::<User>(DbType::Postgres, &none, 0).unwrap(),
        find_all_sql::<User>()
    );
    // A column/value arity mismatch is a caller error.
    match find_by_columns_sql::<User>(DbType::Postgres, &cols, 3) {
        Err(ApiError::InternalServer(m)) => assert_eq!(m, "Columns and values length mismatch"),
        other => panic!("unexpected: {:?}", other),
    }
}

#[test]
fn test_count_all_sql() {
    assert_eq!(count_all_sql::<User>(), "SELECT COUNT(*) as count FROM users");
}

#[test]
fn test_paginate_sql() {
    assert_eq!(
        paginate_sql::<User>(1, 10),
        format!("SELECT {} FROM users ORDER BY id ASC LIMIT 10 OFFSET 0", ALL_COLS)
    );
    assert_eq!(
        paginate_sql::<User>(3, 10),
        format!("SELECT {} FROM users ORDER BY id ASC LIMIT 10 OFFSET 20", ALL_COLS)
    );
    assert_eq!(paginate_sql::<User>(0, 10), paginate_sql::<User>(1, 10));
}

#[test]
fn test_create_plan() {
    let mut user = sample_user();
    let (sql, params) = create_plan(&mut user, 1_000_000_000, DbType::Postgres);
    assert_eq!(
        sql,
        format!(
            "INSERT INTO users ({}) VALUES ($1, $2, $3, $4, $5, $6) RETURNING {}",
            ALL_COLS, ALL_COLS
        )
    );
    assert_eq!(user.created_at, 1_000_000_000);
    assert_eq!(user.updated_at, 1_000_000_000);
    assert_eq!(params.len(), 6);
    assert_eq!(params[0], BindValue::Str("0000".to_string()));
    assert_eq!(params[1], BindValue::Str("u".to_string()));
    assert_eq!(params[4], BindValue::Str("2001-09-09T01:46:40+00:00".to_string()));
    assert_eq!(params[5], BindValue::Str("2001-09-09T01:46:40+00:00".to_string()));
}

#[test]
fn test_create_many_plan() {
    // An empty batch plans nothing: no statement exists to run.
    assert!(create_many_plan::<User>(vec![], 0, DbType::Postgres).is_none());
    let mut second = sample_user();
    second.id = "1111".to_string();
    let (sql, planned) =
        create_many_plan(vec![sample_user(), second], 1_000_000_000, DbType::Postgres).unwrap();
    assert_eq!(
        sql,
        format!(
            "INSERT INTO users ({}) VALUES ($1, $2, $3, $4, $5, $6) RETURNING {}",
            ALL_COLS, ALL_COLS
        )
    );
    assert_eq!(planned.len(), 2);
    // Every entry is stamped with the one shared timestamp.
    for (entry, params) in &planned {
        assert_eq!(entry.created_at, 1_000_000_000);
        assert_eq!(entry.updated_at, 1_000_000_000);
        assert_eq!(params.len(), 6);
        assert_eq!(params[4], BindValue::Str("2001-09-09T01:46:40+00:00".to_string()));
    }
    assert_eq!(planned[0].1[0], BindValue::Str("0000".to_string()));
    assert_eq!(planned[1].1[0], BindValue::Str("1111".to_string()));
}

#[test]
fn test_transaction_outcome() {
    let (action, carried) = transaction_outcome(Ok(7u64));
    assert_eq!(action, TxAction::Commit);
    assert_eq!(carried.unwrap(), 7);
    let (action, carried) = transaction_outcome::<u64>(Err(ApiError::NotFound("row".to_string())));
    assert_eq!(action, TxAction::Rollback);
    match carried {
        Err(ApiError::NotFound(m)) => assert_eq!(m, "row"),
        other => panic!("unexpected: {:?}", other),
    }
}

#[test]
fn test_update_plan() {
    let mut user = sample_user();
    let (sql, params) = update_plan(&mut user, 0, DbType::Postgres);
    assert_eq!(
        sql,
        format!(
            "UPDATE users SET id = $1, username = $2, email = $3, password_hash = $4, \
             created_at = $5, updated_at = $6 WHERE id = $7 RETURNING {}",
            ALL_COLS
        )
    );
    assert_eq!(user.updated_at, 0);
    assert_eq!(user.created_at, 5);
    assert_eq!(params.len(), 6);
    assert_eq!(params[5], BindValue::Str("1970-01-01T00:00:00+00:00".to_string()));
}

#[test]
fn test_update_partial_plan() {
    let columns = vec!["username".to_string(), "email".to_string()];
    let values = vec![
        BindValue::Str("new-name".to_string()),
        BindValue::Str("new@x".to_string()),
    ];
    let bump = BindValue::Str("2001-09-09T01:46:40+00:00".to_string());
    let (sql, params) =
        update_partial_plan::<User>(DbType::Postgres, &columns, values, bump.clone()).unwrap();
    assert_eq!(
        sql,
        format!(
            "UPDATE users SET username = $1, email = $2, updated_at = $3 WHERE id = $4 RETURNING {}",
            ALL_COLS
        )
    );
    assert_eq!(params.len(), 3);
    assert_eq!(params[2], bump);

    // An empty pair list is a caller error, not a silent no-op.
    match update_partial_plan::<User>(DbType::Postgres, &vec![], vec![], BindValue::Null) {
        Err(ApiError::BadRequest(m)) => assert_eq!(m, "Empty columns or values"),
        other => panic!("unexpected: {:?}", other),
    }
    // So is a column/value arity mismatch.
    assert!(update_partial_plan::<User>(
        DbType::Postgres,
        &vec!["username".to_string()],
        vec![],
        BindValue::Null
    )
    .is_err());
    // And an unknown column.
    assert!(update_partial_plan::<User>(
        DbType::Postgres,
        &vec!["nope".to_string()],
        vec![BindValue::Null],
        BindValue::Null
    )
    .is_err());
}

#[test]
fn test_delete_sql_and_result() {
    assert_eq!(delete_by_id_sql::<User>(DbType::Postgres), "DELETE FROM users WHERE id = $1");
    assert!(delete_result(1));
    assert!(delete_result(3));
    assert!(!delete_result(0));
}

#[test]
fn test_delete_many_short_circuit() {
    assert!(delete_many_sql::<User>(DbType::Postgres, 0).is_none());
    assert_eq!(
        delete_many_sql::<User>(DbType::Postgres, 3).unwrap(),
        "DELETE FROM users WHERE id IN ($1, $2, $3)"
    );
}

#[test]
fn test_exists() {
    assert_eq!(exists_sql::<User>(DbType::Postgres), "SELECT COUNT(*) FROM users WHERE id = $1");
    assert!(exists_from_count(1));
    assert!(!exists_from_count(0));
}

#[test]
fn test_find_by_values_short_circuit() {
    // An empty value list issues no SQL at all.
    assert!(find_by_values_plan::<User>(DbType::Postgres, "id", vec![]).unwrap().is_none());
    let (sql, params) = find_by_values_plan::<User>(
        DbType::Postgres,
        "id",
        vec![BindValue::Int(1), BindValue::Int(2)],
    )
    .unwrap()
    .unwrap();
    assert_eq!(sql, format!("SELECT {} FROM users WHERE id IN ($1, $2)", ALL_COLS));
    assert_eq!(params, vec![BindValue::Int(1), BindValue::Int(2)]);
    assert!(find_by_values_plan::<User>(DbType::Postgres, "nope", vec![BindValue::Int(1)]).is_err());
}

#[test]
fn test_find_by_range_plan() {
    let (sql, params) =
        find_by_range_plan::<User>(DbType::Postgres, "created_at", BindValue::Int(4), BindValue::Int(9))
            .unwrap();
    assert_eq!(
        sql,
        format!("SELECT {} FROM users WHERE created_at BETWEEN $1 AND $2", ALL_COLS)
    );
    assert_eq!(params, vec![BindValue::Int(4), BindValue::Int(9)]);
}

#[test]
fn test_search_by_pattern_plan() {
    let (sql, params) =
        search_by_pattern_plan::<User>(DbType::Postgres, "username", "ali", false, Some(5)).unwrap();
    assert_eq!(
        sql,
        format!("SELECT {} FROM users WHERE username ILIKE $1 LIMIT 5", ALL_COLS)
    );
    assert_eq!(params, vec![BindValue::Str("%ali%".to_string())]);
    let (case_sql, _) =
        search_by_pattern_plan::<User>(DbType::Postgres, "username", "ali", true, None).unwrap();
    assert_eq!(case_sql, format!("SELECT {} FROM users WHERE username LIKE $1", ALL_COLS));
}

#[test]
fn test_find_advanced_plan() {
    let conditions = vec![
        ("username".to_string(), BindValue::Str("bob".to_string())),
        ("email".to_string(), BindValue::Str("b@x".to_string())),
    ];
    let (sql, params) = find_advanced_plan::<User>(
        DbType::Postgres,
        &conditions,
        Some(("created_at", OrderDirection::Desc)),
        Some(5),
        Some(10),
    )
    .unwrap();
    assert_eq!(
        sql,
        format!(
            "SELECT {} FROM users WHERE username = $1 AND email = $2 \
             ORDER BY created_at DESC LIMIT 5 OFFSET 10",
            ALL_COLS
        )
    );
    assert_eq!(
        params,
        vec![
            BindValue::Str("bob".to_string()),
            BindValue::Str("b@x".to_string()),
        ]
    );
    let bad = vec![("nope".to_string(), BindValue::Null)];
    assert!(find_advanced_plan::<User>(DbType::Postgres, &bad, None, None, None).is_err());
}

#[test]
fn test_paginate_sorted_plan() {
    let (sql, _) = paginate_sorted_plan::<User>(DbType::Postgres, 2, 10, None, None).unwrap();
    assert_eq!(
        sql,
        format!("SELECT {} FROM users ORDER BY id ASC LIMIT 10 OFFSET 10", ALL_COLS)
    );
    let (sorted, _) = paginate_sorted_plan::<User>(
        DbType::Postgres,
        1,
        5,
        Some("email"),
        Some(OrderDirection::Desc),
    )
    .unwrap();
    assert_eq!(
        sorted,
        format!("SELECT {} FROM users ORDER BY email DESC LIMIT 5 OFFSET 0", ALL_COLS)
    );
}
