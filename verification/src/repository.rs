//! The pure planning half of the generic repository.
//!
//! Each CRUD operation is split in two: the functions here render its
//! SQL text and ordered bind plan from the entity contract, and an
//! executor (outside the library) binds the parameters in order and
//! runs the statement.  Timestamps are stamped from a caller-supplied
//! clock value, so every plan is a function of its arguments.

use vstd::prelude::*;
use crate::builder::{QueryBuilderUtil, QuerySpec};
use crate::dialect::DbType;
use crate::entry::Entry;
use crate::errors::ApiError;
use crate::query_models::{ClauseSpec, ComparisonOperator, CondSpec, LogicalOperator, OrderDirection};
use crate::render::{clause_params, cond_params, entries_params, spec_ph_list};
use crate::statements::spec_select_sql;
use crate::strutil::{contains_str, push_joined_from, push_str, push_u64, spec_digits, spec_join};
use crate::values::{BindSpec, BindValue, bind_views};

verus! {

/// A where tree holding one bare condition binds exactly that
/// condition's parameters.
pub proof fn lemma_single_condition_params(c: CondSpec)
    ensures
        entries_params(seq![(ClauseSpec::Condition(c), None::<LogicalOperator>)]) == cond_params(
            c,
        ),
{
    let s = seq![(ClauseSpec::Condition(c), None::<LogicalOperator>)];
    assert(s[0] == (ClauseSpec::Condition(c), None::<LogicalOperator>));
    assert(s.drop_first() =~= Seq::<(ClauseSpec, Option<LogicalOperator>)>::empty());
    assert(clause_params(s[0].0) == cond_params(c));
    assert(entries_params(s.drop_first()) =~= Seq::<BindSpec>::empty());
    assert(cond_params(c) + Seq::<BindSpec>::empty() =~= cond_params(c));
    assert(entries_params(s) =~= cond_params(c));
}

/// The column list of `T`, comma-separated.
pub open spec fn spec_columns_joined<T: Entry>() -> Seq<char> {
    spec_join(T::spec_columns(), ", "@)
}

/// `SELECT <columns> FROM <table>`.
pub open spec fn spec_find_all_sql<T: Entry>() -> Seq<char> {
    "SELECT "@ + spec_columns_joined::<T>() + " FROM "@ + T::spec_table_name()
}

/// Renders the statement fetching every row of `T`'s table.
pub fn find_all_sql<T: Entry>() -> (r: String)
    ensures
        r@ == spec_find_all_sql::<T>(),
{
    let mut sql = String::new();
    push_str(&mut sql, "SELECT ");
    let cols = T::columns();
    push_joined_from(&mut sql, &cols, ", ", 0);
    push_str(&mut sql, " FROM ");
    let table = T::table_name();
    push_str(&mut sql, table.as_str());
    proof {
        assert(sql@ =~= spec_find_all_sql::<T>());
    }
    sql
}

/// `SELECT <columns> FROM <table> WHERE id = <placeholder 1>`.
pub open spec fn spec_find_by_id_sql<T: Entry>(db: DbType) -> Seq<char> {
    "SELECT "@ + spec_columns_joined::<T>() + " FROM "@ + T::spec_table_name() + " WHERE id = "@
        + db.spec_placeholder(1)
}

/// Renders the single-row fetch by primary key; the caller binds the id
/// as the one parameter.  A missing row is the executor's `NotFound`.
pub fn find_by_id_sql<T: Entry>(db: DbType) -> (r: String)
    ensures
        r@ == spec_find_by_id_sql::<T>(db),
{
    let mut sql = String::new();
    push_str(&mut sql, "SELECT ");
    let cols = T::columns();
    push_joined_from(&mut sql, &cols, ", ", 0);
    push_str(&mut sql, " FROM ");
    let table = T::table_name();
    push_str(&mut sql, table.as_str());
    push_str(&mut sql, " WHERE id = ");
    let ph = db.placeholder(1);
    push_str(&mut sql, ph.as_str());
    proof {
        assert(sql@ =~= spec_find_by_id_sql::<T>(db));
    }
    sql
}

/// `SELECT <columns> FROM <table> WHERE <column> = <placeholder 1>`.
pub open spec fn spec_find_by_column_sql<T: Entry>(db: DbType, column: Seq<char>) -> Seq<char> {
    "SELECT "@ + spec_columns_joined::<T>() + " FROM "@ + T::spec_table_name() + " WHERE "@
        + column + " = "@ + db.spec_placeholder(1)
}

/// Renders the equality filter on one validated column; the caller
/// binds the value as the one parameter.
pub fn find_by_column_sql<T: Entry>(db: DbType, column: &str) -> (r: Result<String, ApiError>)
    ensures
        r is Ok <==> T::spec_columns().contains(column@),
        r matches Ok(sql) ==> sql@ == spec_find_by_column_sql::<T>(db, column@),
        r matches Err(e) ==> (e matches ApiError::InvalidColumn(c) && c@ == column@),
{
    let cols = T::columns();
    if !contains_str(&cols, column) {
        return Err(ApiError::InvalidColumn(column.to_owned()));
    }
    let mut sql = String::new();
    push_str(&mut sql, "SELECT ");
    push_joined_from(&mut sql, &cols, ", ", 0);
    push_str(&mut sql, " FROM ");
    let table = T::table_name();
    push_str(&mut sql, table.as_str());
    push_str(&mut sql, " WHERE ");
    push_str(&mut sql, column);
    push_str(&mut sql, " = ");
    let ph = db.placeholder(1);
    push_str(&mut sql, ph.as_str());
    proof {
        assert(sql@ =~= spec_find_by_column_sql::<T>(db, column@));
    }
    Ok(sql)
}

/// The conjunction `c1 = $1 AND c2 = $2 AND ...` over the given
/// columns, placeholders numbered from one.
pub open spec fn spec_eq_conjunction(columns: Seq<Seq<char>>, db: DbType) -> Seq<char>
    decreases columns,
{
    if columns.len() == 0 {
        Seq::empty()
    } else if columns.len() == 1 {
        columns[0] + " = "@ + db.spec_placeholder(1)
    } else {
        spec_eq_conjunction(columns.drop_last(), db) + " AND "@ + columns.last() + " = "@
            + db.spec_placeholder(columns.len())
    }
}

/// `SELECT <columns> FROM <table> WHERE c1 = $1 AND c2 = $2 ...`.
pub open spec fn spec_find_by_columns_sql<T: Entry>(
    db: DbType,
    columns: Seq<Seq<char>>,
) -> Seq<char> {
    "SELECT "@ + spec_columns_joined::<T>() + " FROM "@ + T::spec_table_name() + " WHERE "@
        + spec_eq_conjunction(columns, db)
}

/// Renders the multi-column equality fetch.  An empty column or value
/// count degrades to the fetch-all statement; a column/value arity
/// mismatch is a caller contract violation and fails as
/// `InternalServer`; an unknown column fails as `InvalidColumn`.
pub fn find_by_columns_sql<T: Entry>(db: DbType, columns: &Vec<String>, n_values: usize) -> (r:
    Result<String, ApiError>)
    ensures
        (columns@.len() == 0 || n_values == 0) ==> (r matches Ok(sql) && sql@
            == spec_find_all_sql::<T>()),
        (columns@.len() > 0 && n_values > 0 && columns@.len() != n_values) ==> (r matches Err(e)
            && e matches ApiError::InternalServer(m) && m@ == "Columns and values length mismatch"@),
        (columns@.len() > 0 && columns@.len() == n_values && forall|i: int|
            0 <= i < columns@.len() ==> T::spec_columns().contains(#[trigger] columns@[i]@)) ==> (
        r matches Ok(sql) && sql@ == spec_find_by_columns_sql::<T>(
            db,
            columns@.map_values(|s: String| s@),
        )),
        r matches Err(e) ==> ((e matches ApiError::InternalServer(m) && m@
            == "Columns and values length mismatch"@) || (e matches ApiError::InvalidColumn(c)
            && !T::spec_columns().contains(c@))),
{
    if columns.len() == 0 || n_values == 0 {
        return Ok(find_all_sql::<T>());
    }
    if columns.len() != n_values {
        return Err(ApiError::InternalServer("Columns and values length mismatch".to_owned()));
    }
    let declared = T::columns();
    let ghost colv = columns@.map_values(|s: String| s@);
    let mut sql = String::new();
    push_str(&mut sql, "SELECT ");
    push_joined_from(&mut sql, &declared, ", ", 0);
    push_str(&mut sql, " FROM ");
    let table = T::table_name();
    push_str(&mut sql, table.as_str());
    push_str(&mut sql, " WHERE ");
    let ghost pre = sql@;
    let n = columns.len();
    let mut k: usize = 0;
    proof {
        assert(colv.take(0) =~= Seq::<Seq<char>>::empty());
        assert(sql@ =~= pre + spec_eq_conjunction(colv.take(0), db));
    }
    while k < n
        invariant
            n == columns@.len(),
            n == n_values,
            n > 0,
            colv == columns@.map_values(|s: String| s@),
            k <= n,
            declared@.map_values(|s: String| s@) == T::spec_columns(),
            sql@ == pre + spec_eq_conjunction(colv.take(k as int), db),
            forall|m: int| 0 <= m < k ==> T::spec_columns().contains(#[trigger] colv[m]),
        decreases n - k,
    {
        if !contains_str(&declared, columns[k].as_str()) {
            return Err(ApiError::InvalidColumn(columns[k].clone()));
        }
        if k > 0 {
            push_str(&mut sql, " AND ");
        }
        push_str(&mut sql, columns[k].as_str());
        push_str(&mut sql, " = ");
        let ph = db.placeholder(k + 1);
        push_str(&mut sql, ph.as_str());
        proof {
            assert(colv[k as int] == columns@[k as int]@);
            assert(colv.take(k as int + 1).drop_last() =~= colv.take(k as int));
            assert(colv.take(k as int + 1).last() == colv[k as int]);
            assert(sql@ =~= pre + spec_eq_conjunction(colv.take(k as int + 1), db));
        }
        k = k + 1;
    }
    proof {
        assert(colv.take(n as int) =~= colv);
        assert(sql@ =~= spec_find_by_columns_sql::<T>(db, colv));
    }
    Ok(sql)
}

/// `SELECT COUNT(*) as count FROM <table>`.
pub open spec fn spec_count_all_sql<T: Entry>() -> Seq<char> {
    "SELECT COUNT(*) as count FROM "@ + T::spec_table_name()
}

/// Renders the row-count statement for `T`'s table.
pub fn count_all_sql<T: Entry>() -> (r: String)
    ensures
        r@ == spec_count_all_sql::<T>(),
{
    let mut sql = String::new();
    push_str(&mut sql, "SELECT COUNT(*) as count FROM ");
    let table = T::table_name();
    push_str(&mut sql, table.as_str());
    proof {
        assert(sql@ =~= spec_count_all_sql::<T>());
    }
    sql
}

/// The clamped page base: pages are 1-indexed, and page zero behaves
/// like page one.
pub open spec fn spec_page_base(page: u32) -> int {
    if page > 1 {
        page - 1
    } else {
        0
    }
}

/// `SELECT <columns> FROM <table> ORDER BY id ASC LIMIT <page_size>
/// OFFSET <(page-1)*page_size>`.
pub open spec fn spec_paginate_sql<T: Entry>(page: u32, page_size: u32) -> Seq<char> {
    "SELECT "@ + spec_columns_joined::<T>() + " FROM "@ + T::spec_table_name()
        + " ORDER BY id ASC LIMIT "@ + spec_digits(page_size as nat) + " OFFSET "@ + spec_digits(
        (spec_page_base(page) * page_size) as nat,
    )
}

/// Renders one page of rows ordered by primary key ascending.
pub fn paginate_sql<T: Entry>(page: u32, page_size: u32) -> (r: String)
    requires
        spec_page_base(page) * page_size <= u32::MAX,
    ensures
        r@ == spec_paginate_sql::<T>(page, page_size),
{
    let base: u32 = if page > 1 {
        page - 1
    } else {
        0
    };
    let offset: u32 = base * page_size;
    let mut sql = String::new();
    push_str(&mut sql, "SELECT ");
    let cols = T::columns();
    push_joined_from(&mut sql, &cols, ", ", 0);
    push_str(&mut sql, " FROM ");
    let table = T::table_name();
    push_str(&mut sql, table.as_str());
    push_str(&mut sql, " ORDER BY id ASC LIMIT ");
    push_u64(&mut sql, page_size as u64);
    push_str(&mut sql, " OFFSET ");
    push_u64(&mut sql, offset as u64);
    proof {
        assert(sql@ =~= spec_paginate_sql::<T>(page, page_size));
    }
    sql
}

/// The comma-separated insertable column list of `T`.
pub open spec fn spec_insertable_joined<T: Entry>() -> Seq<char> {
    spec_join(T::spec_insertable_columns(), ", "@)
}

/// `INSERT INTO <table> (<insertable>) VALUES (<placeholders>)
/// RETURNING <columns>`.
pub open spec fn spec_create_sql<T: Entry>(db: DbType) -> Seq<char> {
    "INSERT INTO "@ + T::spec_table_name() + " ("@ + spec_insertable_joined::<T>()
        + ") VALUES ("@ + spec_ph_list(db, 1, T::spec_insertable_columns().len()) + ")"@
        + " RETURNING "@ + spec_columns_joined::<T>()
}

/// Renders the insert statement returning the persisted row.
pub fn create_sql<T: Entry>(db: DbType) -> (r: String)
    ensures
        r@ == spec_create_sql::<T>(db),
{
    let mut sql = String::new();
    push_str(&mut sql, "INSERT INTO ");
    let table = T::table_name();
    push_str(&mut sql, table.as_str());
    push_str(&mut sql, " (");
    let insertable = T::insertable_columns();
    push_joined_from(&mut sql, &insertable, ", ", 0);
    push_str(&mut sql, ") VALUES (");
    let n = insertable.len();
    let mut k: usize = 0;
    let ghost pre_ph = sql@;
    proof {
        assert(sql@ =~= pre_ph + spec_ph_list(db, 1, 0));
    }
    while k < n
        invariant
            k <= n,
            sql@ == pre_ph + spec_ph_list(db, 1, k as nat),
        decreases n - k,
    {
        if k > 0 {
            push_str(&mut sql, ", ");
        }
        let ph = db.placeholder(k + 1);
        push_str(&mut sql, ph.as_str());
        proof {
            assert(sql@ =~= pre_ph + spec_ph_list(db, 1, (k + 1) as nat));
        }
        k = k + 1;
    }
    push_str(&mut sql, ")");
    push_str(&mut sql, " RETURNING ");
    let cols = T::columns();
    push_joined_from(&mut sql, &cols, ", ", 0);
    proof {
        assert(insertable@.map_values(|s: String| s@).len() == T::spec_insertable_columns().len());
        assert(sql@ =~= spec_create_sql::<T>(db));
    }
    sql
}

/// Stamps both timestamps to `now` and renders the insert returning the
/// persisted row; the plan's parameters are the stamped entity's bind
/// values, aligned with the insertable columns.
pub fn create_plan<T: Entry>(entry: &mut T, now: i64, db: DbType) -> (r: (String, Vec<BindValue>))
    ensures
        *final(entry) == old(entry).spec_with_created_at(now).spec_with_updated_at(now),
        r.0@ == spec_create_sql::<T>(db),
        bind_views(r.1@) == final(entry).spec_bind_values(),
{
    entry.set_created_at(now);
    entry.set_updated_at(now);
    let sql = create_sql::<T>(db);
    let params = entry.to_bind_values();
    (sql, params)
}

/// Plans the all-or-nothing batch insert: nothing at all for an empty
/// batch (the short-circuit issues no SQL), otherwise one shared insert
/// statement and, per entry, the entry stamped with the one shared
/// timestamp alongside its ordered bind values.  The surrounding
/// transaction runs every plan or none.
pub fn create_many_plan<T: Entry>(entries: Vec<T>, now: i64, db: DbType) -> (r: Option<
    (String, Vec<(T, Vec<BindValue>)>),
>)
    ensures
        entries@.len() == 0 <==> r is None,
        r matches Some(p) ==> {
            &&& p.0@ == spec_create_sql::<T>(db)
            &&& p.1@.len() == entries@.len()
            &&& forall|i: int|
                0 <= i < entries@.len() ==> (#[trigger] p.1@[i]).0 == entries@[
                    i
                ].spec_with_created_at(now).spec_with_updated_at(now) && bind_views(p.1@[i].1@)
                    == p.1@[i].0.spec_bind_values()
        },
{
    if entries.len() == 0 {
        return None;
    }
    let ghost all = entries@;
    let sql = create_sql::<T>(db);
    let mut rest = entries;
    let mut out: Vec<(T, Vec<BindValue>)> = Vec::new();
    while rest.len() > 0
        invariant
            rest@.len() <= all.len(),
            rest@ == all.subrange(all.len() - rest@.len(), all.len() as int),
            out@.len() == all.len() - rest@.len(),
            forall|i: int|
                0 <= i < out@.len() ==> (#[trigger] out@[i]).0 == all[i].spec_with_created_at(
                    now,
                ).spec_with_updated_at(now) && bind_views(out@[i].1@) == out@[
                    i
                ].0.spec_bind_values(),
        decreases rest@.len(),
    {
        let ghost pre_rest = rest@;
        let ghost done = all.len() - pre_rest.len();
        let mut entry = rest.remove(0);
        proof {
            assert(pre_rest[0] == all[done]);
            assert(rest@ =~= all.subrange(done + 1, all.len() as int));
        }
        entry.set_created_at(now);
        entry.set_updated_at(now);
        let params = entry.to_bind_values();
        out.push((entry, params));
    }
    Some((sql, out))
}

/// How a transaction concludes on its unit of work's outcome.
#[derive(Clone, Copy, Debug, PartialEq, Eq, Structural)]
pub enum TxAction {
    Commit,
    Rollback,
}

/// Decides a transaction's conclusion: commit exactly on success, roll
/// back on any failure, handing the outcome itself back unchanged — the
/// original error is never re-wrapped.
pub fn transaction_outcome<R>(result: Result<R, ApiError>) -> (r: (TxAction, Result<R, ApiError>))
    ensures
        (r.0 == TxAction::Commit) <==> result is Ok,
        r.1 == result,
{
    let action = if result.is_ok() {
        TxAction::Commit
    } else {
        TxAction::Rollback
    };
    (action, result)
}

/// `UPDATE <table> SET c1 = $1, ... WHERE id = $n+1 RETURNING
/// <columns>`, assignments over the insertable columns.
pub open spec fn spec_update_entity_sql<T: Entry>(db: DbType) -> Seq<char> {
    "UPDATE "@ + T::spec_table_name() + " SET "@ + spec_assign_list(
        T::spec_insertable_columns(),
        db,
    ) + " WHERE id = "@ + db.spec_placeholder(T::spec_insertable_columns().len() + 1)
        + " RETURNING "@ + spec_columns_joined::<T>()
}

/// The assignments `c1 = $1, c2 = $2, ...` over the given columns.
pub open spec fn spec_assign_list(columns: Seq<Seq<char>>, db: DbType) -> Seq<char>
    decreases columns,
{
    if columns.len() == 0 {
        Seq::empty()
    } else if columns.len() == 1 {
        columns[0] + " = "@ + db.spec_placeholder(1)
    } else {
        spec_assign_list(columns.drop_last(), db) + ", "@ + columns.last() + " = "@
            + db.spec_placeholder(columns.len())
    }
}

/// Stamps the update timestamp to `now` and renders the full-row update
/// scoped to one id; the caller binds the entity's values first and the
/// id last.
pub fn update_plan<T: Entry>(entry: &mut T, now: i64, db: DbType) -> (r: (String, Vec<BindValue>))
    requires
        T::spec_insertable_columns().len() < usize::MAX,
    ensures
        *final(entry) == old(entry).spec_with_updated_at(now),
        r.0@ == spec_update_entity_sql::<T>(db),
        bind_views(r.1@) == final(entry).spec_bind_values(),
{
    entry.set_updated_at(now);
    let mut sql = String::new();
    push_str(&mut sql, "UPDATE ");
    let table = T::table_name();
    push_str(&mut sql, table.as_str());
    push_str(&mut sql, " SET ");
    let insertable = T::insertable_columns();
    let ghost icols = T::spec_insertable_columns();
    let ghost pre = sql@;
    let n = insertable.len();
    let mut k: usize = 0;
    proof {
        assert(icols.take(0) =~= Seq::<Seq<char>>::empty());
        assert(sql@ =~= pre + spec_assign_list(icols.take(0), db));
    }
    while k < n
        invariant
            n == insertable@.len(),
            insertable@.map_values(|s: String| s@) == icols,
            k <= n,
            sql@ == pre + spec_assign_list(icols.take(k as int), db),
        decreases n - k,
    {
        if k > 0 {
            push_str(&mut sql, ", ");
        }
        push_str(&mut sql, insertable[k].as_str());
        push_str(&mut sql, " = ");
        let ph = db.placeholder(k + 1);
        push_str(&mut sql, ph.as_str());
        proof {
            assert(icols[k as int] == insertable@[k as int]@);
            assert(icols.take(k as int + 1).drop_last() =~= icols.take(k as int));
            assert(icols.take(k as int + 1).last() == icols[k as int]);
            assert(sql@ =~= pre + spec_assign_list(icols.take(k as int + 1), db));
        }
        k = k + 1;
    }
    proof {
        assert(icols.take(n as int) =~= icols);
    }
    push_str(&mut sql, " WHERE id = ");
    let ph = db.placeholder(n + 1);
    push_str(&mut sql, ph.as_str());
    push_str(&mut sql, " RETURNING ");
    let cols = T::columns();
    push_joined_from(&mut sql, &cols, ", ", 0);
    let params = entry.to_bind_values();
    proof {
        assert(sql@ =~= spec_update_entity_sql::<T>(db));
    }
    (sql, params)
}

/// `UPDATE <table> SET c1 = $1, ..., cn = $n, updated_at = $n+1
/// WHERE id = $n+2 RETURNING <columns>`: the partial update always
/// bumps the update timestamp.
pub open spec fn spec_update_partial_sql<T: Entry>(
    db: DbType,
    columns: Seq<Seq<char>>,
) -> Seq<char> {
    "UPDATE "@ + T::spec_table_name() + " SET "@ + spec_assign_list(
        columns.push("updated_at"@),
        db,
    ) + " WHERE id = "@ + db.spec_placeholder(columns.len() + 2) + " RETURNING "@
        + spec_columns_joined::<T>()
}

/// Plans the partial update: the supplied column/value pairs plus a
/// forced `updated_at` bump (bound as `bump`), scoped to one id, which
/// the caller binds last.  An empty or mismatched pair list is a caller
/// error, not a silent no-op.
#[verifier::rlimit(100)]
#[verifier::spinoff_prover]
pub fn update_partial_plan<T: Entry>(
    db: DbType,
    columns: &Vec<String>,
    values: Vec<BindValue>,
    bump: BindValue,
) -> (r: Result<(String, Vec<BindValue>), ApiError>)
    requires
        columns@.len() + 2 <= usize::MAX,
    ensures
        (columns@.len() == 0 || values@.len() == 0 || columns@.len() != values@.len()) ==> (
        r matches Err(e) && e matches ApiError::BadRequest(m) && m@ == "Empty columns or values"@),
        (columns@.len() > 0 && columns@.len() == values@.len() && (forall|i: int|
            0 <= i < columns@.len() ==> T::spec_columns().contains(#[trigger] columns@[i]@)))
            ==> r is Ok,
        r matches Ok(plan) ==> {
            &&& columns@.len() > 0
            &&& columns@.len() == values@.len()
            &&& (forall|i: int|
                0 <= i < columns@.len() ==> T::spec_columns().contains(#[trigger] columns@[i]@))
            &&& plan.0@ == spec_update_partial_sql::<T>(db, columns@.map_values(|s: String| s@))
            &&& bind_views(plan.1@) == bind_views(values@).push(bump@)
        },
        r matches Err(e) ==> ((e matches ApiError::BadRequest(m) && m@
            == "Empty columns or values"@) || (e matches ApiError::InvalidColumn(c)
            && !T::spec_columns().contains(c@) && (exists|i: int|
            0 <= i < columns@.len() && #[trigger] columns@[i]@ == c@))),
{
    if columns.len() == 0 || values.len() == 0 || columns.len() != values.len() {
        return Err(ApiError::BadRequest("Empty columns or values".to_owned()));
    }
    let declared = T::columns();
    let ghost colv = columns@.map_values(|s: String| s@);
    let mut sql = String::new();
    push_str(&mut sql, "UPDATE ");
    let table = T::table_name();
    push_str(&mut sql, table.as_str());
    push_str(&mut sql, " SET ");
    let ghost pre = sql@;
    let n = columns.len();
    let mut k: usize = 0;
    proof {
        assert(colv.take(0) =~= Seq::<Seq<char>>::empty());
        assert(sql@ =~= pre + spec_assign_list(colv.take(0), db));
    }
    while k < n
        invariant
            n == columns@.len(),
            n == values@.len(),
            n > 0,
            n + 2 <= usize::MAX,
            colv == columns@.map_values(|s: String| s@),
            k <= n,
            declared@.map_values(|s: String| s@) == T::spec_columns(),
            sql@ == pre + spec_assign_list(colv.take(k as int), db),
            forall|m: int| 0 <= m < k ==> T::spec_columns().contains(#[trigger] colv[m]),
        decreases n - k,
    {
        if !contains_str(&declared, columns[k].as_str()) {
            proof {
                assert(columns@[k as int]@ == colv[k as int]);
            }
            return Err(ApiError::InvalidColumn(columns[k].clone()));
        }
        if k > 0 {
            push_str(&mut sql, ", ");
        }
        push_str(&mut sql, columns[k].as_str());
        push_str(&mut sql, " = ");
        let ph = db.placeholder(k + 1);
        push_str(&mut sql, ph.as_str());
        proof {
            assert(colv[k as int] == columns@[k as int]@);
            assert(colv.take(k as int + 1).drop_last() =~= colv.take(k as int));
            assert(colv.take(k as int + 1).last() == colv[k as int]);
            assert(sql@ =~= pre + spec_assign_list(colv.take(k as int + 1), db));
        }
        k = k + 1;
    }
    push_str(&mut sql, ", updated_at = ");
    let ph = db.placeholder(n + 1);
    push_str(&mut sql, ph.as_str());
    push_str(&mut sql, " WHERE id = ");
    let ph_id = db.placeholder(n + 2);
    push_str(&mut sql, ph_id.as_str());
    push_str(&mut sql, " RETURNING ");
    push_joined_from(&mut sql, &declared, ", ", 0);
    let ghost params_before = values@;
    let mut params = values;
    params.push(bump);
    proof {
        crate::values::lemma_bind_views_push(params_before, params@.last());
        assert(colv.take(n as int) =~= colv);
        assert(colv.push("updated_at"@).drop_last() =~= colv);
        assert(colv.push("updated_at"@).last() == "updated_at"@);
        reveal_strlit(", ");
        reveal_strlit("updated_at");
        reveal_strlit(" = ");
        reveal_strlit(", updated_at = ");
        assert(spec_assign_list(colv.push("updated_at"@), db) =~= spec_assign_list(colv, db)
            + ", "@ + "updated_at"@ + " = "@ + db.spec_placeholder((n + 1) as nat));
        assert(sql@ =~= spec_update_partial_sql::<T>(db, colv));
        assert forall|i: int| 0 <= i < columns@.len() implies T::spec_columns().contains(
            #[trigger] columns@[i]@,
        ) by {
            assert(colv[i] == columns@[i]@);
            assert(T::spec_columns().contains(colv[i]));
        }
    }
    Ok((sql, params))
}

/// `DELETE FROM <table> WHERE id = <placeholder 1>`.
pub open spec fn spec_delete_by_id_sql<T: Entry>(db: DbType) -> Seq<char> {
    "DELETE FROM "@ + T::spec_table_name() + " WHERE id = "@ + db.spec_placeholder(1)
}

/// Renders the single-row delete; the caller binds the id.
pub fn delete_by_id_sql<T: Entry>(db: DbType) -> (r: String)
    ensures
        r@ == spec_delete_by_id_sql::<T>(db),
{
    let mut sql = String::new();
    push_str(&mut sql, "DELETE FROM ");
    let table = T::table_name();
    push_str(&mut sql, table.as_str());
    push_str(&mut sql, " WHERE id = ");
    let ph = db.placeholder(1);
    push_str(&mut sql, ph.as_str());
    proof {
        assert(sql@ =~= spec_delete_by_id_sql::<T>(db));
    }
    sql
}

/// Whether a delete removed a row: deleting an absent id is not an
/// error, it reports `false`.
pub fn delete_result(rows_affected: u64) -> (r: bool)
    ensures
        r == (rows_affected > 0),
{
    rows_affected > 0
}

/// `DELETE FROM <table> WHERE id IN (<placeholders>)`.
pub open spec fn spec_delete_many_sql<T: Entry>(db: DbType, n_ids: nat) -> Seq<char> {
    "DELETE FROM "@ + T::spec_table_name() + " WHERE id IN ("@ + spec_ph_list(db, 1, n_ids)
        + ")"@
}

/// Renders the multi-row delete, or nothing at all for an empty id
/// list: the short-circuit issues no SQL and deletes zero rows.
pub fn delete_many_sql<T: Entry>(db: DbType, n_ids: usize) -> (r: Option<String>)
    ensures
        n_ids == 0 <==> r is None,
        r matches Some(sql) ==> sql@ == spec_delete_many_sql::<T>(db, n_ids as nat),
{
    if n_ids == 0 {
        return None;
    }
    let mut sql = String::new();
    push_str(&mut sql, "DELETE FROM ");
    let table = T::table_name();
    push_str(&mut sql, table.as_str());
    push_str(&mut sql, " WHERE id IN (");
    let ghost pre = sql@;
    let mut k: usize = 0;
    proof {
        assert(sql@ =~= pre + spec_ph_list(db, 1, 0));
    }
    while k < n_ids
        invariant
            k <= n_ids,
            sql@ == pre + spec_ph_list(db, 1, k as nat),
        decreases n_ids - k,
    {
        if k > 0 {
            push_str(&mut sql, ", ");
        }
        let ph = db.placeholder(k + 1);
        push_str(&mut sql, ph.as_str());
        proof {
            assert(sql@ =~= pre + spec_ph_list(db, 1, (k + 1) as nat));
        }
        k = k + 1;
    }
    push_str(&mut sql, ")");
    proof {
        assert(sql@ =~= spec_delete_many_sql::<T>(db, n_ids as nat));
    }
    Some(sql)
}

/// `SELECT COUNT(*) FROM <table> WHERE id = <placeholder 1>`.
pub open spec fn spec_exists_sql<T: Entry>(db: DbType) -> Seq<char> {
    "SELECT COUNT(*) FROM "@ + T::spec_table_name() + " WHERE id = "@ + db.spec_placeholder(1)
}

/// Renders the existence check by id; the row itself is never
/// materialized.
pub fn exists_sql<T: Entry>(db: DbType) -> (r: String)
    ensures
        r@ == spec_exists_sql::<T>(db),
{
    let mut sql = String::new();
    push_str(&mut sql, "SELECT COUNT(*) FROM ");
    let table = T::table_name();
    push_str(&mut sql, table.as_str());
    push_str(&mut sql, " WHERE id = ");
    let ph = db.placeholder(1);
    push_str(&mut sql, ph.as_str());
    proof {
        assert(sql@ =~= spec_exists_sql::<T>(db));
    }
    sql
}

/// Whether the existence check found a row.
pub fn exists_from_count(count: i64) -> (r: bool)
    ensures
        r == (count > 0),
{
    count > 0
}

/// The query description of a value-set membership fetch.
pub open spec fn spec_find_by_values_query(column: Seq<char>, values: Seq<BindSpec>) -> QuerySpec {
    QuerySpec::empty().with_condition(
        CondSpec { column, operator: ComparisonOperator::In, value: None, values: Some(values) },
    )
}

/// Plans the value-set membership fetch.  An empty value list
/// short-circuits to no statement at all: the caller returns the empty
/// result without touching the database.
pub fn find_by_values_plan<T: Entry>(db: DbType, column: &str, values: Vec<BindValue>) -> (r:
    Result<Option<(String, Vec<BindValue>)>, ApiError>)
    ensures
        values@.len() == 0 ==> (r matches Ok(p) && p is None),
        r matches Ok(p) ==> (p is None <==> values@.len() == 0),
        (values@.len() > 0 && !T::spec_columns().contains(column@)) ==> (r matches Err(e)
            && e matches ApiError::InvalidColumn(c) && c@ == column@),
        (values@.len() > 0 && T::spec_columns().contains(column@)) ==> (r matches Ok(p)
            && p matches Some(plan) && plan.0@ == spec_select_sql(
            spec_find_by_values_query(column@, values@.map_values(|v: BindValue| v@)),
            T::spec_table_name(),
            T::spec_columns(),
            db,
        ) && bind_views(plan.1@) == values@.map_values(|v: BindValue| v@)),
{
    if values.len() == 0 {
        return Ok(None);
    }
    let ghost vals = values@.map_values(|v: BindValue| v@);
    let q = QueryBuilderUtil::<T>::new();
    match q.where_in(column, values) {
        Ok(q2) => {
            proof {
                lemma_single_condition_params(
                    CondSpec {
                        column: column@,
                        operator: ComparisonOperator::In,
                        value: None,
                        values: Some(vals),
                    },
                );
                assert(q2@.where_clauses =~= seq![
                    (
                        ClauseSpec::Condition(
                            CondSpec {
                                column: column@,
                                operator: ComparisonOperator::In,
                                value: None,
                                values: Some(vals),
                            },
                        ),
                        None::<LogicalOperator>,
                    ),
                ]);
                assert(entries_params(q2@.where_clauses) == vals);
            }
            let plan = q2.build_select_query(db);
            proof {
                assert(q2@ =~= spec_find_by_values_query(column@, vals));
            }
            Ok(Some(plan))
        },
        Err(e) => Err(e),
    }
}

/// The query description of an inclusive range fetch.
pub open spec fn spec_find_by_range_query(
    column: Seq<char>,
    start: BindSpec,
    end: BindSpec,
) -> QuerySpec {
    QuerySpec::empty().with_condition(
        CondSpec {
            column,
            operator: ComparisonOperator::Between,
            value: None,
            values: Some(seq![start, end]),
        },
    )
}

/// Plans the inclusive range fetch: `column BETWEEN start AND end`.
pub fn find_by_range_plan<T: Entry>(db: DbType, column: &str, start: BindValue, end: BindValue) -> (r:
    Result<(String, Vec<BindValue>), ApiError>)
    ensures
        r is Ok <==> T::spec_columns().contains(column@),
        r matches Err(e) ==> (e matches ApiError::InvalidColumn(c) && c@ == column@),
        r matches Ok(plan) ==> plan.0@ == spec_select_sql(
            spec_find_by_range_query(column@, start@, end@),
            T::spec_table_name(),
            T::spec_columns(),
            db,
        ) && bind_views(plan.1@) == seq![start@, end@],
{
    let ghost startv = start@;
    let ghost endv = end@;
    let q = QueryBuilderUtil::<T>::new();
    match q.where_between(column, start, end) {
        Ok(q2) => {
            proof {
                lemma_single_condition_params(
                    CondSpec {
                        column: column@,
                        operator: ComparisonOperator::Between,
                        value: None,
                        values: Some(seq![startv, endv]),
                    },
                );
                assert(q2@.where_clauses =~= seq![
                    (
                        ClauseSpec::Condition(
                            CondSpec {
                                column: column@,
                                operator: ComparisonOperator::Between,
                                value: None,
                                values: Some(seq![startv, endv]),
                            },
                        ),
                        None::<LogicalOperator>,
                    ),
                ]);
                assert(entries_params(q2@.where_clauses) == seq![startv, endv]);
            }
            let plan = q2.build_select_query(db);
            proof {
                assert(q2@ =~= spec_find_by_range_query(column@, startv, endv));
            }
            Ok(plan)
        },
        Err(e) => Err(e),
    }
}

/// The pattern wrapped for a substring search: `%pattern%`.
pub open spec fn spec_wrapped_pattern(pattern: Seq<char>) -> Seq<char> {
    "%"@ + pattern + "%"@
}

/// The query description of a pattern search: LIKE when case-sensitive,
/// ILIKE otherwise, with an optional row cap.
pub open spec fn spec_search_query(
    column: Seq<char>,
    pattern: Seq<char>,
    case_sensitive: bool,
    limit: Option<u32>,
) -> QuerySpec {
    let op = if case_sensitive {
        ComparisonOperator::Like
    } else {
        ComparisonOperator::ILike
    };
    let base = QuerySpec::empty().with_condition(
        CondSpec {
            column,
            operator: op,
            value: Some(BindSpec::Str(spec_wrapped_pattern(pattern))),
            values: None,
        },
    );
    QuerySpec { limit, ..base }
}

/// Plans the substring search on one validated column.
pub fn search_by_pattern_plan<T: Entry>(
    db: DbType,
    column: &str,
    pattern: &str,
    case_sensitive: bool,
    limit: Option<u32>,
) -> (r: Result<(String, Vec<BindValue>), ApiError>)
    ensures
        r is Ok <==> T::spec_columns().contains(column@),
        r matches Err(e) ==> (e matches ApiError::InvalidColumn(c) && c@ == column@),
        r matches Ok(plan) ==> plan.0@ == spec_select_sql(
            spec_search_query(column@, pattern@, case_sensitive, limit),
            T::spec_table_name(),
            T::spec_columns(),
            db,
        ) && bind_views(plan.1@) == seq![BindSpec::Str(spec_wrapped_pattern(pattern@))],
{
    let mut search_pattern = String::new();
    push_str(&mut search_pattern, "%");
    push_str(&mut search_pattern, pattern);
    push_str(&mut search_pattern, "%");
    proof {
        assert(search_pattern@ =~= spec_wrapped_pattern(pattern@));
    }
    let ghost cond = CondSpec {
        column: column@,
        operator: if case_sensitive {
            ComparisonOperator::Like
        } else {
            ComparisonOperator::ILike
        },
        value: Some(BindSpec::Str(spec_wrapped_pattern(pattern@))),
        values: None,
    };
    let q = QueryBuilderUtil::<T>::new();
    let attempt = if case_sensitive {
        q.where_like(column, BindValue::Str(search_pattern))
    } else {
        q.where_ilike(column, BindValue::Str(search_pattern))
    };
    match attempt {
        Ok(q2) => {
            let q3 = match limit {
                Some(l) => q2.limit(l),
                None => q2,
            };
            proof {
                lemma_single_condition_params(cond);
                assert(q3@.where_clauses =~= seq![
                    (ClauseSpec::Condition(cond), None::<LogicalOperator>),
                ]);
                assert(entries_params(q3@.where_clauses) == cond_params(cond));
                assert(cond_params(cond) =~= seq![BindSpec::Str(spec_wrapped_pattern(pattern@))]);
            }
            let plan = q3.build_select_query(db);
            proof {
                assert(q3@ =~= spec_search_query(column@, pattern@, case_sensitive, limit));
            }
            Ok(plan)
        },
        Err(e) => Err(e),
    }
}

/// The where tree of an ordered equality-condition list: one `=`
/// condition per pair, each joined to the next by an explicit `AND`.
pub open spec fn spec_advanced_entries(conds: Seq<(Seq<char>, BindSpec)>) -> Seq<
    (ClauseSpec, Option<LogicalOperator>),
> {
    Seq::new(
        conds.len(),
        |i: int|
            (
                ClauseSpec::Condition(
                    CondSpec {
                        column: conds[i].0,
                        operator: ComparisonOperator::Equal,
                        value: Some(conds[i].1),
                        values: None,
                    },
                ),
                if i < conds.len() - 1 {
                    Some(LogicalOperator::And)
                } else {
                    None
                },
            ),
    )
}

/// An equality-condition tree binds exactly the condition values, in
/// order.
pub proof fn lemma_advanced_params(conds: Seq<(Seq<char>, BindSpec)>)
    ensures
        entries_params(spec_advanced_entries(conds)) == conds.map_values(
            |p: (Seq<char>, BindSpec)| p.1,
        ),
    decreases conds,
{
    let entries = spec_advanced_entries(conds);
    if conds.len() == 0 {
        assert(entries_params(entries) =~= conds.map_values(|p: (Seq<char>, BindSpec)| p.1));
    } else {
        lemma_advanced_params(conds.drop_first());
        assert(entries.drop_first() =~= spec_advanced_entries(conds.drop_first()));
        assert(clause_params(entries[0].0) =~= seq![conds[0].1]);
        assert(entries_params(entries) =~= conds.map_values(|p: (Seq<char>, BindSpec)| p.1));
    }
}

/// The query description of an advanced fetch: ordered equality
/// conditions, an optional ORDER BY term, and optional pagination.
pub open spec fn spec_advanced_query(
    conds: Seq<(Seq<char>, BindSpec)>,
    order_by: Option<(Seq<char>, OrderDirection)>,
    limit: Option<u32>,
    offset: Option<u32>,
) -> QuerySpec {
    let base = QuerySpec { where_clauses: spec_advanced_entries(conds), ..QuerySpec::empty() };
    let ordered = match order_by {
        Some((c, d)) => base.with_order(c, d),
        None => base,
    };
    QuerySpec { limit, offset, ..ordered }
}

/// Plans the advanced fetch: each condition column (and the ORDER BY
/// column, when given) is validated, and the plan binds the condition
/// values left to right.
pub fn find_advanced_plan<T: Entry>(
    db: DbType,
    conditions: &Vec<(String, BindValue)>,
    order_by: Option<(&str, OrderDirection)>,
    limit: Option<u32>,
    offset: Option<u32>,
) -> (r: Result<(String, Vec<BindValue>), ApiError>)
    ensures
        r is Ok <==> ((forall|i: int|
            0 <= i < conditions@.len() ==> T::spec_columns().contains(
                #[trigger] conditions@[i].0@,
            )) && (order_by matches Some((c, _)) ==> T::spec_columns().contains(c@))),
        r matches Err(e) ==> (e matches ApiError::InvalidColumn(c) && !T::spec_columns().contains(
            c@,
        )),
        r matches Ok(plan) ==> plan.0@ == spec_select_sql(
            spec_advanced_query(
                conditions@.map_values(|p: (String, BindValue)| (p.0@, p.1@)),
                match order_by {
                    Some((c, d)) => Some((c@, d)),
                    None => None,
                },
                limit,
                offset,
            ),
            T::spec_table_name(),
            T::spec_columns(),
            db,
        ) && bind_views(plan.1@) == conditions@.map_values(|p: (String, BindValue)| p.1@),
{
    let ghost conds = conditions@.map_values(|p: (String, BindValue)| (p.0@, p.1@));
    let mut q = QueryBuilderUtil::<T>::new();
    let n = conditions.len();
    let mut k: usize = 0;
    proof {
        assert(q@.where_clauses =~= Seq::new(
            0,
            |i: int|
                (
                    ClauseSpec::Condition(
                        CondSpec {
                            column: conds[i].0,
                            operator: ComparisonOperator::Equal,
                            value: Some(conds[i].1),
                            values: None,
                        },
                    ),
                    if i < -1 || 0 < n {
                        Some(LogicalOperator::And)
                    } else {
                        None
                    },
                ),
        ));
    }
    while k < n
        invariant
            n == conditions@.len(),
            conds == conditions@.map_values(|p: (String, BindValue)| (p.0@, p.1@)),
            k <= n,
            forall|m: int| 0 <= m < k ==> T::spec_columns().contains(#[trigger] conds[m].0),
            q@ == (QuerySpec {
                where_clauses: Seq::new(
                    k as nat,
                    |i: int|
                        (
                            ClauseSpec::Condition(
                                CondSpec {
                                    column: conds[i].0,
                                    operator: ComparisonOperator::Equal,
                                    value: Some(conds[i].1),
                                    values: None,
                                },
                            ),
                            if i < k - 1 || k < n {
                                Some(LogicalOperator::And)
                            } else {
                                None
                            },
                        ),
                ),
                ..QuerySpec::empty()
            }),
        decreases n - k,
    {
        let ghost pre = q@;
        let value = conditions[k].1.clone();
        proof {
            assert(conds[k as int] == (conditions@[k as int].0@, conditions@[k as int].1@));
        }
        q = match q.where_eq(conditions[k].0.as_str(), value) {
            Ok(q2) => q2,
            Err(e) => {
                return Err(e);
            },
        };
        if k + 1 < n {
            q = q.and();
        }
        proof {
            assert(q@ =~= (QuerySpec {
                where_clauses: Seq::new(
                    (k + 1) as nat,
                    |i: int|
                        (
                            ClauseSpec::Condition(
                                CondSpec {
                                    column: conds[i].0,
                                    operator: ComparisonOperator::Equal,
                                    value: Some(conds[i].1),
                                    values: None,
                                },
                            ),
                            if i < k as int || k + 1 < n {
                                Some(LogicalOperator::And)
                            } else {
                                None
                            },
                        ),
                ),
                ..QuerySpec::empty()
            }));
        }
        k = k + 1;
    }
    proof {
        assert(q@.where_clauses =~= spec_advanced_entries(conds));
        assert(q@ =~= (QuerySpec { where_clauses: spec_advanced_entries(conds), ..QuerySpec::empty() }));
    }
    let q = match order_by {
        Some((col, dir)) => {
            match q.order_by(col, dir) {
                Ok(q2) => q2,
                Err(e) => {
                    return Err(e);
                },
            }
        },
        None => q,
    };
    let q = match limit {
        Some(l) => q.limit(l),
        None => q,
    };
    let q = match offset {
        Some(o) => q.offset(o),
        None => q,
    };
    proof {
        lemma_advanced_params(conds);
        assert(q@ =~= spec_advanced_query(
            conds,
            match order_by {
                Some((c, d)) => Some((c@, d)),
                None => None,
            },
            limit,
            offset,
        ));
        assert(entries_params(q@.where_clauses).len() == conds.len());
    }
    proof {
        assert forall|i: int| 0 <= i < conditions@.len() implies T::spec_columns().contains(
            #[trigger] conditions@[i].0@,
        ) by {
            assert(conds[i] == (conditions@[i].0@, conditions@[i].1@));
            assert(T::spec_columns().contains(conds[i].0));
        }
    }
    let plan = q.build_select_query(db);
    Ok(plan)
}

/// The query description of a paginated, sorted fetch: the requested
/// page, ordered by the named column (or the primary key) in the named
/// direction (or ascending).
pub open spec fn spec_paginate_sorted_query(
    page: u32,
    page_size: u32,
    sort_column: Option<Seq<char>>,
    sort_direction: Option<OrderDirection>,
) -> QuerySpec {
    let col = match sort_column {
        Some(c) => c,
        None => "id"@,
    };
    let dir = match sort_column {
        Some(_) => match sort_direction {
            Some(d) => d,
            None => OrderDirection::Asc,
        },
        None => OrderDirection::Asc,
    };
    QuerySpec {
        limit: Some(page_size),
        offset: Some(((if page > 1 {
            (page - 1) as int
        } else {
            0int
        }) * page_size) as u32),
        ..QuerySpec::empty()
    }.with_order(col, dir)
}

/// Plans the paginated, optionally sorted fetch.
pub fn paginate_sorted_plan<T: Entry>(
    db: DbType,
    page: u32,
    page_size: u32,
    sort_column: Option<&str>,
    sort_direction: Option<OrderDirection>,
) -> (r: Result<(String, Vec<BindValue>), ApiError>)
    requires
        spec_page_base(page) * page_size <= u32::MAX,
    ensures
        r is Ok <==> T::spec_columns().contains(
            match sort_column {
                Some(c) => c@,
                None => "id"@,
            },
        ),
        r matches Err(e) ==> (e matches ApiError::InvalidColumn(c)),
        r matches Ok(plan) ==> plan.0@ == spec_select_sql(
            spec_paginate_sorted_query(
                page,
                page_size,
                match sort_column {
                    Some(c) => Some(c@),
                    None => None,
                },
                sort_direction,
            ),
            T::spec_table_name(),
            T::spec_columns(),
            db,
        ) && plan.1@.len() == 0,
{
    let q = QueryBuilderUtil::<T>::new().paginate(page, page_size);
    let attempt = match sort_column {
        Some(col) => {
            let dir = match sort_direction {
                Some(d) => d,
                None => OrderDirection::Asc,
            };
            q.order_by(col, dir)
        },
        None => q.order_by(&"id", OrderDirection::Asc),
    };
    match attempt {
        Ok(q2) => {
            proof {
                reveal_strlit("id");
                assert(q2@.where_clauses.len() == 0);
                assert(entries_params(q2@.where_clauses) =~= Seq::<BindSpec>::empty());
            }
            let plan = q2.build_select_query(db);
            proof {
                reveal_strlit("id");
                let ghost target = spec_paginate_sorted_query(
                    page,
                    page_size,
                    match sort_column {
                        Some(c) => Some(c@),
                        None => None,
                    },
                    sort_direction,
                );
                assert(q2@.order_by =~~= target.order_by);
                assert(q2@.where_clauses =~= target.where_clauses);
                assert(q2@.joins =~= target.joins);
                assert(q2@.group_by =~= target.group_by);
                assert(q2@.having =~= target.having);
                assert(q2@.update_data =~= target.update_data);
                assert(q2@.insert_data =~= target.insert_data);
                assert(q2@ =~~= target);
                assert(plan.1@.len() == bind_views(plan.1@).len());
            }
            Ok(plan)
        },
        Err(e) => Err(e),
    }
}

} // verus!
