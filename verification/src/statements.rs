//! Rendering of whole statements from a builder's query description:
//! SELECT, UPDATE, INSERT, DELETE and COUNT.
//!
//! Each renderer emits the SQL text and the ordered parameter list in
//! one pass, so the binding order always matches the placeholder order.
//! The renderer never emits partially-built SQL: a structurally empty
//! update or insert payload fails before any text is produced.

use vstd::prelude::*;
use crate::builder::QueryBuilderUtil;
use crate::dialect::DbType;
use crate::entry::Entry;
use crate::errors::ApiError;
use crate::query_models::{JoinSpec, OrderBySpec};
use crate::render::{entries_params, entries_sql, render_where, spec_ph_list};
use crate::builder::QuerySpec;
use crate::strutil::{push_joined_from, push_str, push_u64, spec_digits, spec_join};
use crate::values::{BindSpec, BindValue, bind_views, lemma_bind_views_push};

verus! {

/// The column names of an update or insert payload, in order.
pub open spec fn keys_of(us: Seq<(Seq<char>, BindSpec)>) -> Seq<Seq<char>> {
    us.map_values(|p: (Seq<char>, BindSpec)| p.0)
}

/// The values of an update or insert payload, in order.
pub open spec fn values_of(us: Seq<(Seq<char>, BindSpec)>) -> Seq<BindSpec> {
    us.map_values(|p: (Seq<char>, BindSpec)| p.1)
}

/// The JOIN clauses rendered in order, each preceded by one space.
pub open spec fn spec_joins_sql(js: Seq<JoinSpec>) -> Seq<char>
    decreases js,
{
    if js.len() == 0 {
        Seq::empty()
    } else {
        spec_joins_sql(js.drop_last()) + " "@ + js.last().join_type.spec_sql() + " "@
            + js.last().table + " ON "@ + js.last().on_condition
    }
}

/// The ORDER BY terms rendered `column direction`, comma-separated.
pub open spec fn spec_order_sql(os: Seq<OrderBySpec>) -> Seq<char>
    decreases os,
{
    if os.len() == 0 {
        Seq::empty()
    } else if os.len() == 1 {
        os[0].column + " "@ + os[0].direction.spec_sql()
    } else {
        spec_order_sql(os.drop_last()) + ", "@ + os.last().column + " "@
            + os.last().direction.spec_sql()
    }
}

/// The WHERE part: empty for an empty tree, otherwise ` WHERE ` and the
/// rendered tree with placeholders from `start`.
pub open spec fn spec_where_part(
    cs: Seq<(crate::query_models::ClauseSpec, Option<crate::query_models::LogicalOperator>)>,
    db: DbType,
    start: nat,
) -> Seq<char> {
    if cs.len() == 0 {
        Seq::empty()
    } else {
        " WHERE "@ + entries_sql(cs, db, start)
    }
}

/// The UPDATE assignments `column = placeholder`, comma-separated,
/// placeholders numbered from one.
pub open spec fn spec_assigns_sql(us: Seq<(Seq<char>, BindSpec)>, db: DbType) -> Seq<char>
    decreases us,
{
    if us.len() == 0 {
        Seq::empty()
    } else if us.len() == 1 {
        us[0].0 + " = "@ + db.spec_placeholder(1)
    } else {
        spec_assigns_sql(us.drop_last(), db) + ", "@ + us.last().0 + " = "@ + db.spec_placeholder(
            us.len(),
        )
    }
}

/// The LIMIT part, when a limit is set.
pub open spec fn spec_limit_sql(limit: Option<u32>) -> Seq<char> {
    match limit {
        Some(l) => " LIMIT "@ + spec_digits(l as nat),
        None => Seq::empty(),
    }
}

/// The OFFSET part, when an offset is set.
pub open spec fn spec_offset_sql(offset: Option<u32>) -> Seq<char> {
    match offset {
        Some(o) => " OFFSET "@ + spec_digits(o as nat),
        None => Seq::empty(),
    }
}

/// The projection of a SELECT: the chosen columns, or all declared
/// columns.
pub open spec fn spec_projection(q: QuerySpec, all_cols: Seq<Seq<char>>) -> Seq<Seq<char>> {
    match q.select_columns {
        Some(cols) => cols,
        None => all_cols,
    }
}

/// The full SELECT statement for a query description.
pub open spec fn spec_select_sql(
    q: QuerySpec,
    table: Seq<char>,
    all_cols: Seq<Seq<char>>,
    db: DbType,
) -> Seq<char> {
    "SELECT "@ + (if q.distinct {
        "DISTINCT "@
    } else {
        Seq::empty()
    }) + spec_join(spec_projection(q, all_cols), ", "@) + " FROM "@ + table + spec_joins_sql(
        q.joins,
    ) + spec_where_part(q.where_clauses, db, 1) + (if q.group_by.len() > 0 {
        " GROUP BY "@ + spec_join(q.group_by, ", "@)
    } else {
        Seq::empty()
    }) + (if q.order_by.len() > 0 {
        " ORDER BY "@ + spec_order_sql(q.order_by)
    } else {
        Seq::empty()
    }) + spec_limit_sql(q.limit) + spec_offset_sql(q.offset)
}

/// The full UPDATE statement for a query description.
pub open spec fn spec_update_sql(q: QuerySpec, table: Seq<char>, db: DbType) -> Seq<char> {
    "UPDATE "@ + table + " SET "@ + spec_assigns_sql(q.update_data, db) + spec_where_part(
        q.where_clauses,
        db,
        q.update_data.len() + 1,
    )
}

/// The full INSERT statement for a query description.
pub open spec fn spec_insert_sql(q: QuerySpec, table: Seq<char>, db: DbType) -> Seq<char> {
    "INSERT INTO "@ + table + " ("@ + spec_join(keys_of(q.insert_data), ", "@) + ") VALUES ("@
        + spec_ph_list(db, 1, q.insert_data.len()) + ")"@
}

/// The full DELETE statement for a query description.
pub open spec fn spec_delete_sql(q: QuerySpec, table: Seq<char>, db: DbType) -> Seq<char> {
    "DELETE FROM "@ + table + spec_where_part(q.where_clauses, db, 1)
}

/// The COUNT statement for a query description: the same joins and
/// where tree, no ordering or pagination.
pub open spec fn spec_count_sql(q: QuerySpec, table: Seq<char>, db: DbType) -> Seq<char> {
    "SELECT COUNT(*) FROM "@ + table + spec_joins_sql(q.joins) + spec_where_part(
        q.where_clauses,
        db,
        1,
    )
}

impl<T: Entry> QueryBuilderUtil<T> {
    /// Appends the JOIN clauses to `sql`.
    fn push_joins(&self, sql: &mut String)
        ensures
            final(sql)@ == old(sql)@ + spec_joins_sql(self@.joins),
    {
        let ghost pre = sql@;
        let ghost js = self@.joins;
        let n = self.joins.len();
        let mut k: usize = 0;
        proof {
            assert(js.take(0) =~= Seq::<JoinSpec>::empty());
            assert(sql@ =~= pre + spec_joins_sql(js.take(0)));
        }
        while k < n
            invariant
                n == self.joins@.len(),
                js == self@.joins,
                k <= n,
                sql@ == pre + spec_joins_sql(js.take(k as int)),
            decreases n - k,
        {
            push_str(sql, " ");
            push_str(sql, self.joins[k].join_type.to_sql());
            push_str(sql, " ");
            push_str(sql, self.joins[k].table.as_str());
            push_str(sql, " ON ");
            push_str(sql, self.joins[k].on_condition.as_str());
            proof {
                assert(js[k as int] == self.joins@[k as int]@);
                assert(js.take(k as int + 1).drop_last() =~= js.take(k as int));
                assert(js.take(k as int + 1).last() == js[k as int]);
                assert(sql@ =~= pre + spec_joins_sql(js.take(k as int + 1)));
            }
            k = k + 1;
        }
        proof {
            assert(js.take(n as int) =~= js);
        }
    }

    /// Appends the ORDER BY terms to `sql` (without the leading
    /// ` ORDER BY `).
    fn push_order_terms(&self, sql: &mut String)
        ensures
            final(sql)@ == old(sql)@ + spec_order_sql(self@.order_by),
    {
        let ghost pre = sql@;
        let ghost os = self@.order_by;
        let n = self.order_by.len();
        let mut k: usize = 0;
        proof {
            assert(os.take(0) =~= Seq::<OrderBySpec>::empty());
            assert(sql@ =~= pre + spec_order_sql(os.take(0)));
        }
        while k < n
            invariant
                n == self.order_by@.len(),
                os == self@.order_by,
                k <= n,
                sql@ == pre + spec_order_sql(os.take(k as int)),
            decreases n - k,
        {
            if k > 0 {
                push_str(sql, ", ");
            }
            push_str(sql, self.order_by[k].column.as_str());
            push_str(sql, " ");
            push_str(sql, self.order_by[k].direction.to_sql());
            proof {
                assert(os[k as int] == self.order_by@[k as int]@);
                assert(os.take(k as int + 1).drop_last() =~= os.take(k as int));
                assert(os.take(k as int + 1).last() == os[k as int]);
                assert(sql@ =~= pre + spec_order_sql(os.take(k as int + 1)));
            }
            k = k + 1;
        }
        proof {
            assert(os.take(n as int) =~= os);
        }
    }

    /// Appends the WHERE part (if any) to `sql`, pushing its parameters.
    fn push_where_part(&self, db: DbType, sql: &mut String, params: &mut Vec<BindValue>)
        requires
            old(params)@.len() + entries_params(self@.where_clauses).len() <= usize::MAX,
        ensures
            final(sql)@ == old(sql)@ + spec_where_part(
                self@.where_clauses,
                db,
                old(params)@.len() + 1,
            ),
            bind_views(final(params)@) == bind_views(old(params)@) + entries_params(
                self@.where_clauses,
            ),
    {
        if self.where_clauses.len() > 0 {
            push_str(sql, " WHERE ");
            render_where(&self.where_clauses, db, sql, params);
            proof {
                assert(sql@ =~= old(sql)@ + spec_where_part(
                    self@.where_clauses,
                    db,
                    old(params)@.len() + 1,
                ));
            }
        } else {
            proof {
                crate::query_models::lemma_entries_view(self.where_clauses@);
                assert(self@.where_clauses.len() == 0);
                assert(bind_views(params@) =~= bind_views(old(params)@) + entries_params(
                    self@.where_clauses,
                ));
                assert(sql@ =~= old(sql)@ + spec_where_part(
                    self@.where_clauses,
                    db,
                    old(params)@.len() + 1,
                ));
            }
        }
    }

    /// Renders the SELECT statement and its ordered parameter list.
    #[verifier::rlimit(100)]
    pub fn build_select_query(&self, db: DbType) -> (r: (String, Vec<BindValue>))
        requires
            entries_params(self@.where_clauses).len() <= usize::MAX,
        ensures
            r.0@ == spec_select_sql(self@, T::spec_table_name(), T::spec_columns(), db),
            bind_views(r.1@) == entries_params(self@.where_clauses),
    {
        let ghost t_distinct: Seq<char> = if self@.distinct {
            "DISTINCT "@
        } else {
            Seq::empty()
        };
        let ghost t_proj = spec_join(spec_projection(self@, T::spec_columns()), ", "@);
        let ghost t_group: Seq<char> = if self@.group_by.len() > 0 {
            " GROUP BY "@ + spec_join(self@.group_by, ", "@)
        } else {
            Seq::empty()
        };
        let ghost t_order: Seq<char> = if self@.order_by.len() > 0 {
            " ORDER BY "@ + spec_order_sql(self@.order_by)
        } else {
            Seq::empty()
        };
        let mut sql = String::new();
        let mut params: Vec<BindValue> = Vec::new();
        push_str(&mut sql, "SELECT ");
        if self.distinct {
            push_str(&mut sql, "DISTINCT ");
        }
        proof {
            assert(sql@ =~= "SELECT "@ + t_distinct);
        }
        match &self.select_columns {
            Some(cols) => {
                push_joined_from(&mut sql, cols, ", ", 0);
            },
            None => {
                let all = T::columns();
                push_joined_from(&mut sql, &all, ", ", 0);
            },
        }
        proof {
            assert(sql@ == "SELECT "@ + t_distinct + t_proj);
        }
        push_str(&mut sql, " FROM ");
        let table = T::table_name();
        push_str(&mut sql, table.as_str());
        proof {
            assert(sql@ == "SELECT "@ + t_distinct + t_proj + " FROM "@ + T::spec_table_name());
        }
        self.push_joins(&mut sql);
        self.push_where_part(db, &mut sql, &mut params);
        proof {
            assert(sql@ == "SELECT "@ + t_distinct + t_proj + " FROM "@ + T::spec_table_name()
                + spec_joins_sql(self@.joins) + spec_where_part(self@.where_clauses, db, 1));
        }
        if self.group_by.len() > 0 {
            push_str(&mut sql, " GROUP BY ");
            push_joined_from(&mut sql, &self.group_by, ", ", 0);
        }
        proof {
            assert(sql@ =~= "SELECT "@ + t_distinct + t_proj + " FROM "@ + T::spec_table_name()
                + spec_joins_sql(self@.joins) + spec_where_part(self@.where_clauses, db, 1)
                + t_group);
        }
        if self.order_by.len() > 0 {
            push_str(&mut sql, " ORDER BY ");
            self.push_order_terms(&mut sql);
        }
        proof {
            assert(sql@ =~= "SELECT "@ + t_distinct + t_proj + " FROM "@ + T::spec_table_name()
                + spec_joins_sql(self@.joins) + spec_where_part(self@.where_clauses, db, 1)
                + t_group + t_order);
        }
        match self.limit {
            Some(l) => {
                push_str(&mut sql, " LIMIT ");
                push_u64(&mut sql, l as u64);
            },
            None => {},
        }
        proof {
            assert(sql@ =~= "SELECT "@ + t_distinct + t_proj + " FROM "@ + T::spec_table_name()
                + spec_joins_sql(self@.joins) + spec_where_part(self@.where_clauses, db, 1)
                + t_group + t_order + spec_limit_sql(self@.limit));
        }
        match self.offset {
            Some(o) => {
                push_str(&mut sql, " OFFSET ");
                push_u64(&mut sql, o as u64);
            },
            None => {},
        }
        proof {
            assert(sql@ =~= "SELECT "@ + t_distinct + t_proj + " FROM "@ + T::spec_table_name()
                + spec_joins_sql(self@.joins) + spec_where_part(self@.where_clauses, db, 1)
                + t_group + t_order + spec_limit_sql(self@.limit) + spec_offset_sql(self@.offset));
            assert(sql@ == spec_select_sql(self@, T::spec_table_name(), T::spec_columns(), db));
            assert(bind_views(params@) =~= entries_params(self@.where_clauses));
        }
        (sql, params)
    }

    /// Renders the DELETE statement and its ordered parameter list.
    pub fn build_delete_query(&self, db: DbType) -> (r: (String, Vec<BindValue>))
        requires
            entries_params(self@.where_clauses).len() <= usize::MAX,
        ensures
            r.0@ == spec_delete_sql(self@, T::spec_table_name(), db),
            bind_views(r.1@) == entries_params(self@.where_clauses),
    {
        let mut sql = String::new();
        let mut params: Vec<BindValue> = Vec::new();
        push_str(&mut sql, "DELETE FROM ");
        let table = T::table_name();
        push_str(&mut sql, table.as_str());
        self.push_where_part(db, &mut sql, &mut params);
        proof {
            assert(sql@ =~= spec_delete_sql(self@, T::spec_table_name(), db));
            assert(bind_views(params@) =~= entries_params(self@.where_clauses));
        }
        (sql, params)
    }

    /// Renders the COUNT statement and its ordered parameter list: the
    /// same joins and where tree as the SELECT, no ordering or
    /// pagination.
    pub fn build_count_query(&self, db: DbType) -> (r: (String, Vec<BindValue>))
        requires
            entries_params(self@.where_clauses).len() <= usize::MAX,
        ensures
            r.0@ == spec_count_sql(self@, T::spec_table_name(), db),
            bind_views(r.1@) == entries_params(self@.where_clauses),
    {
        let mut sql = String::new();
        let mut params: Vec<BindValue> = Vec::new();
        push_str(&mut sql, "SELECT COUNT(*) FROM ");
        let table = T::table_name();
        push_str(&mut sql, table.as_str());
        self.push_joins(&mut sql);
        self.push_where_part(db, &mut sql, &mut params);
        proof {
            assert(sql@ =~= spec_count_sql(self@, T::spec_table_name(), db));
            assert(bind_views(params@) =~= entries_params(self@.where_clauses));
        }
        (sql, params)
    }

    /// Renders the UPDATE statement and its ordered parameter list: the
    /// assignments bind first, then the where tree's parameters.  An
    /// empty assignment payload fails with `InvalidQuery` before any
    /// text is produced.
    pub fn build_update_query(&self, db: DbType) -> (r: Result<(String, Vec<BindValue>), ApiError>)
        requires
            self@.update_data.len() + entries_params(self@.where_clauses).len() <= usize::MAX,
        ensures
            r is Err <==> self@.update_data.len() == 0,
            r matches Err(e) ==> (e matches ApiError::InvalidQuery(m) && m@
                == "No data provided for update"@),
            r matches Ok(p) ==> p.0@ == spec_update_sql(self@, T::spec_table_name(), db)
                && bind_views(p.1@) == values_of(self@.update_data) + entries_params(
                self@.where_clauses,
            ),
    {
        if self.update_data.len() == 0 {
            return Err(ApiError::InvalidQuery("No data provided for update".to_owned()));
        }
        let ghost us = self@.update_data;
        let mut sql = String::new();
        let mut params: Vec<BindValue> = Vec::new();
        push_str(&mut sql, "UPDATE ");
        let table = T::table_name();
        push_str(&mut sql, table.as_str());
        push_str(&mut sql, " SET ");
        let ghost pre_sql = sql@;
        let n = self.update_data.len();
        let mut k: usize = 0;
        proof {
            assert(us.take(0) =~= Seq::<(Seq<char>, BindSpec)>::empty());
            assert(sql@ =~= pre_sql + spec_assigns_sql(us.take(0), db));
            assert(bind_views(params@) =~= values_of(us.take(0)));
        }
        while k < n
            invariant
                n == self.update_data@.len(),
                us == self@.update_data,
                n + entries_params(self@.where_clauses).len() <= usize::MAX,
                k <= n,
                params@.len() == k,
                sql@ == pre_sql + spec_assigns_sql(us.take(k as int), db),
                bind_views(params@) == values_of(us.take(k as int)),
            decreases n - k,
        {
            if k > 0 {
                push_str(&mut sql, ", ");
            }
            push_str(&mut sql, self.update_data[k].0.as_str());
            push_str(&mut sql, " = ");
            let ph = db.placeholder(params.len() + 1);
            push_str(&mut sql, ph.as_str());
            let ghost params_before = params@;
            params.push(self.update_data[k].1.clone());
            proof {
                assert(us[k as int] == (self.update_data@[k as int].0@, self.update_data@[
                    k as int
                ].1@));
                lemma_bind_views_push(params_before, params@.last());
                assert(us.take(k as int + 1).drop_last() =~= us.take(k as int));
                assert(us.take(k as int + 1).last() == us[k as int]);
                assert(values_of(us.take(k as int + 1)) =~= values_of(us.take(k as int)).push(
                    us[k as int].1,
                ));
                assert(bind_views(params@) =~= values_of(us.take(k as int + 1)));
                assert(sql@ =~= pre_sql + spec_assigns_sql(us.take(k as int + 1), db));
            }
            k = k + 1;
        }
        proof {
            assert(us.take(n as int) =~= us);
            assert(values_of(us).len() == us.len());
        }
        self.push_where_part(db, &mut sql, &mut params);
        proof {
            assert(sql@ =~= spec_update_sql(self@, T::spec_table_name(), db));
            assert(bind_views(params@) =~= values_of(self@.update_data) + entries_params(
                self@.where_clauses,
            ));
        }
        Ok((sql, params))
    }

    /// Renders the INSERT statement and its ordered parameter list: the
    /// values bind in column-list order.  An empty payload fails with
    /// `InvalidQuery` before any text is produced.
    pub fn build_insert_query(&self, db: DbType) -> (r: Result<(String, Vec<BindValue>), ApiError>)
        ensures
            r is Err <==> self@.insert_data.len() == 0,
            r matches Err(e) ==> (e matches ApiError::InvalidQuery(m) && m@
                == "No data provided for insert"@),
            r matches Ok(p) ==> p.0@ == spec_insert_sql(self@, T::spec_table_name(), db)
                && bind_views(p.1@) == values_of(self@.insert_data),
    {
        if self.insert_data.len() == 0 {
            return Err(ApiError::InvalidQuery("No data provided for insert".to_owned()));
        }
        let ghost us = self@.insert_data;
        let mut sql = String::new();
        let mut params: Vec<BindValue> = Vec::new();
        push_str(&mut sql, "INSERT INTO ");
        let table = T::table_name();
        push_str(&mut sql, table.as_str());
        push_str(&mut sql, " (");
        let n = self.insert_data.len();
        let mut key_vec: Vec<String> = Vec::new();
        let mut k: usize = 0;
        proof {
            assert(key_vec@.map_values(|s: String| s@) =~= keys_of(us).take(0));
        }
        while k < n
            invariant
                n == self.insert_data@.len(),
                us == self@.insert_data,
                k <= n,
                key_vec@.len() == k,
                key_vec@.map_values(|s: String| s@) == keys_of(us).take(k as int),
            decreases n - k,
        {
            key_vec.push(self.insert_data[k].0.clone());
            proof {
                assert(us[k as int] == (self.insert_data@[k as int].0@, self.insert_data@[
                    k as int
                ].1@));
                assert(keys_of(us)[k as int] == us[k as int].0);
                assert(keys_of(us).take(k as int + 1) =~= keys_of(us).take(k as int).push(
                    keys_of(us)[k as int],
                ));
                assert(key_vec@.map_values(|s: String| s@) =~= keys_of(us).take(k as int + 1));
            }
            k = k + 1;
        }
        proof {
            assert(keys_of(us).len() == us.len());
            assert(keys_of(us).take(n as int) =~= keys_of(us));
        }
        push_joined_from(&mut sql, &key_vec, ", ", 0);
        push_str(&mut sql, ") VALUES (");
        let ghost pre_vals = sql@;
        let mut j: usize = 0;
        proof {
            assert(sql@ =~= pre_vals + spec_ph_list(db, 1, 0));
            assert(bind_views(params@) =~= values_of(us.take(0)));
        }
        while j < n
            invariant
                n == self.insert_data@.len(),
                us == self@.insert_data,
                j <= n,
                params@.len() == j,
                sql@ == pre_vals + spec_ph_list(db, 1, j as nat),
                bind_views(params@) == values_of(us.take(j as int)),
            decreases n - j,
        {
            if j > 0 {
                push_str(&mut sql, ", ");
            }
            let ph = db.placeholder(params.len() + 1);
            push_str(&mut sql, ph.as_str());
            let ghost params_before = params@;
            params.push(self.insert_data[j].1.clone());
            proof {
                assert(us[j as int] == (self.insert_data@[j as int].0@, self.insert_data@[
                    j as int
                ].1@));
                lemma_bind_views_push(params_before, params@.last());
                assert(us.take(j as int + 1).drop_last() =~= us.take(j as int));
                assert(us.take(j as int + 1).last() == us[j as int]);
                assert(values_of(us.take(j as int + 1)) =~= values_of(us.take(j as int)).push(
                    us[j as int].1,
                ));
                assert(bind_views(params@) =~= values_of(us.take(j as int + 1)));
                assert(sql@ =~= pre_vals + spec_ph_list(db, 1, (j + 1) as nat));
            }
            j = j + 1;
        }
        push_str(&mut sql, ")");
        proof {
            assert(us.take(n as int) =~= us);
            assert(sql@ =~= spec_insert_sql(self@, T::spec_table_name(), db));
            assert(bind_views(params@) =~= values_of(self@.insert_data));
        }
        Ok((sql, params))
    }
}

} // verus!
