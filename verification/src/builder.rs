//! The chaining query builder: accumulates a dialect-independent query
//! description (where tree, joins, ordering, grouping, pagination,
//! update and insert payloads) for an entity type.
//!
//! Every column name supplied to any builder method is checked against
//! the entity's declared column set before it can reach SQL text; an
//! unknown name fails with `InvalidColumn` and leaves the builder
//! untouched.  Values always travel as parameters.

use vstd::prelude::*;
use core::marker::PhantomData;
use crate::entry::Entry;
use crate::errors::ApiError;
use crate::group::GroupBuilder;
use crate::query_models::{
    ClauseSpec, ComparisonOperator, CondSpec, GroupSpec, JoinClause, JoinSpec, JoinType,
    LogicalOperator, OrderBy, OrderBySpec, OrderDirection, WhereClause, WhereCondition, WhereGroup,
    clause_view, entries_view, lemma_entries_view,
};
use crate::strutil::{contains_str, str_eq};
use crate::values::{BindSpec, BindValue};

verus! {

/// The mathematical shadow of a builder: the dialect-independent query
/// description.
#[verifier::ext_equal]
pub struct QuerySpec {
    pub where_clauses: Seq<(ClauseSpec, Option<LogicalOperator>)>,
    pub order_by: Seq<OrderBySpec>,
    pub joins: Seq<JoinSpec>,
    pub limit: Option<u32>,
    pub offset: Option<u32>,
    pub group_by: Seq<Seq<char>>,
    pub having: Seq<CondSpec>,
    pub distinct: bool,
    pub select_columns: Option<Seq<Seq<char>>>,
    pub update_data: Seq<(Seq<char>, BindSpec)>,
    pub insert_data: Seq<(Seq<char>, BindSpec)>,
}

impl QuerySpec {
    /// The description of a freshly created builder: no constraints at
    /// all.
    pub open spec fn empty() -> QuerySpec {
        QuerySpec {
            where_clauses: Seq::empty(),
            order_by: Seq::empty(),
            joins: Seq::empty(),
            limit: None,
            offset: None,
            group_by: Seq::empty(),
            having: Seq::empty(),
            distinct: false,
            select_columns: None,
            update_data: Seq::empty(),
            insert_data: Seq::empty(),
        }
    }

    /// This description with one bare condition appended to the where
    /// tree, carrying no explicit connective.
    pub open spec fn with_condition(self, c: CondSpec) -> QuerySpec {
        QuerySpec { where_clauses: self.where_clauses.push((ClauseSpec::Condition(c), None)), ..self }
    }

    /// This description with the connective of the most recently pushed
    /// clause replaced; unchanged when the where tree is empty.
    pub open spec fn with_last_connective(self, op: LogicalOperator) -> QuerySpec {
        if self.where_clauses.len() == 0 {
            self
        } else {
            QuerySpec {
                where_clauses: self.where_clauses.update(
                    self.where_clauses.len() - 1,
                    (self.where_clauses.last().0, Some(op)),
                ),
                ..self
            }
        }
    }

    /// This description with one ORDER BY term appended.
    pub open spec fn with_order(self, column: Seq<char>, direction: OrderDirection) -> QuerySpec {
        QuerySpec { order_by: self.order_by.push(OrderBySpec { column, direction }), ..self }
    }

    /// This description with one JOIN clause appended.
    pub open spec fn with_join(
        self,
        join_type: JoinType,
        table: Seq<char>,
        on_condition: Seq<char>,
    ) -> QuerySpec {
        QuerySpec { joins: self.joins.push(JoinSpec { join_type, table, on_condition }), ..self }
    }

    /// This description with one GROUP BY column appended.
    pub open spec fn with_group_by(self, column: Seq<char>) -> QuerySpec {
        QuerySpec { group_by: self.group_by.push(column), ..self }
    }

    /// This description with a parenthesized group appended.  When the
    /// preceding clause carries no explicit connective, the group's
    /// joining operator is attached to it, so the group is joined to its
    /// siblings by the named connective.
    pub open spec fn with_group(
        self,
        clauses: Seq<(ClauseSpec, Option<LogicalOperator>)>,
        op: LogicalOperator,
    ) -> QuerySpec {
        let base = if self.where_clauses.len() > 0 && self.where_clauses.last().1 is None {
            self.with_last_connective(op)
        } else {
            self
        };
        QuerySpec {
            where_clauses: base.where_clauses.push(
                (ClauseSpec::Group(crate::query_models::GroupSpec { clauses, operator: op }), None),
            ),
            ..base
        }
    }
}

/// A column/value payload with `key` set to `v`: the first entry for
/// `key` is replaced in place, or a fresh entry is appended when none
/// exists.
pub open spec fn assoc_set(
    us: Seq<(Seq<char>, BindSpec)>,
    key: Seq<char>,
    v: BindSpec,
) -> Seq<(Seq<char>, BindSpec)>
    decreases us,
{
    if us.len() == 0 {
        seq![(key, v)]
    } else if us[0].0 == key {
        seq![(key, v)] + us.drop_first()
    } else {
        seq![us[0]] + assoc_set(us.drop_first(), key, v)
    }
}

/// When `idx` is the first entry for `key`, setting `key` replaces that
/// entry in place.
proof fn lemma_assoc_set_found(us: Seq<(Seq<char>, BindSpec)>, key: Seq<char>, v: BindSpec, idx: int)
    requires
        0 <= idx < us.len(),
        us[idx].0 == key,
        forall|m: int| 0 <= m < idx ==> (#[trigger] us[m]).0 != key,
    ensures
        assoc_set(us, key, v) == us.update(idx, (key, v)),
    decreases us,
{
    if idx == 0 {
        assert(assoc_set(us, key, v) =~= us.update(0, (key, v)));
    } else {
        lemma_assoc_set_found(us.drop_first(), key, v, idx - 1);
        assert(assoc_set(us, key, v) =~= us.update(idx, (key, v)));
    }
}

/// When no entry for `key` exists, setting `key` appends a fresh entry.
proof fn lemma_assoc_set_missing(us: Seq<(Seq<char>, BindSpec)>, key: Seq<char>, v: BindSpec)
    requires
        forall|m: int| 0 <= m < us.len() ==> (#[trigger] us[m]).0 != key,
    ensures
        assoc_set(us, key, v) == us.push((key, v)),
    decreases us,
{
    if us.len() > 0 {
        lemma_assoc_set_missing(us.drop_first(), key, v);
        assert(assoc_set(us, key, v) =~= us.push((key, v)));
    } else {
        assert(assoc_set(us, key, v) =~= us.push((key, v)));
    }
}

/// A payload with a list of settings applied left to right.
pub open spec fn assoc_set_all(
    us: Seq<(Seq<char>, BindSpec)>,
    pairs: Seq<(Seq<char>, BindSpec)>,
) -> Seq<(Seq<char>, BindSpec)>
    decreases pairs,
{
    if pairs.len() == 0 {
        us
    } else {
        assoc_set(assoc_set_all(us, pairs.drop_last()), pairs.last().0, pairs.last().1)
    }
}

/// The shadow of a column/value vector.
pub open spec fn pairs_view(data: Seq<(String, BindValue)>) -> Seq<(Seq<char>, BindSpec)> {
    data.map_values(|p: (String, BindValue)| (p.0@, p.1@))
}

/// The index of the first entry for `column`, or the length when none
/// exists.
fn find_key(data: &Vec<(String, BindValue)>, column: &str) -> (r: usize)
    ensures
        r <= data@.len(),
        r < data@.len() ==> pairs_view(data@)[r as int].0 == column@,
        forall|m: int| 0 <= m < r ==> (#[trigger] pairs_view(data@)[m]).0 != column@,
{
    let n = data.len();
    let mut k: usize = 0;
    while k < n
        invariant
            n == data@.len(),
            k <= n,
            forall|m: int| 0 <= m < k ==> (#[trigger] pairs_view(data@)[m]).0 != column@,
        decreases n - k,
    {
        if str_eq(data[k].0.as_str(), column) {
            proof {
                assert(pairs_view(data@)[k as int] == (data@[k as int].0@, data@[k as int].1@));
            }
            return k;
        }
        proof {
            assert(pairs_view(data@)[k as int] == (data@[k as int].0@, data@[k as int].1@));
        }
        k = k + 1;
    }
    n
}

/// Sets `column` to `value` in the payload: the first entry for the
/// column is replaced in place, or a fresh entry is appended.
fn assoc_vec_set(data: &mut Vec<(String, BindValue)>, column: &str, value: BindValue)
    ensures
        pairs_view(final(data)@) == assoc_set(pairs_view(old(data)@), column@, value@),
{
    let ghost pre = pairs_view(data@);
    let idx = find_key(data, column);
    if idx < data.len() {
        data.remove(idx);
        data.insert(idx, (column.to_owned(), value));
        proof {
            assert(data@ =~= old(data)@.update(idx as int, data@[idx as int]));
            assert(pairs_view(data@) =~= pre.update(idx as int, (column@, value@)));
            lemma_assoc_set_found(pre, column@, value@, idx as int);
        }
    } else {
        data.push((column.to_owned(), value));
        proof {
            assert(pairs_view(data@) =~= pre.push((column@, value@)));
            lemma_assoc_set_missing(pre, column@, value@);
        }
    }
}

/// A chaining builder of dialect-independent queries for the entity
/// type `T`.
#[derive(Debug)]
pub struct QueryBuilderUtil<T: Entry> {
    pub where_clauses: Vec<(WhereClause, Option<LogicalOperator>)>,
    pub order_by: Vec<OrderBy>,
    pub joins: Vec<JoinClause>,
    pub limit: Option<u32>,
    pub offset: Option<u32>,
    pub group_by: Vec<String>,
    pub having: Vec<WhereCondition>,
    pub distinct: bool,
    pub select_columns: Option<Vec<String>>,
    pub update_data: Vec<(String, BindValue)>,
    pub insert_data: Vec<(String, BindValue)>,
    pub _phantom: PhantomData<T>,
}

impl<T: Entry> View for QueryBuilderUtil<T> {
    type V = QuerySpec;

    open spec fn view(&self) -> QuerySpec {
        QuerySpec {
            where_clauses: entries_view(self.where_clauses@),
            order_by: self.order_by@.map_values(|o: OrderBy| o@),
            joins: self.joins@.map_values(|j: JoinClause| j@),
            limit: self.limit,
            offset: self.offset,
            group_by: self.group_by@.map_values(|s: String| s@),
            having: self.having@.map_values(|c: WhereCondition| c@),
            distinct: self.distinct,
            select_columns: match self.select_columns {
                Some(cols) => Some(cols@.map_values(|s: String| s@)),
                None => None,
            },
            update_data: self.update_data@.map_values(|p: (String, BindValue)| (p.0@, p.1@)),
            insert_data: self.insert_data@.map_values(|p: (String, BindValue)| (p.0@, p.1@)),
        }
    }
}

impl<T: Entry> QueryBuilderUtil<T> {
    /// A builder with no constraints.
    pub fn new() -> (r: Self)
        ensures
            r@ == QuerySpec::empty(),
    {
        let r = QueryBuilderUtil {
            where_clauses: Vec::new(),
            order_by: Vec::new(),
            joins: Vec::new(),
            limit: None,
            offset: None,
            group_by: Vec::new(),
            having: Vec::new(),
            distinct: false,
            select_columns: None,
            update_data: Vec::new(),
            insert_data: Vec::new(),
            _phantom: PhantomData,
        };
        proof {
            assert(r@ =~= QuerySpec::empty());
        }
        r
    }

    /// Checks a caller-supplied column name against the entity's
    /// declared column set; an unknown name fails with `InvalidColumn`.
    pub fn validate_column(&self, column: &str) -> (r: Result<(), ApiError>)
        ensures
            r is Ok <==> T::spec_columns().contains(column@),
            r matches Err(e) ==> (e matches ApiError::InvalidColumn(c) && c@ == column@),
    {
        let cols = T::columns();
        if contains_str(&cols, column) {
            Ok(())
        } else {
            Err(ApiError::InvalidColumn(column.to_owned()))
        }
    }

    /// Appends a validated bare condition to the where tree.
    fn push_condition(self, cond: WhereCondition) -> (r: Self)
        ensures
            r@ == self@.with_condition(cond@),
    {
        let ghost pre = self.where_clauses@;
        let mut q = self;
        q.where_clauses.push((WhereClause::Condition(cond), None));
        proof {
            assert(q.where_clauses@.drop_last() =~= pre);
            assert(entries_view(q.where_clauses@) =~= entries_view(pre).push(
                (clause_view(q.where_clauses@.last().0), None),
            ));
            assert(q@ =~= self@.with_condition(cond@));
        }
        q
    }

    /// Builds a scalar-comparison condition on a validated column.
    fn where_scalar(self, column: &str, op: ComparisonOperator, value: BindValue) -> (r: Result<
        Self,
        ApiError,
    >)
        ensures
            !T::spec_columns().contains(column@) ==> (r matches Err(e) && e matches
                ApiError::InvalidColumn(c) && c@ == column@),
            T::spec_columns().contains(column@) ==> (r matches Ok(q) && q@ == self@.with_condition(
                CondSpec { column: column@, operator: op, value: Some(value@), values: None },
            )),
    {
        match self.validate_column(column) {
            Ok(_) => {
                let cond = WhereCondition {
                    column: column.to_owned(),
                    operator: op,
                    value: Some(value),
                    values: None,
                };
                Ok(self.push_condition(cond))
            },
            Err(e) => Err(e),
        }
    }

    /// Adds `column = value`.
    pub fn where_eq(self, column: &str, value: BindValue) -> (r: Result<Self, ApiError>)
        ensures
            !T::spec_columns().contains(column@) ==> (r matches Err(e) && e matches
                ApiError::InvalidColumn(c) && c@ == column@),
            T::spec_columns().contains(column@) ==> (r matches Ok(q) && q@ == self@.with_condition(
                CondSpec {
                    column: column@,
                    operator: ComparisonOperator::Equal,
                    value: Some(value@),
                    values: None,
                },
            )),
    {
        self.where_scalar(column, ComparisonOperator::Equal, value)
    }

    /// Adds `column != value`.
    pub fn where_ne(self, column: &str, value: BindValue) -> (r: Result<Self, ApiError>)
        ensures
            !T::spec_columns().contains(column@) ==> (r matches Err(e) && e matches
                ApiError::InvalidColumn(c) && c@ == column@),
            T::spec_columns().contains(column@) ==> (r matches Ok(q) && q@ == self@.with_condition(
                CondSpec {
                    column: column@,
                    operator: ComparisonOperator::NotEqual,
                    value: Some(value@),
                    values: None,
                },
            )),
    {
        self.where_scalar(column, ComparisonOperator::NotEqual, value)
    }

    /// Adds `column > value`.
    pub fn where_gt(self, column: &str, value: BindValue) -> (r: Result<Self, ApiError>)
        ensures
            !T::spec_columns().contains(column@) ==> (r matches Err(e) && e matches
                ApiError::InvalidColumn(c) && c@ == column@),
            T::spec_columns().contains(column@) ==> (r matches Ok(q) && q@ == self@.with_condition(
                CondSpec {
                    column: column@,
                    operator: ComparisonOperator::GreaterThan,
                    value: Some(value@),
                    values: None,
                },
            )),
    {
        self.where_scalar(column, ComparisonOperator::GreaterThan, value)
    }

    /// Adds `column >= value`.
    pub fn where_gte(self, column: &str, value: BindValue) -> (r: Result<Self, ApiError>)
        ensures
            !T::spec_columns().contains(column@) ==> (r matches Err(e) && e matches
                ApiError::InvalidColumn(c) && c@ == column@),
            T::spec_columns().contains(column@) ==> (r matches Ok(q) && q@ == self@.with_condition(
                CondSpec {
                    column: column@,
                    operator: ComparisonOperator::GreaterThanOrEqual,
                    value: Some(value@),
                    values: None,
                },
            )),
    {
        self.where_scalar(column, ComparisonOperator::GreaterThanOrEqual, value)
    }

    /// Adds `column < value`.
    pub fn where_lt(self, column: &str, value: BindValue) -> (r: Result<Self, ApiError>)
        ensures
            !T::spec_columns().contains(column@) ==> (r matches Err(e) && e matches
                ApiError::InvalidColumn(c) && c@ == column@),
            T::spec_columns().contains(column@) ==> (r matches Ok(q) && q@ == self@.with_condition(
                CondSpec {
                    column: column@,
                    operator: ComparisonOperator::LessThan,
                    value: Some(value@),
                    values: None,
                },
            )),
    {
        self.where_scalar(column, ComparisonOperator::LessThan, value)
    }

    /// Adds `column <= value`.
    pub fn where_lte(self, column: &str, value: BindValue) -> (r: Result<Self, ApiError>)
        ensures
            !T::spec_columns().contains(column@) ==> (r matches Err(e) && e matches
                ApiError::InvalidColumn(c) && c@ == column@),
            T::spec_columns().contains(column@) ==> (r matches Ok(q) && q@ == self@.with_condition(
                CondSpec {
                    column: column@,
                    operator: ComparisonOperator::LessThanOrEqual,
                    value: Some(value@),
                    values: None,
                },
            )),
    {
        self.where_scalar(column, ComparisonOperator::LessThanOrEqual, value)
    }

    /// Adds `column LIKE pattern`.
    pub fn where_like(self, column: &str, pattern: BindValue) -> (r: Result<Self, ApiError>)
        ensures
            !T::spec_columns().contains(column@) ==> (r matches Err(e) && e matches
                ApiError::InvalidColumn(c) && c@ == column@),
            T::spec_columns().contains(column@) ==> (r matches Ok(q) && q@ == self@.with_condition(
                CondSpec {
                    column: column@,
                    operator: ComparisonOperator::Like,
                    value: Some(pattern@),
                    values: None,
                },
            )),
    {
        self.where_scalar(column, ComparisonOperator::Like, pattern)
    }

    /// Adds `column ILIKE pattern`.
    pub fn where_ilike(self, column: &str, pattern: BindValue) -> (r: Result<Self, ApiError>)
        ensures
            !T::spec_columns().contains(column@) ==> (r matches Err(e) && e matches
                ApiError::InvalidColumn(c) && c@ == column@),
            T::spec_columns().contains(column@) ==> (r matches Ok(q) && q@ == self@.with_condition(
                CondSpec {
                    column: column@,
                    operator: ComparisonOperator::ILike,
                    value: Some(pattern@),
                    values: None,
                },
            )),
    {
        self.where_scalar(column, ComparisonOperator::ILike, pattern)
    }

    /// Builds a list-valued condition on a validated column.
    fn where_listed(self, column: &str, op: ComparisonOperator, values: Vec<BindValue>) -> (r:
        Result<Self, ApiError>)
        ensures
            !T::spec_columns().contains(column@) ==> (r matches Err(e) && e matches
                ApiError::InvalidColumn(c) && c@ == column@),
            T::spec_columns().contains(column@) ==> (r matches Ok(q) && q@ == self@.with_condition(
                CondSpec {
                    column: column@,
                    operator: op,
                    value: None,
                    values: Some(values@.map_values(|v: BindValue| v@)),
                },
            )),
    {
        match self.validate_column(column) {
            Ok(_) => {
                let cond = WhereCondition {
                    column: column.to_owned(),
                    operator: op,
                    value: None,
                    values: Some(values),
                };
                Ok(self.push_condition(cond))
            },
            Err(e) => Err(e),
        }
    }

    /// Adds `column IN (values...)`.  An empty list is not special-cased
    /// here; callers needing short-circuit behaviour check before
    /// calling.
    pub fn where_in(self, column: &str, values: Vec<BindValue>) -> (r: Result<Self, ApiError>)
        ensures
            !T::spec_columns().contains(column@) ==> (r matches Err(e) && e matches
                ApiError::InvalidColumn(c) && c@ == column@),
            T::spec_columns().contains(column@) ==> (r matches Ok(q) && q@ == self@.with_condition(
                CondSpec {
                    column: column@,
                    operator: ComparisonOperator::In,
                    value: None,
                    values: Some(values@.map_values(|v: BindValue| v@)),
                },
            )),
    {
        self.where_listed(column, ComparisonOperator::In, values)
    }

    /// Adds `column NOT IN (values...)`.
    pub fn where_not_in(self, column: &str, values: Vec<BindValue>) -> (r: Result<Self, ApiError>)
        ensures
            !T::spec_columns().contains(column@) ==> (r matches Err(e) && e matches
                ApiError::InvalidColumn(c) && c@ == column@),
            T::spec_columns().contains(column@) ==> (r matches Ok(q) && q@ == self@.with_condition(
                CondSpec {
                    column: column@,
                    operator: ComparisonOperator::NotIn,
                    value: None,
                    values: Some(values@.map_values(|v: BindValue| v@)),
                },
            )),
    {
        self.where_listed(column, ComparisonOperator::NotIn, values)
    }

    /// Adds `column IS NULL`.
    pub fn where_null(self, column: &str) -> (r: Result<Self, ApiError>)
        ensures
            !T::spec_columns().contains(column@) ==> (r matches Err(e) && e matches
                ApiError::InvalidColumn(c) && c@ == column@),
            T::spec_columns().contains(column@) ==> (r matches Ok(q) && q@ == self@.with_condition(
                CondSpec {
                    column: column@,
                    operator: ComparisonOperator::IsNull,
                    value: None,
                    values: None,
                },
            )),
    {
        match self.validate_column(column) {
            Ok(_) => {
                let cond = WhereCondition {
                    column: column.to_owned(),
                    operator: ComparisonOperator::IsNull,
                    value: None,
                    values: None,
                };
                Ok(self.push_condition(cond))
            },
            Err(e) => Err(e),
        }
    }

    /// Adds `column IS NOT NULL`.
    pub fn where_not_null(self, column: &str) -> (r: Result<Self, ApiError>)
        ensures
            !T::spec_columns().contains(column@) ==> (r matches Err(e) && e matches
                ApiError::InvalidColumn(c) && c@ == column@),
            T::spec_columns().contains(column@) ==> (r matches Ok(q) && q@ == self@.with_condition(
                CondSpec {
                    column: column@,
                    operator: ComparisonOperator::IsNotNull,
                    value: None,
                    values: None,
                },
            )),
    {
        match self.validate_column(column) {
            Ok(_) => {
                let cond = WhereCondition {
                    column: column.to_owned(),
                    operator: ComparisonOperator::IsNotNull,
                    value: None,
                    values: None,
                };
                Ok(self.push_condition(cond))
            },
            Err(e) => Err(e),
        }
    }

    /// Adds `column BETWEEN start AND end`: exactly two bounds.
    pub fn where_between(self, column: &str, start: BindValue, end: BindValue) -> (r: Result<
        Self,
        ApiError,
    >)
        ensures
            !T::spec_columns().contains(column@) ==> (r matches Err(e) && e matches
                ApiError::InvalidColumn(c) && c@ == column@),
            T::spec_columns().contains(column@) ==> (r matches Ok(q) && q@ == self@.with_condition(
                CondSpec {
                    column: column@,
                    operator: ComparisonOperator::Between,
                    value: None,
                    values: Some(seq![start@, end@]),
                },
            )),
    {
        let mut values: Vec<BindValue> = Vec::new();
        values.push(start);
        values.push(end);
        proof {
            assert(values@.map_values(|v: BindValue| v@) =~= seq![start@, end@]);
        }
        self.where_listed(column, ComparisonOperator::Between, values)
    }

    /// Sets the connective of the previously pushed clause to `AND`; a
    /// no-op when no clause was pushed yet.
    pub fn and(self) -> (r: Self)
        ensures
            r@ == self@.with_last_connective(LogicalOperator::And),
    {
        self.set_last_connective(LogicalOperator::And)
    }

    /// Sets the connective of the previously pushed clause to `OR`; a
    /// no-op when no clause was pushed yet.
    pub fn or(self) -> (r: Self)
        ensures
            r@ == self@.with_last_connective(LogicalOperator::Or),
    {
        self.set_last_connective(LogicalOperator::Or)
    }

    /// Replaces the connective of the most recently pushed clause.
    fn set_last_connective(self, op: LogicalOperator) -> (r: Self)
        ensures
            r@ == self@.with_last_connective(op),
    {
        let ghost pre = self.where_clauses@;
        let mut q = self;
        if q.where_clauses.len() > 0 {
            let entry = q.where_clauses.pop().unwrap();
            q.where_clauses.push((entry.0, Some(op)));
            proof {
                lemma_entries_view(pre);
                lemma_entries_view(q.where_clauses@);
                assert(q.where_clauses@ =~= pre.update(
                    pre.len() - 1,
                    (pre.last().0, Some(op)),
                ));
                assert(entries_view(q.where_clauses@) =~= entries_view(pre).update(
                    pre.len() - 1,
                    (clause_view(pre.last().0), Some(op)),
                ));
                assert(q@ =~= self@.with_last_connective(op));
            }
            q
        } else {
            proof {
                lemma_entries_view(pre);
                assert(q@ =~= self@.with_last_connective(op));
            }
            q
        }
    }

    /// Adds an ORDER BY term on a validated column.
    pub fn order_by(self, column: &str, direction: OrderDirection) -> (r: Result<Self, ApiError>)
        ensures
            !T::spec_columns().contains(column@) ==> (r matches Err(e) && e matches
                ApiError::InvalidColumn(c) && c@ == column@),
            T::spec_columns().contains(column@) ==> (r matches Ok(q) && q@ == self@.with_order(
                column@,
                direction,
            )),
    {
        match self.validate_column(column) {
            Ok(_) => {
                let ghost pre = self@;
                let mut q = self;
                q.order_by.push(OrderBy { column: column.to_owned(), direction });
                proof {
                    assert(q.order_by@.map_values(|o: OrderBy| o@) =~= pre.order_by.push(
                        OrderBySpec { column: column@, direction },
                    ));
                    assert(q@ =~= pre.with_order(column@, direction));
                }
                Ok(q)
            },
            Err(e) => Err(e),
        }
    }

    /// Adds an ascending ORDER BY term.
    pub fn order_by_asc(self, column: &str) -> (r: Result<Self, ApiError>)
        ensures
            !T::spec_columns().contains(column@) ==> (r matches Err(e) && e matches
                ApiError::InvalidColumn(c) && c@ == column@),
            T::spec_columns().contains(column@) ==> (r matches Ok(q) && q@ == self@.with_order(
                column@,
                OrderDirection::Asc,
            )),
    {
        self.order_by(column, OrderDirection::Asc)
    }

    /// Adds a descending ORDER BY term.
    pub fn order_by_desc(self, column: &str) -> (r: Result<Self, ApiError>)
        ensures
            !T::spec_columns().contains(column@) ==> (r matches Err(e) && e matches
                ApiError::InvalidColumn(c) && c@ == column@),
            T::spec_columns().contains(column@) ==> (r matches Ok(q) && q@ == self@.with_order(
                column@,
                OrderDirection::Desc,
            )),
    {
        self.order_by(column, OrderDirection::Desc)
    }

    /// Caps the number of returned rows.
    pub fn limit(self, limit: u32) -> (r: Self)
        ensures
            r@ == (QuerySpec { limit: Some(limit), ..self@ }),
    {
        let mut q = self;
        q.limit = Some(limit);
        proof {
            assert(q@ =~= (QuerySpec { limit: Some(limit), ..self@ }));
        }
        q
    }

    /// Skips the first `offset` rows.
    pub fn offset(self, offset: u32) -> (r: Self)
        ensures
            r@ == (QuerySpec { offset: Some(offset), ..self@ }),
    {
        let mut q = self;
        q.offset = Some(offset);
        proof {
            assert(q@ =~= (QuerySpec { offset: Some(offset), ..self@ }));
        }
        q
    }

    /// Selects one page of results: `page` is 1-indexed, a page number
    /// of zero behaves like page one, and the offset is
    /// `(page - 1) * page_size`.
    pub fn paginate(self, page: u32, page_size: u32) -> (r: Self)
        requires
            (if page > 1 {
                (page - 1) as int
            } else {
                0int
            }) * page_size <= u32::MAX,
        ensures
            r@ == (QuerySpec {
                limit: Some(page_size),
                offset: Some(
                    (((if page > 1 {
                        (page - 1) as int
                    } else {
                        0int
                    }) * page_size) as u32),
                ),
                ..self@
            }),
    {
        let base = if page > 1 {
            page - 1
        } else {
            0
        };
        let off = base * page_size;
        let mut q = self;
        q.limit = Some(page_size);
        q.offset = Some(off);
        proof {
            assert(q@ =~= (QuerySpec { limit: Some(page_size), offset: Some(off), ..self@ }));
        }
        q
    }

    /// Appends a JOIN clause; the ON condition is a trusted raw SQL
    /// fragment.
    fn join(self, join_type: JoinType, table: &str, on_condition: &str) -> (r: Self)
        ensures
            r@ == self@.with_join(join_type, table@, on_condition@),
    {
        let ghost pre = self@;
        let mut q = self;
        q.joins.push(
            JoinClause { join_type, table: table.to_owned(), on_condition: on_condition.to_owned() },
        );
        proof {
            assert(q.joins@.map_values(|j: JoinClause| j@) =~= pre.joins.push(
                JoinSpec { join_type, table: table@, on_condition: on_condition@ },
            ));
            assert(q@ =~= pre.with_join(join_type, table@, on_condition@));
        }
        q
    }

    /// Appends an INNER JOIN.
    pub fn inner_join(self, table: &str, on_condition: &str) -> (r: Self)
        ensures
            r@ == self@.with_join(JoinType::Inner, table@, on_condition@),
    {
        self.join(JoinType::Inner, table, on_condition)
    }

    /// Appends a LEFT JOIN.
    pub fn left_join(self, table: &str, on_condition: &str) -> (r: Self)
        ensures
            r@ == self@.with_join(JoinType::Left, table@, on_condition@),
    {
        self.join(JoinType::Left, table, on_condition)
    }

    /// Appends a RIGHT JOIN.
    pub fn right_join(self, table: &str, on_condition: &str) -> (r: Self)
        ensures
            r@ == self@.with_join(JoinType::Right, table@, on_condition@),
    {
        self.join(JoinType::Right, table, on_condition)
    }

    /// Appends a FULL OUTER JOIN.
    pub fn full_outer_join(self, table: &str, on_condition: &str) -> (r: Self)
        ensures
            r@ == self@.with_join(JoinType::Full, table@, on_condition@),
    {
        self.join(JoinType::Full, table, on_condition)
    }

    /// Appends a GROUP BY column after validation.
    pub fn group_by(self, column: &str) -> (r: Result<Self, ApiError>)
        ensures
            !T::spec_columns().contains(column@) ==> (r matches Err(e) && e matches
                ApiError::InvalidColumn(c) && c@ == column@),
            T::spec_columns().contains(column@) ==> (r matches Ok(q) && q@ == self@.with_group_by(
                column@,
            )),
    {
        match self.validate_column(column) {
            Ok(_) => {
                let ghost pre = self@;
                let mut q = self;
                q.group_by.push(column.to_owned());
                proof {
                    assert(q.group_by@.map_values(|s: String| s@) =~= pre.group_by.push(column@));
                    assert(q@ =~= pre.with_group_by(column@));
                }
                Ok(q)
            },
            Err(e) => Err(e),
        }
    }

    /// Requests DISTINCT results.
    pub fn distinct(self) -> (r: Self)
        ensures
            r@ == (QuerySpec { distinct: true, ..self@ }),
    {
        let mut q = self;
        q.distinct = true;
        proof {
            assert(q@ =~= (QuerySpec { distinct: true, ..self@ }));
        }
        q
    }

    /// Restricts the projection to the given columns, all validated.
    pub fn select(self, columns: Vec<String>) -> (r: Result<Self, ApiError>)
        ensures
            r matches Ok(q) ==> (forall|i: int|
                0 <= i < columns@.len() ==> T::spec_columns().contains(#[trigger] columns@[i]@))
                && q@ == (QuerySpec {
                select_columns: Some(columns@.map_values(|s: String| s@)),
                ..self@
            }),
            r matches Err(e) ==> (e matches ApiError::InvalidColumn(c)
                && !T::spec_columns().contains(c@) && columns@.map_values(|s: String| s@).contains(
                c@,
            )),
    {
        let n = columns.len();
        let mut k: usize = 0;
        while k < n
            invariant
                n == columns@.len(),
                k <= n,
                forall|m: int| 0 <= m < k ==> T::spec_columns().contains(#[trigger] columns@[m]@),
            decreases n - k,
        {
            match self.validate_column(columns[k].as_str()) {
                Ok(_) => {},
                Err(e) => {
                    proof {
                        assert(columns@.map_values(|s: String| s@)[k as int] == columns@[
                            k as int
                        ]@);
                    }
                    return Err(e);
                },
            }
            k = k + 1;
        }
        let mut q = self;
        q.select_columns = Some(columns);
        proof {
            assert(q@ =~= (QuerySpec {
                select_columns: Some(q.select_columns.unwrap()@.map_values(|s: String| s@)),
                ..self@
            }));
        }
        Ok(q)
    }

    /// Appends a finished group to the where tree, joined to its
    /// siblings by `op`.
    fn attach_group(
        self,
        clauses: Vec<(WhereClause, Option<LogicalOperator>)>,
        op: LogicalOperator,
    ) -> (r: Self)
        ensures
            r@ == self@.with_group(entries_view(clauses@), op),
    {
        let ghost pre = self@;
        let ghost pre_wc = self.where_clauses@;
        let mut q = self;
        let n = q.where_clauses.len();
        if n > 0 && q.where_clauses[n - 1].1.is_none() {
            let entry = q.where_clauses.pop().unwrap();
            q.where_clauses.push((entry.0, Some(op)));
            proof {
                lemma_entries_view(pre_wc);
                lemma_entries_view(q.where_clauses@);
                assert(q.where_clauses@ =~= pre_wc.update(
                    pre_wc.len() - 1,
                    (pre_wc.last().0, Some(op)),
                ));
                assert(entries_view(q.where_clauses@) =~= entries_view(pre_wc).update(
                    pre_wc.len() - 1,
                    (clause_view(pre_wc.last().0), Some(op)),
                ));
                assert(q@ =~= pre.with_last_connective(op));
            }
        } else {
            proof {
                lemma_entries_view(pre_wc);
            }
        }
        let ghost mid = q@;
        let ghost mid_wc = q.where_clauses@;
        q.where_clauses.push(
            (WhereClause::Group(Box::new(WhereGroup { clauses, operator: op })), None),
        );
        proof {
            assert(q.where_clauses@.drop_last() =~= mid_wc);
            assert(entries_view(q.where_clauses@) =~= entries_view(mid_wc).push(
                (clause_view(q.where_clauses@.last().0), None),
            ));
            assert(clause_view(q.where_clauses@.last().0) == ClauseSpec::Group(
                GroupSpec { clauses: entries_view(clauses@), operator: op },
            ));
            assert(q@ =~= (QuerySpec {
                where_clauses: mid.where_clauses.push(
                    (
                        ClauseSpec::Group(
                            GroupSpec { clauses: entries_view(clauses@), operator: op },
                        ),
                        None,
                    ),
                ),
                ..mid
            }));
            assert(q@ =~= pre.with_group(entries_view(clauses@), op));
        }
        q
    }

    /// Builds a nested, parenthesized group of conditions and appends
    /// it, joined to its siblings by `AND`.  An empty group is
    /// discarded.
    pub fn where_group_and<F: FnOnce(GroupBuilder<T>) -> Result<GroupBuilder<T>, ApiError>>(
        self,
        builder_fn: F,
    ) -> (r: Result<Self, ApiError>)
        requires
            forall|g: GroupBuilder<T>|
                g@.len() == 0 ==> #[trigger] call_requires(builder_fn, (g,)),
        ensures
            r matches Ok(q) ==> exists|gin: GroupBuilder<T>, gout: GroupBuilder<T>|
                gin@.len() == 0 && #[trigger] call_ensures(builder_fn, (gin,), Ok(gout)) && q@
                    == (if gout@.len() == 0 {
                    self@
                } else {
                    self@.with_group(gout@, LogicalOperator::And)
                }),
            r matches Err(e) ==> exists|gin: GroupBuilder<T>|
                gin@.len() == 0 && #[trigger] call_ensures(builder_fn, (gin,), Err(e)),
    {
        self.where_group(LogicalOperator::And, builder_fn)
    }

    /// Builds a nested, parenthesized group of conditions and appends
    /// it, joined to its siblings by `OR`.  An empty group is discarded.
    pub fn where_group_or<F: FnOnce(GroupBuilder<T>) -> Result<GroupBuilder<T>, ApiError>>(
        self,
        builder_fn: F,
    ) -> (r: Result<Self, ApiError>)
        requires
            forall|g: GroupBuilder<T>|
                g@.len() == 0 ==> #[trigger] call_requires(builder_fn, (g,)),
        ensures
            r matches Ok(q) ==> exists|gin: GroupBuilder<T>, gout: GroupBuilder<T>|
                gin@.len() == 0 && #[trigger] call_ensures(builder_fn, (gin,), Ok(gout)) && q@
                    == (if gout@.len() == 0 {
                    self@
                } else {
                    self@.with_group(gout@, LogicalOperator::Or)
                }),
            r matches Err(e) ==> exists|gin: GroupBuilder<T>|
                gin@.len() == 0 && #[trigger] call_ensures(builder_fn, (gin,), Err(e)),
    {
        self.where_group(LogicalOperator::Or, builder_fn)
    }

    /// The shared body of the group methods.
    fn where_group<F: FnOnce(GroupBuilder<T>) -> Result<GroupBuilder<T>, ApiError>>(
        self,
        op: LogicalOperator,
        builder_fn: F,
    ) -> (r: Result<Self, ApiError>)
        requires
            forall|g: GroupBuilder<T>|
                g@.len() == 0 ==> #[trigger] call_requires(builder_fn, (g,)),
        ensures
            r matches Ok(q) ==> exists|gin: GroupBuilder<T>, gout: GroupBuilder<T>|
                gin@.len() == 0 && #[trigger] call_ensures(builder_fn, (gin,), Ok(gout)) && q@
                    == (if gout@.len() == 0 {
                    self@
                } else {
                    self@.with_group(gout@, op)
                }),
            r matches Err(e) ==> exists|gin: GroupBuilder<T>|
                gin@.len() == 0 && #[trigger] call_ensures(builder_fn, (gin,), Err(e)),
    {
        let gin = GroupBuilder::<T>::new();
        let ghost gin_snap = gin;
        let res = builder_fn(gin);
        let ghost res_snap = res;
        match res {
            Ok(gout) => {
                proof {
                    lemma_entries_view(gout.clauses@);
                }
                if gout.clauses.len() > 0 {
                    let ghost gout_snap = gout;
                    let q = self.attach_group(gout.clauses, op);
                    proof {
                        assert(gin_snap@.len() == 0 && call_ensures(
                            builder_fn,
                            (gin_snap,),
                            Ok(gout_snap),
                        ) && q@ == self@.with_group(gout_snap@, op));
                    }
                    Ok(q)
                } else {
                    proof {
                        assert(gin_snap@.len() == 0 && call_ensures(
                            builder_fn,
                            (gin_snap,),
                            Ok(gout),
                        ));
                    }
                    Ok(self)
                }
            },
            Err(e) => {
                proof {
                    assert(gin_snap@.len() == 0 && call_ensures(builder_fn, (gin_snap,), Err(e)));
                }
                Err(e)
            },
        }
    }

    /// Records an UPDATE assignment for a validated column; a repeated
    /// column replaces the earlier value.
    pub fn set(self, column: &str, value: BindValue) -> (r: Result<Self, ApiError>)
        ensures
            !T::spec_columns().contains(column@) ==> (r matches Err(e) && e matches
                ApiError::InvalidColumn(c) && c@ == column@),
            T::spec_columns().contains(column@) ==> (r matches Ok(q) && q@ == (QuerySpec {
                update_data: assoc_set(self@.update_data, column@, value@),
                ..self@
            })),
    {
        match self.validate_column(column) {
            Ok(_) => {
                let mut q = self;
                assoc_vec_set(&mut q.update_data, column, value);
                proof {
                    assert(q@ =~= (QuerySpec {
                        update_data: assoc_set(self@.update_data, column@, value@),
                        ..self@
                    }));
                }
                Ok(q)
            },
            Err(e) => Err(e),
        }
    }

    /// Records an INSERT value for a validated column; a repeated column
    /// replaces the earlier value.
    pub fn value(self, column: &str, value: BindValue) -> (r: Result<Self, ApiError>)
        ensures
            !T::spec_columns().contains(column@) ==> (r matches Err(e) && e matches
                ApiError::InvalidColumn(c) && c@ == column@),
            T::spec_columns().contains(column@) ==> (r matches Ok(q) && q@ == (QuerySpec {
                insert_data: assoc_set(self@.insert_data, column@, value@),
                ..self@
            })),
    {
        match self.validate_column(column) {
            Ok(_) => {
                let mut q = self;
                assoc_vec_set(&mut q.insert_data, column, value);
                proof {
                    assert(q@ =~= (QuerySpec {
                        insert_data: assoc_set(self@.insert_data, column@, value@),
                        ..self@
                    }));
                }
                Ok(q)
            },
            Err(e) => Err(e),
        }
    }

    /// Records several UPDATE assignments, validating every column
    /// first; applied left to right.
    pub fn set_multiple(self, data: Vec<(String, BindValue)>) -> (r: Result<Self, ApiError>)
        ensures
            (forall|i: int|
                0 <= i < data@.len() ==> T::spec_columns().contains(#[trigger] data@[i].0@))
                ==> r is Ok,
            r matches Ok(q) ==> (forall|i: int|
                0 <= i < data@.len() ==> T::spec_columns().contains(#[trigger] data@[i].0@)) && q@
                == (QuerySpec {
                update_data: assoc_set_all(self@.update_data, pairs_view(data@)),
                ..self@
            }),
            r matches Err(e) ==> (e matches ApiError::InvalidColumn(c)
                && !T::spec_columns().contains(c@) && (exists|i: int|
                0 <= i < data@.len() && (#[trigger] data@[i]).0@ == c@)),
    {
        let n = data.len();
        let mut k: usize = 0;
        while k < n
            invariant
                n == data@.len(),
                k <= n,
                forall|m: int| 0 <= m < k ==> T::spec_columns().contains(#[trigger] data@[m].0@),
            decreases n - k,
        {
            match self.validate_column(data[k].0.as_str()) {
                Ok(_) => {},
                Err(e) => {
                    return Err(e);
                },
            }
            k = k + 1;
        }
        let ghost all_pairs = pairs_view(data@);
        let mut q = self;
        let mut rest = data;
        while rest.len() > 0
            invariant
                rest@.len() <= all_pairs.len(),
                pairs_view(rest@) == all_pairs.subrange(
                    all_pairs.len() - rest@.len(),
                    all_pairs.len() as int,
                ),
                pairs_view(q.update_data@) == assoc_set_all(
                    self@.update_data,
                    all_pairs.take(all_pairs.len() - rest@.len()),
                ),
                q.order_by@ == self.order_by@,
                q.joins@ == self.joins@,
                q.limit == self.limit,
                q.offset == self.offset,
                q.group_by@ == self.group_by@,
                q.having@ == self.having@,
                q.distinct == self.distinct,
                q.select_columns == self.select_columns,
                q.insert_data@ == self.insert_data@,
                q.where_clauses@ == self.where_clauses@,
            decreases rest@.len(),
        {
            let ghost pre_rest = rest@;
            let ghost done = all_pairs.len() - pre_rest.len();
            let pair = rest.remove(0);
            proof {
                assert(pairs_view(pre_rest) == all_pairs.subrange(done, all_pairs.len() as int));
                assert(all_pairs.subrange(done, all_pairs.len() as int)[0] == all_pairs[done]);
                assert(pairs_view(pre_rest)[0] == (pre_rest[0].0@, pre_rest[0].1@));
                assert((pair.0@, pair.1@) == all_pairs[done]);
                assert(rest@ =~= pre_rest.drop_first());
                assert forall|m: int| 0 <= m < rest@.len() implies #[trigger] pairs_view(rest@)[m]
                    == all_pairs.subrange(done + 1, all_pairs.len() as int)[m] by {
                    assert(pairs_view(rest@)[m] == (rest@[m].0@, rest@[m].1@));
                    assert(rest@[m] == pre_rest[m + 1]);
                    assert(pairs_view(pre_rest)[m + 1] == (pre_rest[m + 1].0@, pre_rest[m + 1].1@));
                    assert(all_pairs.subrange(done, all_pairs.len() as int)[m + 1] == all_pairs[
                        done + m + 1
                    ]);
                    assert(all_pairs.subrange(done + 1, all_pairs.len() as int)[m] == all_pairs[
                        done + 1 + m
                    ]);
                }
                assert(pairs_view(rest@) =~= all_pairs.subrange(
                    done + 1,
                    all_pairs.len() as int,
                ));
            }
            assoc_vec_set(&mut q.update_data, pair.0.as_str(), pair.1);
            proof {
                assert(all_pairs.take(done + 1).drop_last() =~= all_pairs.take(done));
                assert(all_pairs.take(done + 1).last() == all_pairs[done]);
            }
        }
        proof {
            assert(all_pairs.take(all_pairs.len() as int) =~= all_pairs);
            assert(q@ =~= (QuerySpec {
                update_data: assoc_set_all(self@.update_data, all_pairs),
                ..self@
            }));
        }
        Ok(q)
    }

    /// Records several INSERT values, validating every column first;
    /// applied left to right.
    pub fn values(self, data: Vec<(String, BindValue)>) -> (r: Result<Self, ApiError>)
        ensures
            (forall|i: int|
                0 <= i < data@.len() ==> T::spec_columns().contains(#[trigger] data@[i].0@))
                ==> r is Ok,
            r matches Ok(q) ==> (forall|i: int|
                0 <= i < data@.len() ==> T::spec_columns().contains(#[trigger] data@[i].0@)) && q@
                == (QuerySpec {
                insert_data: assoc_set_all(self@.insert_data, pairs_view(data@)),
                ..self@
            }),
            r matches Err(e) ==> (e matches ApiError::InvalidColumn(c)
                && !T::spec_columns().contains(c@) && (exists|i: int|
                0 <= i < data@.len() && (#[trigger] data@[i]).0@ == c@)),
    {
        let n = data.len();
        let mut k: usize = 0;
        while k < n
            invariant
                n == data@.len(),
                k <= n,
                forall|m: int| 0 <= m < k ==> T::spec_columns().contains(#[trigger] data@[m].0@),
            decreases n - k,
        {
            match self.validate_column(data[k].0.as_str()) {
                Ok(_) => {},
                Err(e) => {
                    return Err(e);
                },
            }
            k = k + 1;
        }
        let ghost all_pairs = pairs_view(data@);
        let mut q = self;
        let mut rest = data;
        while rest.len() > 0
            invariant
                rest@.len() <= all_pairs.len(),
                pairs_view(rest@) == all_pairs.subrange(
                    all_pairs.len() - rest@.len(),
                    all_pairs.len() as int,
                ),
                pairs_view(q.insert_data@) == assoc_set_all(
                    self@.insert_data,
                    all_pairs.take(all_pairs.len() - rest@.len()),
                ),
                q.order_by@ == self.order_by@,
                q.joins@ == self.joins@,
                q.limit == self.limit,
                q.offset == self.offset,
                q.group_by@ == self.group_by@,
                q.having@ == self.having@,
                q.distinct == self.distinct,
                q.select_columns == self.select_columns,
                q.update_data@ == self.update_data@,
                q.where_clauses@ == self.where_clauses@,
            decreases rest@.len(),
        {
            let ghost pre_rest = rest@;
            let ghost done = all_pairs.len() - pre_rest.len();
            let pair = rest.remove(0);
            proof {
                assert(pairs_view(pre_rest) == all_pairs.subrange(done, all_pairs.len() as int));
                assert(all_pairs.subrange(done, all_pairs.len() as int)[0] == all_pairs[done]);
                assert(pairs_view(pre_rest)[0] == (pre_rest[0].0@, pre_rest[0].1@));
                assert((pair.0@, pair.1@) == all_pairs[done]);
                assert(rest@ =~= pre_rest.drop_first());
                assert forall|m: int| 0 <= m < rest@.len() implies #[trigger] pairs_view(rest@)[m]
                    == all_pairs.subrange(done + 1, all_pairs.len() as int)[m] by {
                    assert(pairs_view(rest@)[m] == (rest@[m].0@, rest@[m].1@));
                    assert(rest@[m] == pre_rest[m + 1]);
                    assert(pairs_view(pre_rest)[m + 1] == (pre_rest[m + 1].0@, pre_rest[m + 1].1@));
                    assert(all_pairs.subrange(done, all_pairs.len() as int)[m + 1] == all_pairs[
                        done + m + 1
                    ]);
                    assert(all_pairs.subrange(done + 1, all_pairs.len() as int)[m] == all_pairs[
                        done + 1 + m
                    ]);
                }
                assert(pairs_view(rest@) =~= all_pairs.subrange(
                    done + 1,
                    all_pairs.len() as int,
                ));
            }
            assoc_vec_set(&mut q.insert_data, pair.0.as_str(), pair.1);
            proof {
                assert(all_pairs.take(done + 1).drop_last() =~= all_pairs.take(done));
                assert(all_pairs.take(done + 1).last() == all_pairs[done]);
            }
        }
        proof {
            assert(all_pairs.take(all_pairs.len() as int) =~= all_pairs);
            assert(q@ =~= (QuerySpec {
                insert_data: assoc_set_all(self@.insert_data, all_pairs),
                ..self@
            }));
        }
        Ok(q)
    }
}

} // verus!
