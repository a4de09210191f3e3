//! The builder for nested, parenthesized groups of where-conditions.
//!
//! A group is assembled by the same validated condition methods as the
//! top-level builder, then embedded as one parenthesized node of the
//! parent's where tree.

use vstd::prelude::*;
use core::marker::PhantomData;
use crate::entry::Entry;
use crate::errors::ApiError;
use crate::query_models::{
    ClauseSpec, ComparisonOperator, CondSpec, LogicalOperator, WhereClause, WhereCondition,
    clause_view, entries_view, lemma_entries_view,
};
use crate::strutil::contains_str;
use crate::values::BindValue;

verus! {

/// A builder for one parenthesized group of conditions on the entity
/// type `T`.
#[derive(Debug)]
pub struct GroupBuilder<T: Entry> {
    pub clauses: Vec<(WhereClause, Option<LogicalOperator>)>,
    pub _phantom: PhantomData<T>,
}

impl<T: Entry> View for GroupBuilder<T> {
    type V = Seq<(ClauseSpec, Option<LogicalOperator>)>;

    open spec fn view(&self) -> Seq<(ClauseSpec, Option<LogicalOperator>)> {
        entries_view(self.clauses@)
    }
}

impl<T: Entry> GroupBuilder<T> {
    /// An empty group.
    pub fn new() -> (r: Self)
        ensures
            r@ == Seq::<(ClauseSpec, Option<LogicalOperator>)>::empty(),
    {
        let r = GroupBuilder { clauses: Vec::new(), _phantom: PhantomData };
        proof {
            assert(r@ =~= Seq::<(ClauseSpec, Option<LogicalOperator>)>::empty());
        }
        r
    }

    /// Checks a column name against the entity's declared column set.
    fn validate_column(&self, column: &str) -> (r: Result<(), ApiError>)
        ensures
            r is Ok <==> T::spec_columns().contains(column@),
            r matches Err(e) ==> (e matches ApiError::InvalidColumn(c) && c@ == column@),
    {
        let cols = T::columns();
        if contains_str(&cols, column) {
            Ok(())
        } else {
            Err(ApiError::InvalidColumn(column.to_owned()))
        }
    }

    /// Appends a validated bare condition.
    fn push_condition(self, cond: WhereCondition) -> (r: Self)
        ensures
            r@ == self@.push((ClauseSpec::Condition(cond@), None)),
    {
        let ghost pre = self.clauses@;
        let mut g = self;
        g.clauses.push((WhereClause::Condition(cond), None));
        proof {
            assert(g.clauses@.drop_last() =~= pre);
            assert(g@ =~= entries_view(pre).push((clause_view(g.clauses@.last().0), None)));
        }
        g
    }

    /// Builds a scalar-comparison condition on a validated column.
    fn where_scalar(self, column: &str, op: ComparisonOperator, value: BindValue) -> (r: Result<
        Self,
        ApiError,
    >)
        ensures
            !T::spec_columns().contains(column@) ==> (r matches Err(e) && e matches
                ApiError::InvalidColumn(c) && c@ == column@),
            T::spec_columns().contains(column@) ==> (r matches Ok(g) && g@ == self@.push(
                (
                    ClauseSpec::Condition(
                        CondSpec { column: column@, operator: op, value: Some(value@), values: None },
                    ),
                    None,
                ),
            )),
    {
        match self.validate_column(column) {
            Ok(_) => {
                let cond = WhereCondition {
                    column: column.to_owned(),
                    operator: op,
                    value: Some(value),
                    values: None,
                };
                Ok(self.push_condition(cond))
            },
            Err(e) => Err(e),
        }
    }

    /// Adds `column = value`.
    pub fn where_eq(self, column: &str, value: BindValue) -> (r: Result<Self, ApiError>)
        ensures
            !T::spec_columns().contains(column@) ==> (r matches Err(e) && e matches
                ApiError::InvalidColumn(c) && c@ == column@),
            T::spec_columns().contains(column@) ==> (r matches Ok(g) && g@ == self@.push(
                (
                    ClauseSpec::Condition(
                        CondSpec {
                            column: column@,
                            operator: ComparisonOperator::Equal,
                            value: Some(value@),
                            values: None,
                        },
                    ),
                    None,
                ),
            )),
    {
        self.where_scalar(column, ComparisonOperator::Equal, value)
    }

    /// Adds `column != value`.
    pub fn where_ne(self, column: &str, value: BindValue) -> (r: Result<Self, ApiError>)
        ensures
            !T::spec_columns().contains(column@) ==> (r matches Err(e) && e matches
                ApiError::InvalidColumn(c) && c@ == column@),
            T::spec_columns().contains(column@) ==> (r matches Ok(g) && g@ == self@.push(
                (
                    ClauseSpec::Condition(
                        CondSpec {
                            column: column@,
                            operator: ComparisonOperator::NotEqual,
                            value: Some(value@),
                            values: None,
                        },
                    ),
                    None,
                ),
            )),
    {
        self.where_scalar(column, ComparisonOperator::NotEqual, value)
    }

    /// Adds `column > value`.
    pub fn where_gt(self, column: &str, value: BindValue) -> (r: Result<Self, ApiError>)
        ensures
            !T::spec_columns().contains(column@) ==> (r matches Err(e) && e matches
                ApiError::InvalidColumn(c) && c@ == column@),
            T::spec_columns().contains(column@) ==> (r matches Ok(g) && g@ == self@.push(
                (
                    ClauseSpec::Condition(
                        CondSpec {
                            column: column@,
                            operator: ComparisonOperator::GreaterThan,
                            value: Some(value@),
                            values: None,
                        },
                    ),
                    None,
                ),
            )),
    {
        self.where_scalar(column, ComparisonOperator::GreaterThan, value)
    }

    /// Adds `column >= value`.
    pub fn where_gte(self, column: &str, value: BindValue) -> (r: Result<Self, ApiError>)
        ensures
            !T::spec_columns().contains(column@) ==> (r matches Err(e) && e matches
                ApiError::InvalidColumn(c) && c@ == column@),
            T::spec_columns().contains(column@) ==> (r matches Ok(g) && g@ == self@.push(
                (
                    ClauseSpec::Condition(
                        CondSpec {
                            column: column@,
                            operator: ComparisonOperator::GreaterThanOrEqual,
                            value: Some(value@),
                            values: None,
                        },
                    ),
                    None,
                ),
            )),
    {
        self.where_scalar(column, ComparisonOperator::GreaterThanOrEqual, value)
    }

    /// Adds `column < value`.
    pub fn where_lt(self, column: &str, value: BindValue) -> (r: Result<Self, ApiError>)
        ensures
            !T::spec_columns().contains(column@) ==> (r matches Err(e) && e matches
                ApiError::InvalidColumn(c) && c@ == column@),
            T::spec_columns().contains(column@) ==> (r matches Ok(g) && g@ == self@.push(
                (
                    ClauseSpec::Condition(
                        CondSpec {
                            column: column@,
                            operator: ComparisonOperator::LessThan,
                            value: Some(value@),
                            values: None,
                        },
                    ),
                    None,
                ),
            )),
    {
        self.where_scalar(column, ComparisonOperator::LessThan, value)
    }

    /// Adds `column IN (values...)`.
    pub fn where_in(self, column: &str, values: Vec<BindValue>) -> (r: Result<Self, ApiError>)
        ensures
            !T::spec_columns().contains(column@) ==> (r matches Err(e) && e matches
                ApiError::InvalidColumn(c) && c@ == column@),
            T::spec_columns().contains(column@) ==> (r matches Ok(g) && g@ == self@.push(
                (
                    ClauseSpec::Condition(
                        CondSpec {
                            column: column@,
                            operator: ComparisonOperator::In,
                            value: None,
                            values: Some(values@.map_values(|v: BindValue| v@)),
                        },
                    ),
                    None,
                ),
            )),
    {
        match self.validate_column(column) {
            Ok(_) => {
                let cond = WhereCondition {
                    column: column.to_owned(),
                    operator: ComparisonOperator::In,
                    value: None,
                    values: Some(values),
                };
                Ok(self.push_condition(cond))
            },
            Err(e) => Err(e),
        }
    }

    /// Adds `column LIKE pattern`.
    pub fn where_like(self, column: &str, pattern: BindValue) -> (r: Result<Self, ApiError>)
        ensures
            !T::spec_columns().contains(column@) ==> (r matches Err(e) && e matches
                ApiError::InvalidColumn(c) && c@ == column@),
            T::spec_columns().contains(column@) ==> (r matches Ok(g) && g@ == self@.push(
                (
                    ClauseSpec::Condition(
                        CondSpec {
                            column: column@,
                            operator: ComparisonOperator::Like,
                            value: Some(pattern@),
                            values: None,
                        },
                    ),
                    None,
                ),
            )),
    {
        self.where_scalar(column, ComparisonOperator::Like, pattern)
    }

    /// Adds `column IS NULL`.
    pub fn where_null(self, column: &str) -> (r: Result<Self, ApiError>)
        ensures
            !T::spec_columns().contains(column@) ==> (r matches Err(e) && e matches
                ApiError::InvalidColumn(c) && c@ == column@),
            T::spec_columns().contains(column@) ==> (r matches Ok(g) && g@ == self@.push(
                (
                    ClauseSpec::Condition(
                        CondSpec {
                            column: column@,
                            operator: ComparisonOperator::IsNull,
                            value: None,
                            values: None,
                        },
                    ),
                    None,
                ),
            )),
    {
        match self.validate_column(column) {
            Ok(_) => {
                let cond = WhereCondition {
                    column: column.to_owned(),
                    operator: ComparisonOperator::IsNull,
                    value: None,
                    values: None,
                };
                Ok(self.push_condition(cond))
            },
            Err(e) => Err(e),
        }
    }

    /// Adds `column IS NOT NULL`.
    pub fn where_not_null(self, column: &str) -> (r: Result<Self, ApiError>)
        ensures
            !T::spec_columns().contains(column@) ==> (r matches Err(e) && e matches
                ApiError::InvalidColumn(c) && c@ == column@),
            T::spec_columns().contains(column@) ==> (r matches Ok(g) && g@ == self@.push(
                (
                    ClauseSpec::Condition(
                        CondSpec {
                            column: column@,
                            operator: ComparisonOperator::IsNotNull,
                            value: None,
                            values: None,
                        },
                    ),
                    None,
                ),
            )),
    {
        match self.validate_column(column) {
            Ok(_) => {
                let cond = WhereCondition {
                    column: column.to_owned(),
                    operator: ComparisonOperator::IsNotNull,
                    value: None,
                    values: None,
                };
                Ok(self.push_condition(cond))
            },
            Err(e) => Err(e),
        }
    }

    /// Sets the connective of the previously pushed clause to `AND`.
    pub fn and(self) -> (r: Self)
        ensures
            self@.len() == 0 ==> r@ == self@,
            self@.len() > 0 ==> r@ == self@.update(
                self@.len() - 1,
                (self@.last().0, Some(LogicalOperator::And)),
            ),
    {
        self.set_last_connective(LogicalOperator::And)
    }

    /// Sets the connective of the previously pushed clause to `OR`.
    pub fn or(self) -> (r: Self)
        ensures
            self@.len() == 0 ==> r@ == self@,
            self@.len() > 0 ==> r@ == self@.update(
                self@.len() - 1,
                (self@.last().0, Some(LogicalOperator::Or)),
            ),
    {
        self.set_last_connective(LogicalOperator::Or)
    }

    /// Replaces the connective of the most recently pushed clause.
    fn set_last_connective(self, op: LogicalOperator) -> (r: Self)
        ensures
            self@.len() == 0 ==> r@ == self@,
            self@.len() > 0 ==> r@ == self@.update(self@.len() - 1, (self@.last().0, Some(op))),
    {
        let ghost pre = self.clauses@;
        let mut g = self;
        if g.clauses.len() > 0 {
            let entry = g.clauses.pop().unwrap();
            g.clauses.push((entry.0, Some(op)));
            proof {
                lemma_entries_view(pre);
                lemma_entries_view(g.clauses@);
                assert(g.clauses@ =~= pre.update(pre.len() - 1, (pre.last().0, Some(op))));
                assert(g@ =~= entries_view(pre).update(
                    pre.len() - 1,
                    (clause_view(pre.last().0), Some(op)),
                ));
            }
            g
        } else {
            proof {
                lemma_entries_view(pre);
            }
            g
        }
    }
}

} // verus!
