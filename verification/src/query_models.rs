//! The dialect-independent query intermediate representation: comparison
//! and logical operators, the where-clause tree, ordering and joins.
//!
//! Each executable type has a mathematical shadow over character
//! sequences, and the rendering contracts are stated over those shadows.

use vstd::prelude::*;
use crate::values::{BindSpec, BindValue};

verus! {

/// A comparison operator of a single where-condition.
#[derive(Clone, Copy, Debug, PartialEq, Eq, Structural)]
pub enum ComparisonOperator {
    Equal,
    NotEqual,
    GreaterThan,
    GreaterThanOrEqual,
    LessThan,
    LessThanOrEqual,
    Like,
    ILike,
    In,
    NotIn,
    IsNull,
    IsNotNull,
    Between,
}

impl ComparisonOperator {
    /// The SQL spelling of the operator.
    pub open spec fn spec_sql(&self) -> Seq<char> {
        match self {
            ComparisonOperator::Equal => "="@,
            ComparisonOperator::NotEqual => "!="@,
            ComparisonOperator::GreaterThan => ">"@,
            ComparisonOperator::GreaterThanOrEqual => ">="@,
            ComparisonOperator::LessThan => "<"@,
            ComparisonOperator::LessThanOrEqual => "<="@,
            ComparisonOperator::Like => "LIKE"@,
            ComparisonOperator::ILike => "ILIKE"@,
            ComparisonOperator::In => "IN"@,
            ComparisonOperator::NotIn => "NOT IN"@,
            ComparisonOperator::IsNull => "IS NULL"@,
            ComparisonOperator::IsNotNull => "IS NOT NULL"@,
            ComparisonOperator::Between => "BETWEEN"@,
        }
    }

    /// The SQL spelling of the operator.
    pub fn to_sql(&self) -> (r: &'static str)
        ensures
            r@ == self.spec_sql(),
    {
        match self {
            ComparisonOperator::Equal => "=",
            ComparisonOperator::NotEqual => "!=",
            ComparisonOperator::GreaterThan => ">",
            ComparisonOperator::GreaterThanOrEqual => ">=",
            ComparisonOperator::LessThan => "<",
            ComparisonOperator::LessThanOrEqual => "<=",
            ComparisonOperator::Like => "LIKE",
            ComparisonOperator::ILike => "ILIKE",
            ComparisonOperator::In => "IN",
            ComparisonOperator::NotIn => "NOT IN",
            ComparisonOperator::IsNull => "IS NULL",
            ComparisonOperator::IsNotNull => "IS NOT NULL",
            ComparisonOperator::Between => "BETWEEN",
        }
    }
}

/// The connective between two adjacent where-clauses.
#[derive(Clone, Copy, Debug, PartialEq, Eq, Structural)]
pub enum LogicalOperator {
    And,
    Or,
}

impl LogicalOperator {
    /// The SQL spelling of the connective.
    pub open spec fn spec_sql(&self) -> Seq<char> {
        match self {
            LogicalOperator::And => "AND"@,
            LogicalOperator::Or => "OR"@,
        }
    }

    /// The SQL spelling of the connective.
    pub fn to_sql(&self) -> (r: &'static str)
        ensures
            r@ == self.spec_sql(),
    {
        match self {
            LogicalOperator::And => "AND",
            LogicalOperator::Or => "OR",
        }
    }
}

/// The direction of an ORDER BY term.
#[derive(Clone, Copy, Debug, PartialEq, Eq, Structural)]
pub enum OrderDirection {
    Asc,
    Desc,
}

impl OrderDirection {
    /// The SQL spelling of the direction.
    pub open spec fn spec_sql(&self) -> Seq<char> {
        match self {
            OrderDirection::Asc => "ASC"@,
            OrderDirection::Desc => "DESC"@,
        }
    }

    /// The SQL spelling of the direction.
    pub fn to_sql(&self) -> (r: &'static str)
        ensures
            r@ == self.spec_sql(),
    {
        match self {
            OrderDirection::Asc => "ASC",
            OrderDirection::Desc => "DESC",
        }
    }
}

/// The flavour of a JOIN clause.
#[derive(Clone, Copy, Debug, PartialEq, Eq, Structural)]
pub enum JoinType {
    Inner,
    Left,
    Right,
    Full,
}

impl JoinType {
    /// The SQL spelling of the join flavour.
    pub open spec fn spec_sql(&self) -> Seq<char> {
        match self {
            JoinType::Inner => "INNER JOIN"@,
            JoinType::Left => "LEFT JOIN"@,
            JoinType::Right => "RIGHT JOIN"@,
            JoinType::Full => "FULL OUTER JOIN"@,
        }
    }

    /// The SQL spelling of the join flavour.
    pub fn to_sql(&self) -> (r: &'static str)
        ensures
            r@ == self.spec_sql(),
    {
        match self {
            JoinType::Inner => "INNER JOIN",
            JoinType::Left => "LEFT JOIN",
            JoinType::Right => "RIGHT JOIN",
            JoinType::Full => "FULL OUTER JOIN",
        }
    }
}

/// A single comparison on one column.
///
/// `values` is populated only for `In`, `NotIn` and `Between`; `value`
/// and `values` are both absent only for `IsNull` and `IsNotNull`.
#[derive(Debug)]
pub struct WhereCondition {
    pub column: String,
    pub operator: ComparisonOperator,
    pub value: Option<BindValue>,
    pub values: Option<Vec<BindValue>>,
}

/// The mathematical shadow of a [`WhereCondition`].
#[verifier::ext_equal]
pub struct CondSpec {
    pub column: Seq<char>,
    pub operator: ComparisonOperator,
    pub value: Option<BindSpec>,
    pub values: Option<Seq<BindSpec>>,
}

impl View for WhereCondition {
    type V = CondSpec;

    open spec fn view(&self) -> CondSpec {
        CondSpec {
            column: self.column@,
            operator: self.operator,
            value: match self.value {
                Some(v) => Some(v@),
                None => None,
            },
            values: match self.values {
                Some(vs) => Some(vs@.map_values(|v: BindValue| v@)),
                None => None,
            },
        }
    }
}

/// One node of the where tree: a bare condition or a parenthesized group.
#[derive(Debug)]
pub enum WhereClause {
    Condition(WhereCondition),
    Group(Box<WhereGroup>),
}

/// A parenthesized sub-tree of conditions.
///
/// The connective attached to entry `i` joins entry `i` to entry `i + 1`;
/// the last entry's connective is ignored.  `operator` is the connective
/// that joins the whole group to its siblings in the parent.
#[derive(Debug)]
pub struct WhereGroup {
    pub clauses: Vec<(WhereClause, Option<LogicalOperator>)>,
    pub operator: LogicalOperator,
}

/// The mathematical shadow of a [`WhereClause`].
#[verifier::ext_equal]
pub enum ClauseSpec {
    Condition(CondSpec),
    Group(GroupSpec),
}

/// The mathematical shadow of a [`WhereGroup`].
#[verifier::ext_equal]
pub struct GroupSpec {
    pub clauses: Seq<(ClauseSpec, Option<LogicalOperator>)>,
    pub operator: LogicalOperator,
}

/// The shadow of one where-tree node.
pub open spec fn clause_view(c: WhereClause) -> ClauseSpec
    decreases c,
{
    match c {
        WhereClause::Condition(cond) => ClauseSpec::Condition(cond@),
        WhereClause::Group(g) => ClauseSpec::Group(
            GroupSpec { clauses: entries_view(g.clauses@), operator: g.operator },
        ),
    }
}

/// The shadow of a list of where-tree entries.
pub open spec fn entries_view(cs: Seq<(WhereClause, Option<LogicalOperator>)>) -> Seq<
    (ClauseSpec, Option<LogicalOperator>),
>
    decreases cs,
{
    if cs.len() == 0 {
        Seq::empty()
    } else {
        entries_view(cs.drop_last()).push((clause_view(cs.last().0), cs.last().1))
    }
}

/// The shadow list is the element-wise shadow of the entry list.
pub proof fn lemma_entries_view(cs: Seq<(WhereClause, Option<LogicalOperator>)>)
    ensures
        entries_view(cs).len() == cs.len(),
        forall|i: int|
            0 <= i < cs.len() ==> entries_view(cs)[i] == (clause_view(cs[i].0), cs[i].1),
    decreases cs,
{
    if cs.len() > 0 {
        lemma_entries_view(cs.drop_last());
    }
}

impl View for WhereClause {
    type V = ClauseSpec;

    open spec fn view(&self) -> ClauseSpec {
        clause_view(*self)
    }
}

/// One ORDER BY term.
#[derive(Debug)]
pub struct OrderBy {
    pub column: String,
    pub direction: OrderDirection,
}

/// The mathematical shadow of an [`OrderBy`].
#[verifier::ext_equal]
pub struct OrderBySpec {
    pub column: Seq<char>,
    pub direction: OrderDirection,
}

impl View for OrderBy {
    type V = OrderBySpec;

    open spec fn view(&self) -> OrderBySpec {
        OrderBySpec { column: self.column@, direction: self.direction }
    }
}

/// One JOIN clause.  The ON condition is a trusted raw SQL fragment
/// supplied by the caller.
#[derive(Debug)]
pub struct JoinClause {
    pub join_type: JoinType,
    pub table: String,
    pub on_condition: String,
}

/// The mathematical shadow of a [`JoinClause`].
#[verifier::ext_equal]
pub struct JoinSpec {
    pub join_type: JoinType,
    pub table: Seq<char>,
    pub on_condition: Seq<char>,
}

impl View for JoinClause {
    type V = JoinSpec;

    open spec fn view(&self) -> JoinSpec {
        JoinSpec {
            join_type: self.join_type,
            table: self.table@,
            on_condition: self.on_condition@,
        }
    }
}

} // verus!
