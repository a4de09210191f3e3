//! The library-wide laws, stated and proved once over the rendering
//! model.

use vstd::prelude::*;
use crate::builder::QuerySpec;
use crate::dialect::DbType;
use crate::entry::Entry;
use crate::query_models::{ClauseSpec, ComparisonOperator, CondSpec, GroupSpec, LogicalOperator};
use crate::render::{clause_params, clause_sql, cond_params, entries_params, entries_sql};
use crate::values::BindSpec;

verus! {

/// Bind alignment: every entity binds exactly one value per insertable
/// column, so an entity-driven insert or update can never bind out of
/// step with its column list.
pub proof fn lemma_bind_alignment<T: Entry>(e: &T)
    ensures
        e.spec_bind_values().len() == T::spec_insertable_columns().len(),
        forall|i: int|
            0 <= i < T::spec_insertable_columns().len() ==> T::spec_columns().contains(
                #[trigger] T::spec_insertable_columns()[i],
            ),
{
    T::bind_values_align(e);
    T::columns_cover_insertable();
}

/// Placeholder ordering: for the condition sequence
/// `[a = v1, b IN (v2, v3), c BETWEEN v4 AND v5]` the rendered text
/// allocates placeholders one to five left to right, and the bound
/// parameters are exactly `[v1, v2, v3, v4, v5]` in that order — for
/// every dialect.
#[verifier::rlimit(100)]
pub proof fn lemma_placeholder_ordering(
    a: Seq<char>,
    b: Seq<char>,
    c: Seq<char>,
    v1: BindSpec,
    v2: BindSpec,
    v3: BindSpec,
    v4: BindSpec,
    v5: BindSpec,
    db: DbType,
)
    ensures
        entries_params(placeholder_ordering_entries(a, b, c, v1, v2, v3, v4, v5)) == seq![
            v1,
            v2,
            v3,
            v4,
            v5,
        ],
        entries_sql(placeholder_ordering_entries(a, b, c, v1, v2, v3, v4, v5), db, 1) == a
            + " = "@ + db.spec_placeholder(1) + " AND "@ + b + " IN ("@ + db.spec_placeholder(2)
            + ", "@ + db.spec_placeholder(3) + ")"@ + " AND "@ + c + " BETWEEN "@
            + db.spec_placeholder(4) + " AND "@ + db.spec_placeholder(5),
{
    let cs = placeholder_ordering_entries(a, b, c, v1, v2, v3, v4, v5);
    let eq_c = CondSpec {
        column: a,
        operator: ComparisonOperator::Equal,
        value: Some(v1),
        values: None,
    };
    let in_c = CondSpec {
        column: b,
        operator: ComparisonOperator::In,
        value: None,
        values: Some(seq![v2, v3]),
    };
    let bt_c = CondSpec {
        column: c,
        operator: ComparisonOperator::Between,
        value: None,
        values: Some(seq![v4, v5]),
    };
    let tail2 = seq![(ClauseSpec::Condition(bt_c), None::<LogicalOperator>)];
    let tail1 = seq![
        (ClauseSpec::Condition(in_c), Some(LogicalOperator::And)),
        (ClauseSpec::Condition(bt_c), None::<LogicalOperator>),
    ];
    assert(cs.drop_first() =~= tail1);
    assert(tail1.drop_first() =~= tail2);
    assert(cs[0] == (ClauseSpec::Condition(eq_c), Some(LogicalOperator::And)));
    assert(tail1[0] == (ClauseSpec::Condition(in_c), Some(LogicalOperator::And)));
    assert(tail2[0] == (ClauseSpec::Condition(bt_c), None::<LogicalOperator>));
    assert(cond_params(eq_c) =~= seq![v1]);
    assert(cond_params(in_c) =~= seq![v2, v3]);
    assert(cond_params(bt_c) =~= seq![v4, v5]);
    crate::repository::lemma_single_condition_params(bt_c);
    assert(entries_params(tail2) == cond_params(bt_c));
    assert(clause_params(tail1[0].0) == cond_params(in_c));
    assert(entries_params(tail1) == clause_params(tail1[0].0) + entries_params(
        tail1.drop_first(),
    ));
    assert(entries_params(tail1) =~= seq![v2, v3, v4, v5]);
    assert(clause_params(cs[0].0) == cond_params(eq_c));
    assert(entries_params(cs) == clause_params(cs[0].0) + entries_params(cs.drop_first()));
    assert(entries_params(cs) =~= seq![v1, v2, v3, v4, v5]);
    reveal_strlit(" ");
    reveal_strlit("=");
    reveal_strlit(" = ");
    reveal_strlit("IN");
    reveal_strlit(" IN (");
    reveal_strlit(" (");
    reveal_strlit(", ");
    reveal_strlit(")");
    reveal_strlit("AND");
    reveal_strlit(" AND ");
    reveal_strlit("BETWEEN");
    reveal_strlit(" BETWEEN ");
    assert(crate::render::spec_ph_list(db, 2, 1) == db.spec_placeholder(2));
    assert(crate::render::spec_ph_list(db, 2, 2) =~= db.spec_placeholder(2) + ", "@
        + db.spec_placeholder(3));
    assert(crate::render::cond_sql(eq_c, db, 1) =~= a + " = "@ + db.spec_placeholder(1));
    assert(crate::render::cond_sql(in_c, db, 2) =~= b + " IN ("@ + db.spec_placeholder(2) + ", "@
        + db.spec_placeholder(3) + ")"@);
    assert(crate::render::cond_sql(bt_c, db, 4) =~= c + " BETWEEN "@ + db.spec_placeholder(4)
        + " AND "@ + db.spec_placeholder(5));
    assert(tail2.len() == 1);
    assert(clause_sql(tail2[0].0, db, 4) == crate::render::cond_sql(bt_c, db, 4));
    assert(entries_sql(tail2, db, 4) == clause_sql(tail2[0].0, db, 4));
    assert(clause_sql(tail1[0].0, db, 2) == crate::render::cond_sql(in_c, db, 2));
    assert(entries_sql(tail1, db, 2) == clause_sql(tail1[0].0, db, 2) + " "@
        + crate::render::spec_connective(tail1[0].1) + " "@ + entries_sql(
        tail1.drop_first(),
        db,
        2 + clause_params(tail1[0].0).len(),
    ));
    assert(2 + clause_params(tail1[0].0).len() == 4);
    assert(entries_sql(tail1, db, 2) =~= crate::render::cond_sql(in_c, db, 2) + " AND "@
        + entries_sql(tail2, db, 4));
    assert(clause_sql(cs[0].0, db, 1) == crate::render::cond_sql(eq_c, db, 1));
    assert(entries_sql(cs, db, 1) == clause_sql(cs[0].0, db, 1) + " "@
        + crate::render::spec_connective(cs[0].1) + " "@ + entries_sql(
        cs.drop_first(),
        db,
        1 + clause_params(cs[0].0).len(),
    ));
    assert(entries_sql(cs, db, 1) =~= a + " = "@ + db.spec_placeholder(1) + " AND "@ + b
        + " IN ("@ + db.spec_placeholder(2) + ", "@ + db.spec_placeholder(3) + ")"@ + " AND "@ + c
        + " BETWEEN "@ + db.spec_placeholder(4) + " AND "@ + db.spec_placeholder(5));
}

/// The condition sequence the placeholder-ordering law speaks of.
pub open spec fn placeholder_ordering_entries(
    a: Seq<char>,
    b: Seq<char>,
    c: Seq<char>,
    v1: BindSpec,
    v2: BindSpec,
    v3: BindSpec,
    v4: BindSpec,
    v5: BindSpec,
) -> Seq<(ClauseSpec, Option<LogicalOperator>)> {
    seq![
        (
            ClauseSpec::Condition(
                CondSpec {
                    column: a,
                    operator: ComparisonOperator::Equal,
                    value: Some(v1),
                    values: None,
                },
            ),
            Some(LogicalOperator::And),
        ),
        (
            ClauseSpec::Condition(
                CondSpec {
                    column: b,
                    operator: ComparisonOperator::In,
                    value: None,
                    values: Some(seq![v2, v3]),
                },
            ),
            Some(LogicalOperator::And),
        ),
        (
            ClauseSpec::Condition(
                CondSpec {
                    column: c,
                    operator: ComparisonOperator::Between,
                    value: None,
                    values: Some(seq![v4, v5]),
                },
            ),
            None,
        ),
    ]
}

/// Pagination floor: a page number of zero selects exactly the same
/// window as page one, for every builder state and page size.
pub proof fn lemma_paginate_page_floor(q: QuerySpec, page_size: u32)
    ensures
        (QuerySpec {
            limit: Some(page_size),
            offset: Some((crate::repository::spec_page_base(0) * page_size) as u32),
            ..q
        }) == (QuerySpec {
            limit: Some(page_size),
            offset: Some((crate::repository::spec_page_base(1) * page_size) as u32),
            ..q
        }),
{
}

/// Grouping: a nested group always renders parenthesized, with its
/// inner clauses joined by their own connectives — never flattened into
/// the surrounding precedence.
pub proof fn lemma_group_parenthesized(g: GroupSpec, db: DbType, start: nat)
    ensures
        clause_sql(ClauseSpec::Group(g), db, start) == "("@ + entries_sql(g.clauses, db, start)
            + ")"@,
        clause_params(ClauseSpec::Group(g)) == entries_params(g.clauses),
{
}

} // verus!
