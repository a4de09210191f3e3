//! Rendering of the where-clause tree into SQL text and an ordered
//! parameter list.
//!
//! Placeholder allocation is monotonic and dialect-specific, and the SQL
//! text and the parameter list are produced in one pass, so the binding
//! order can never diverge from the text.  `IN`/`NOT IN` render one
//! placeholder per element, parenthesized; `BETWEEN` renders exactly two
//! placeholders joined by `AND`; `IS [NOT] NULL` renders no placeholder.

use vstd::prelude::*;
use crate::dialect::DbType;
use crate::query_models::{
    ClauseSpec, CondSpec, ComparisonOperator, GroupSpec, LogicalOperator, WhereClause,
    WhereCondition, clause_view, entries_view, lemma_entries_view,
};
use crate::strutil::push_str;
use crate::values::{BindSpec, BindValue, bind_views, lemma_bind_views_push};

verus! {

/// The connective joining two adjacent clauses: the one attached to the
/// earlier clause, or `AND` when none was set.
pub open spec fn spec_connective(op: Option<LogicalOperator>) -> Seq<char> {
    match op {
        Some(o) => o.spec_sql(),
        None => "AND"@,
    }
}

/// The parameters a single condition contributes, in binding order.
pub open spec fn cond_params(c: CondSpec) -> Seq<BindSpec> {
    match c.operator {
        ComparisonOperator::IsNull => Seq::empty(),
        ComparisonOperator::IsNotNull => Seq::empty(),
        ComparisonOperator::In => match c.values {
            Some(vs) => vs,
            None => Seq::empty(),
        },
        ComparisonOperator::NotIn => match c.values {
            Some(vs) => vs,
            None => Seq::empty(),
        },
        ComparisonOperator::Between => match c.values {
            Some(vs) => if vs.len() == 2 {
                vs
            } else {
                Seq::empty()
            },
            None => Seq::empty(),
        },
        _ => match c.value {
            Some(v) => seq![v],
            None => Seq::empty(),
        },
    }
}

/// A comma-separated list of `n` placeholders, the first at 1-based
/// position `start`.
pub open spec fn spec_ph_list(db: DbType, start: nat, n: nat) -> Seq<char>
    decreases n,
{
    if n == 0 {
        Seq::empty()
    } else if n == 1 {
        db.spec_placeholder(start)
    } else {
        spec_ph_list(db, start, (n - 1) as nat) + ", "@ + db.spec_placeholder((start + n - 1) as nat)
    }
}

/// The SQL text of one condition, its first placeholder at 1-based
/// position `start`.
pub open spec fn cond_sql(c: CondSpec, db: DbType, start: nat) -> Seq<char> {
    c.column + " "@ + c.operator.spec_sql() + match c.operator {
        ComparisonOperator::IsNull => Seq::<char>::empty(),
        ComparisonOperator::IsNotNull => Seq::<char>::empty(),
        ComparisonOperator::In => match c.values {
            Some(vs) => " ("@ + spec_ph_list(db, start, vs.len()) + ")"@,
            None => Seq::empty(),
        },
        ComparisonOperator::NotIn => match c.values {
            Some(vs) => " ("@ + spec_ph_list(db, start, vs.len()) + ")"@,
            None => Seq::empty(),
        },
        ComparisonOperator::Between => match c.values {
            Some(vs) => if vs.len() == 2 {
                " "@ + db.spec_placeholder(start) + " AND "@ + db.spec_placeholder(start + 1)
            } else {
                Seq::empty()
            },
            None => Seq::empty(),
        },
        _ => match c.value {
            Some(_) => " "@ + db.spec_placeholder(start),
            None => Seq::empty(),
        },
    }
}

/// The parameters of one where-tree node, in binding order.
pub open spec fn clause_params(c: ClauseSpec) -> Seq<BindSpec>
    decreases c,
{
    match c {
        ClauseSpec::Condition(cond) => cond_params(cond),
        ClauseSpec::Group(g) => entries_params(g.clauses),
    }
}

/// The parameters of a clause list, in binding order.
pub open spec fn entries_params(cs: Seq<(ClauseSpec, Option<LogicalOperator>)>) -> Seq<BindSpec>
    decreases cs,
{
    if cs.len() == 0 {
        Seq::empty()
    } else {
        clause_params(cs[0].0) + entries_params(cs.drop_first())
    }
}

/// The SQL text of one where-tree node; a group renders parenthesized.
pub open spec fn clause_sql(c: ClauseSpec, db: DbType, start: nat) -> Seq<char>
    decreases c,
{
    match c {
        ClauseSpec::Condition(cond) => cond_sql(cond, db, start),
        ClauseSpec::Group(g) => "("@ + entries_sql(g.clauses, db, start) + ")"@,
    }
}

/// The SQL text of a clause list: the clauses in order, adjacent ones
/// joined by the connective attached to the earlier clause (`AND` when
/// none was set), placeholders numbered left to right from `start`.
pub open spec fn entries_sql(
    cs: Seq<(ClauseSpec, Option<LogicalOperator>)>,
    db: DbType,
    start: nat,
) -> Seq<char>
    decreases cs,
{
    if cs.len() == 0 {
        Seq::empty()
    } else if cs.len() == 1 {
        clause_sql(cs[0].0, db, start)
    } else {
        clause_sql(cs[0].0, db, start) + " "@ + spec_connective(cs[0].1) + " "@ + entries_sql(
            cs.drop_first(),
            db,
            start + clause_params(cs[0].0).len(),
        )
    }
}

/// The number of nodes of one where-tree node, counting nested groups.
pub open spec fn clause_size(c: WhereClause) -> nat
    decreases c, 0int,
{
    match c {
        WhereClause::Condition(_) => 1,
        WhereClause::Group(g) => 1 + entries_size(g.clauses@, 0),
    }
}

/// The number of nodes of a clause list from index `i` on, each entry
/// counting one more than its own nodes.
pub open spec fn entries_size(cs: Seq<(WhereClause, Option<LogicalOperator>)>, i: int) -> nat
    decreases cs, cs.len() - i,
{
    if i < 0 || i >= cs.len() {
        0
    } else {
        1 + clause_size(cs[i].0) + entries_size(cs, i + 1)
    }
}

/// Renders one condition: appends its SQL text to `sql` and its
/// parameters to `params`.
pub fn render_condition(cond: &WhereCondition, db: DbType, sql: &mut String, params: &mut Vec<BindValue>)
    requires
        old(params)@.len() + cond_params(cond@).len() <= usize::MAX,
    ensures
        final(sql)@ == old(sql)@ + cond_sql(cond@, db, old(params)@.len() + 1),
        bind_views(final(params)@) == bind_views(old(params)@) + cond_params(cond@),
{
    let ghost start: nat = old(params)@.len() + 1;
    push_str(sql, cond.column.as_str());
    push_str(sql, " ");
    push_str(sql, cond.operator.to_sql());
    match cond.operator {
        ComparisonOperator::IsNull => {},
        ComparisonOperator::IsNotNull => {},
        ComparisonOperator::In | ComparisonOperator::NotIn => {
            match &cond.values {
                Some(vs) => {
                    push_str(sql, " (");
                    render_placeholder_list(vs, db, sql, params);
                    push_str(sql, ")");
                },
                None => {},
            }
        },
        ComparisonOperator::Between => {
            match &cond.values {
                Some(vs) => {
                    if vs.len() == 2 {
                        push_str(sql, " ");
                        let ph = db.placeholder(params.len() + 1);
                        push_str(sql, ph.as_str());
                        params.push(vs[0].clone());
                        push_str(sql, " AND ");
                        let ph2 = db.placeholder(params.len() + 1);
                        push_str(sql, ph2.as_str());
                        params.push(vs[1].clone());
                        assert(bind_views(params@) =~= bind_views(old(params)@) + cond_params(
                            cond@,
                        ));
                    }
                },
                None => {},
            }
        },
        _ => {
            match &cond.value {
                Some(v) => {
                    push_str(sql, " ");
                    let ph = db.placeholder(params.len() + 1);
                    push_str(sql, ph.as_str());
                    params.push(v.clone());
                    assert(bind_views(params@) =~= bind_views(old(params)@) + cond_params(cond@));
                },
                None => {},
            }
        },
    }
    assert(bind_views(params@) =~= bind_views(old(params)@) + cond_params(cond@));
    assert(sql@ =~= old(sql)@ + cond_sql(cond@, db, start));
}

/// Renders a parenthesized placeholder list's interior: one placeholder
/// per element of `vs`, comma-separated, pushing each value onto
/// `params`.
fn render_placeholder_list(vs: &Vec<BindValue>, db: DbType, sql: &mut String, params: &mut Vec<BindValue>)
    requires
        old(params)@.len() + vs@.len() <= usize::MAX,
    ensures
        final(sql)@ == old(sql)@ + spec_ph_list(db, old(params)@.len() + 1, vs@.len()),
        bind_views(final(params)@) == bind_views(old(params)@) + bind_views(vs@),
{
    let ghost start: nat = old(params)@.len() + 1;
    let ghost pre_sql = sql@;
    let n = vs.len();
    let mut j: usize = 0;
    proof {
        assert(sql@ =~= pre_sql + spec_ph_list(db, start, 0));
        assert(bind_views(params@) =~= bind_views(old(params)@) + bind_views(vs@.take(0)));
    }
    while j < n
        invariant
            n == vs@.len(),
            j <= n,
            start == old(params)@.len() + 1,
            old(params)@.len() + n <= usize::MAX,
            params@.len() == old(params)@.len() + j,
            sql@ == pre_sql + spec_ph_list(db, start, j as nat),
            bind_views(params@) == bind_views(old(params)@) + bind_views(vs@.take(j as int)),
        decreases n - j,
    {
        let ghost sql_before = sql@;
        let ghost params_before = params@;
        if j > 0 {
            push_str(sql, ", ");
        }
        let ph = db.placeholder(params.len() + 1);
        push_str(sql, ph.as_str());
        params.push(vs[j].clone());
        proof {
            assert(params@ == params_before.push(params@.last()));
            assert(params@.last()@ == vs@[j as int]@);
            lemma_bind_views_push(params_before, params@.last());
            assert(vs@.take(j as int + 1) =~= vs@.take(j as int).push(vs@[j as int]));
            lemma_bind_views_push(vs@.take(j as int), vs@[j as int]);
            assert(bind_views(params@) =~= bind_views(old(params)@) + bind_views(
                vs@.take(j as int + 1),
            ));
            if j == 0 {
                assert(sql@ =~= pre_sql + spec_ph_list(db, start, 1));
            } else {
                assert((old(params)@.len() + j + 1) as nat == start + ((j + 1) as nat) - 1);
                assert(sql@ =~= pre_sql + (spec_ph_list(db, start, j as nat) + ", "@
                    + db.spec_placeholder((start + (j + 1) as nat - 1) as nat)));
                assert(sql@ =~= pre_sql + spec_ph_list(db, start, (j + 1) as nat));
            }
        }
        j = j + 1;
    }
    proof {
        assert(vs@.take(n as int) =~= vs@);
        assert(bind_views(final(params)@) =~= bind_views(old(params)@) + bind_views(vs@));
    }
}

/// Renders one where-tree node.
pub fn render_clause(c: &WhereClause, db: DbType, sql: &mut String, params: &mut Vec<BindValue>)
    requires
        old(params)@.len() + clause_params(c@).len() <= usize::MAX,
    ensures
        final(sql)@ == old(sql)@ + clause_sql(c@, db, old(params)@.len() + 1),
        bind_views(final(params)@) == bind_views(old(params)@) + clause_params(c@),
    decreases clause_size(*c),
{
    match c {
        WhereClause::Condition(cond) => {
            render_condition(cond, db, sql, params);
        },
        WhereClause::Group(g) => {
            proof {
                lemma_entries_view(g.clauses@);
                assert(entries_view(g.clauses@).subrange(0, g.clauses@.len() as int)
                    =~= entries_view(g.clauses@));
                assert(clause_params(c@) == entries_params(entries_view(g.clauses@)));
            }
            push_str(sql, "(");
            render_entries(&g.clauses, 0, db, sql, params);
            push_str(sql, ")");
            proof {
                assert(sql@ =~= old(sql)@ + clause_sql(c@, db, old(params)@.len() + 1));
            }
        },
    }
}

/// Renders the entries of a clause list from index `i` on, joining
/// adjacent clauses with the connective attached to the earlier one.
#[verifier::rlimit(60)]
pub fn render_entries(
    cs: &Vec<(WhereClause, Option<LogicalOperator>)>,
    i: usize,
    db: DbType,
    sql: &mut String,
    params: &mut Vec<BindValue>,
)
    requires
        i <= cs@.len(),
        old(params)@.len() + entries_params(entries_view(cs@).subrange(i as int, cs@.len() as int)).len()
            <= usize::MAX,
    ensures
        final(sql)@ == old(sql)@ + entries_sql(
            entries_view(cs@).subrange(i as int, cs@.len() as int),
            db,
            old(params)@.len() + 1,
        ),
        bind_views(final(params)@) == bind_views(old(params)@) + entries_params(
            entries_view(cs@).subrange(i as int, cs@.len() as int),
        ),
    decreases entries_size(cs@, i as int),
{
    proof {
        lemma_entries_view(cs@);
    }
    let ghost tail = entries_view(cs@).subrange(i as int, cs@.len() as int);
    if i >= cs.len() {
        proof {
            assert(tail =~= Seq::<(ClauseSpec, Option<LogicalOperator>)>::empty());
            assert(bind_views(params@) =~= bind_views(old(params)@) + entries_params(tail));
            assert(sql@ =~= old(sql)@ + entries_sql(tail, db, old(params)@.len() + 1));
        }
    } else {
        proof {
            assert(tail[0] == (clause_view(cs@[i as int].0), cs@[i as int].1));
            assert(tail.drop_first() =~= entries_view(cs@).subrange(i as int + 1, cs@.len() as int));
            assert(entries_params(tail) == clause_params(tail[0].0) + entries_params(
                tail.drop_first(),
            ));
        }
        render_clause(&cs[i].0, db, sql, params);
        if i + 1 < cs.len() {
            push_str(sql, " ");
            match &cs[i].1 {
                Some(op) => push_str(sql, op.to_sql()),
                None => push_str(sql, "AND"),
            }
            push_str(sql, " ");
            proof {
                assert(bind_views(params@).len() == params@.len());
                assert(params@.len() == old(params)@.len() + clause_params(tail[0].0).len());
                assert(entries_params(tail).len() == clause_params(tail[0].0).len()
                    + entries_params(tail.drop_first()).len());
            }
            render_entries(cs, i + 1, db, sql, params);
            proof {
                assert(bind_views(params@) =~= bind_views(old(params)@) + entries_params(tail));
                assert(sql@ =~= old(sql)@ + entries_sql(tail, db, old(params)@.len() + 1));
            }
        } else {
            proof {
                assert(tail.len() == 1);
                assert(bind_views(params@) =~= bind_views(old(params)@) + entries_params(tail));
                assert(sql@ =~= old(sql)@ + entries_sql(tail, db, old(params)@.len() + 1));
            }
        }
    }
}

/// Renders a whole where-clause list, placeholders numbered from the
/// current parameter count.
pub fn render_where(
    cs: &Vec<(WhereClause, Option<LogicalOperator>)>,
    db: DbType,
    sql: &mut String,
    params: &mut Vec<BindValue>,
)
    requires
        old(params)@.len() + entries_params(entries_view(cs@)).len() <= usize::MAX,
    ensures
        final(sql)@ == old(sql)@ + entries_sql(entries_view(cs@), db, old(params)@.len() + 1),
        bind_views(final(params)@) == bind_views(old(params)@) + entries_params(entries_view(cs@)),
{
    proof {
        lemma_entries_view(cs@);
        assert(entries_view(cs@).subrange(0, cs@.len() as int) =~= entries_view(cs@));
    }
    render_entries(cs, 0, db, sql, params);
}

} // verus!
