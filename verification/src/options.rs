//! A lighter, options-based query builder: a flat filter list, sort
//! terms, pagination and relation names, rendered as a positional
//! (`$1, $2, ...`) SELECT statement.
//!
//! Filters are joined by `AND`; `IS [NOT] NULL` filters bind no
//! parameter, every other filter binds exactly one (an absent value
//! binds NULL).

use vstd::prelude::*;
use crate::strutil::{push_str, push_u64, spec_digits};
use crate::values::{BindSpec, BindValue, bind_views, lemma_bind_views_push};

verus! {

/// The comparison of one filter.
#[derive(Clone, Copy, Debug, PartialEq, Eq, Structural)]
pub enum FilterOperator {
    Eq,
    Ne,
    Gt,
    Lt,
    Ge,
    Le,
    Like,
    ILike,
    In,
    NotIn,
    IsNull,
    IsNotNull,
}

impl FilterOperator {
    /// Whether this operator binds one parameter.
    pub open spec fn binds_param(&self) -> bool {
        !(self is IsNull || self is IsNotNull)
    }

    /// The SQL spelling between the field and the placeholder.
    pub open spec fn spec_infix(&self) -> Seq<char> {
        match self {
            FilterOperator::Eq => " = "@,
            FilterOperator::Ne => " != "@,
            FilterOperator::Gt => " > "@,
            FilterOperator::Lt => " < "@,
            FilterOperator::Ge => " >= "@,
            FilterOperator::Le => " <= "@,
            FilterOperator::Like => " LIKE "@,
            FilterOperator::ILike => " ILIKE "@,
            FilterOperator::In => " IN ("@,
            FilterOperator::NotIn => " NOT IN ("@,
            FilterOperator::IsNull => " IS NULL"@,
            FilterOperator::IsNotNull => " IS NOT NULL"@,
        }
    }
}

impl FilterOperator {
    /// The SQL spelling between the field and the placeholder.
    pub fn infix(&self) -> (r: &'static str)
        ensures
            r@ == self.spec_infix(),
    {
        match self {
            FilterOperator::Eq => " = ",
            FilterOperator::Ne => " != ",
            FilterOperator::Gt => " > ",
            FilterOperator::Lt => " < ",
            FilterOperator::Ge => " >= ",
            FilterOperator::Le => " <= ",
            FilterOperator::Like => " LIKE ",
            FilterOperator::ILike => " ILIKE ",
            FilterOperator::In => " IN (",
            FilterOperator::NotIn => " NOT IN (",
            FilterOperator::IsNull => " IS NULL",
            FilterOperator::IsNotNull => " IS NOT NULL",
        }
    }

    /// Whether this operator binds one parameter.
    pub fn has_param(&self) -> (r: bool)
        ensures
            r == self.binds_param(),
    {
        match self {
            FilterOperator::IsNull => false,
            FilterOperator::IsNotNull => false,
            _ => true,
        }
    }

    /// Whether this operator closes a parenthesis after its placeholder.
    pub fn closes_paren(&self) -> (r: bool)
        ensures
            r == (self is In || self is NotIn),
    {
        match self {
            FilterOperator::In => true,
            FilterOperator::NotIn => true,
            _ => false,
        }
    }
}

/// One filter: a field, a comparison, and an optional value.
#[derive(Debug)]
pub struct Filter {
    pub field: String,
    pub operator: FilterOperator,
    pub value: Option<BindValue>,
}

/// The mathematical shadow of a [`Filter`].
#[verifier::ext_equal]
pub struct FilterSpec {
    pub field: Seq<char>,
    pub operator: FilterOperator,
    pub value: Option<BindSpec>,
}

impl View for Filter {
    type V = FilterSpec;

    open spec fn view(&self) -> FilterSpec {
        FilterSpec {
            field: self.field@,
            operator: self.operator,
            value: match self.value {
                Some(v) => Some(v@),
                None => None,
            },
        }
    }
}

/// The options of a query: filters, sort terms, pagination and
/// relation names.
#[derive(Debug)]
pub struct QueryOptions {
    pub filters: Vec<Filter>,
    pub sort: Vec<(String, bool)>,
    pub limit: Option<i64>,
    pub offset: Option<i64>,
    pub relations: Vec<String>,
}

/// The mathematical shadow of [`QueryOptions`].
#[verifier::ext_equal]
pub struct OptionsSpec {
    pub filters: Seq<FilterSpec>,
    pub sort: Seq<(Seq<char>, bool)>,
    pub limit: Option<i64>,
    pub offset: Option<i64>,
    pub relations: Seq<Seq<char>>,
}

impl OptionsSpec {
    /// Options with nothing set.
    pub open spec fn empty() -> OptionsSpec {
        OptionsSpec {
            filters: Seq::empty(),
            sort: Seq::empty(),
            limit: None,
            offset: None,
            relations: Seq::empty(),
        }
    }
}

impl View for QueryOptions {
    type V = OptionsSpec;

    open spec fn view(&self) -> OptionsSpec {
        OptionsSpec {
            filters: self.filters@.map_values(|f: Filter| f@),
            sort: self.sort@.map_values(|p: (String, bool)| (p.0@, p.1)),
            limit: self.limit,
            offset: self.offset,
            relations: self.relations@.map_values(|s: String| s@),
        }
    }
}

impl Default for QueryOptions {
    /// Options with nothing set.
    fn default() -> (r: Self)
        ensures
            r@ == OptionsSpec::empty(),
    {
        let r = QueryOptions {
            filters: Vec::new(),
            sort: Vec::new(),
            limit: None,
            offset: None,
            relations: Vec::new(),
        };
        proof {
            assert(r@ =~= OptionsSpec::empty());
        }
        r
    }
}

/// The bound value of one filter: its value, or NULL when absent.
pub open spec fn spec_filter_value(f: FilterSpec) -> BindSpec {
    match f.value {
        Some(v) => v,
        None => BindSpec::Null,
    }
}

/// The parameters a filter list binds, in order.
pub open spec fn spec_filters_params(fs: Seq<FilterSpec>) -> Seq<BindSpec>
    decreases fs,
{
    if fs.len() == 0 {
        Seq::empty()
    } else if fs.last().operator.binds_param() {
        spec_filters_params(fs.drop_last()).push(spec_filter_value(fs.last()))
    } else {
        spec_filters_params(fs.drop_last())
    }
}

/// The SQL text of one filter, its placeholder (if any) at 1-based
/// position `idx`.
pub open spec fn spec_filter_sql(f: FilterSpec, idx: nat) -> Seq<char> {
    if f.operator.binds_param() {
        f.field + f.operator.spec_infix() + "$"@ + spec_digits(idx) + (if f.operator is In
            || f.operator is NotIn {
            ")"@
        } else {
            Seq::empty()
        })
    } else {
        f.field + f.operator.spec_infix()
    }
}

/// The filter list joined by ` AND `, placeholders numbered left to
/// right from one.
pub open spec fn spec_filters_sql(fs: Seq<FilterSpec>) -> Seq<char>
    decreases fs,
{
    if fs.len() == 0 {
        Seq::empty()
    } else if fs.len() == 1 {
        spec_filter_sql(fs[0], 1)
    } else {
        spec_filters_sql(fs.drop_last()) + " AND "@ + spec_filter_sql(
            fs.last(),
            spec_filters_params(fs.drop_last()).len() + 1,
        )
    }
}

/// The sort terms rendered `field ASC`/`field DESC`, comma-separated.
pub open spec fn spec_sort_sql(ss: Seq<(Seq<char>, bool)>) -> Seq<char>
    decreases ss,
{
    if ss.len() == 0 {
        Seq::empty()
    } else if ss.len() == 1 {
        ss[0].0 + (if ss[0].1 {
            " ASC"@
        } else {
            " DESC"@
        })
    } else {
        spec_sort_sql(ss.drop_last()) + ", "@ + ss.last().0 + (if ss.last().1 {
            " ASC"@
        } else {
            " DESC"@
        })
    }
}

/// The decimal rendering of a signed value.
pub open spec fn spec_digits_signed(n: int) -> Seq<char> {
    if n < 0 {
        "-"@ + spec_digits((0 - n) as nat)
    } else {
        spec_digits(n as nat)
    }
}

/// Appends the decimal rendering of a signed value.
pub fn push_i64(out: &mut String, n: i64)
    ensures
        final(out)@ == old(out)@ + spec_digits_signed(n as int),
{
    if n >= 0 {
        push_u64(out, n as u64);
    } else {
        push_str(out, "-");
        let magnitude: u64 = if n == i64::MIN {
            9223372036854775808u64
        } else {
            (-n) as u64
        };
        push_u64(out, magnitude);
        proof {
            assert(out@ =~= old(out)@ + spec_digits_signed(n as int));
        }
    }
}

/// The full options-based SELECT statement.
pub open spec fn spec_options_sql(table: Seq<char>, o: OptionsSpec) -> Seq<char> {
    "SELECT * FROM "@ + table + (if o.filters.len() > 0 {
        " WHERE "@ + spec_filters_sql(o.filters)
    } else {
        Seq::empty()
    }) + (if o.sort.len() > 0 {
        " ORDER BY "@ + spec_sort_sql(o.sort)
    } else {
        Seq::empty()
    }) + (match o.limit {
        Some(l) => " LIMIT "@ + spec_digits_signed(l as int),
        None => Seq::empty(),
    }) + (match o.offset {
        Some(ofs) => " OFFSET "@ + spec_digits_signed(ofs as int),
        None => Seq::empty(),
    })
}

/// A builder of [`QueryOptions`] for one table.
#[derive(Debug)]
pub struct QueryBuilder {
    pub options: QueryOptions,
    pub table_name: String,
}

impl QueryBuilder {
    /// A builder with no options set.
    pub fn new(table_name: String) -> (r: Self)
        ensures
            r.table_name@ == table_name@,
            r.options@ == OptionsSpec::empty(),
    {
        QueryBuilder { options: QueryOptions::default(), table_name }
    }

    /// A builder over pre-assembled options.
    pub fn new_with_option(table_name: String, option: QueryOptions) -> (r: Self)
        ensures
            r.table_name@ == table_name@,
            r.options@ == option@,
    {
        QueryBuilder { options: option, table_name }
    }

    /// Appends one filter.
    pub fn filter(self, field: &str, operator: FilterOperator, value: Option<BindValue>) -> (r:
        Self)
        ensures
            r.table_name@ == self.table_name@,
            r.options@ == (OptionsSpec {
                filters: self.options@.filters.push(
                    FilterSpec {
                        field: field@,
                        operator,
                        value: match value {
                            Some(v) => Some(v@),
                            None => None,
                        },
                    },
                ),
                ..self.options@
            }),
    {
        let ghost pre = self.options@;
        let mut b = self;
        b.options.filters.push(Filter { field: field.to_owned(), operator, value });
        proof {
            assert(b.options@.filters =~= pre.filters.push(b.options.filters@.last()@));
            assert(b.options@ =~= (OptionsSpec {
                filters: pre.filters.push(b.options.filters@.last()@),
                ..pre
            }));
        }
        b
    }

    /// Appends one sort term: ascending when `ascending` is true.
    pub fn sort(self, field: &str, ascending: bool) -> (r: Self)
        ensures
            r.table_name@ == self.table_name@,
            r.options@ == (OptionsSpec {
                sort: self.options@.sort.push((field@, ascending)),
                ..self.options@
            }),
    {
        let ghost pre = self.options@;
        let mut b = self;
        b.options.sort.push((field.to_owned(), ascending));
        proof {
            assert(b.options@.sort =~= pre.sort.push((field@, ascending)));
            assert(b.options@ =~= (OptionsSpec { sort: pre.sort.push((field@, ascending)), ..pre }));
        }
        b
    }

    /// Caps the number of returned rows.
    pub fn limit(self, limit: i64) -> (r: Self)
        ensures
            r.table_name@ == self.table_name@,
            r.options@ == (OptionsSpec { limit: Some(limit), ..self.options@ }),
    {
        let mut b = self;
        b.options.limit = Some(limit);
        proof {
            assert(b.options@ =~= (OptionsSpec { limit: Some(limit), ..self.options@ }));
        }
        b
    }

    /// Skips the first `offset` rows.
    pub fn offset(self, offset: i64) -> (r: Self)
        ensures
            r.table_name@ == self.table_name@,
            r.options@ == (OptionsSpec { offset: Some(offset), ..self.options@ }),
    {
        let mut b = self;
        b.options.offset = Some(offset);
        proof {
            assert(b.options@ =~= (OptionsSpec { offset: Some(offset), ..self.options@ }));
        }
        b
    }

    /// Records a relation name to load alongside the rows.
    pub fn with_relation(self, relation: &str) -> (r: Self)
        ensures
            r.table_name@ == self.table_name@,
            r.options@ == (OptionsSpec {
                relations: self.options@.relations.push(relation@),
                ..self.options@
            }),
    {
        let ghost pre = self.options@;
        let mut b = self;
        b.options.relations.push(relation.to_owned());
        proof {
            assert(b.options@.relations =~= pre.relations.push(relation@));
            assert(b.options@ =~= (OptionsSpec {
                relations: pre.relations.push(relation@),
                ..pre
            }));
        }
        b
    }

    /// Hands the assembled options back.
    pub fn build(self) -> (r: QueryOptions)
        ensures
            r@ == self.options@,
    {
        self.options
    }

    /// Renders the options as one positional-placeholder SELECT
    /// statement with its ordered parameter list.
    #[verifier::rlimit(100)]
    pub fn build_query(&self) -> (r: (String, Vec<BindValue>))
        ensures
            r.0@ == spec_options_sql(self.table_name@, self.options@),
            bind_views(r.1@) == spec_filters_params(self.options@.filters),
    {
        let ghost fs = self.options@.filters;
        let mut sql = String::new();
        let mut params: Vec<BindValue> = Vec::new();
        push_str(&mut sql, "SELECT * FROM ");
        push_str(&mut sql, self.table_name.as_str());
        if self.options.filters.len() > 0 {
            push_str(&mut sql, " WHERE ");
            let ghost pre = sql@;
            let n = self.options.filters.len();
            let mut k: usize = 0;
            proof {
                assert(fs.take(0) =~= Seq::<FilterSpec>::empty());
                assert(sql@ =~= pre + spec_filters_sql(fs.take(0)));
                assert(bind_views(params@) =~= spec_filters_params(fs.take(0)));
            }
            while k < n
                invariant
                    n == self.options.filters@.len(),
                    fs == self.options@.filters,
                    k <= n,
                    params@.len() <= k,
                    sql@ == pre + spec_filters_sql(fs.take(k as int)),
                    bind_views(params@) == spec_filters_params(fs.take(k as int)),
                decreases n - k,
            {
                if k > 0 {
                    push_str(&mut sql, " AND ");
                }
                let f = &self.options.filters[k];
                push_str(&mut sql, f.field.as_str());
                push_str(&mut sql, f.operator.infix());
                proof {
                    assert(fs[k as int] == self.options.filters@[k as int]@);
                    assert(fs.take(k as int + 1).drop_last() =~= fs.take(k as int));
                    assert(fs.take(k as int + 1).last() == fs[k as int]);
                }
                if f.operator.has_param() {
                    push_str(&mut sql, "$");
                    push_u64(&mut sql, (params.len() + 1) as u64);
                    let bound = match &f.value {
                        Some(v) => v.clone(),
                        None => BindValue::Null,
                    };
                    let ghost params_before = params@;
                    params.push(bound);
                    if f.operator.closes_paren() {
                        push_str(&mut sql, ")");
                    }
                    proof {
                        lemma_bind_views_push(params_before, params@.last());
                        assert(params@.last()@ == spec_filter_value(fs[k as int]));
                        assert(bind_views(params@) =~= spec_filters_params(
                            fs.take(k as int + 1),
                        ));
                        assert(sql@ =~= pre + spec_filters_sql(fs.take(k as int + 1)));
                    }
                } else {
                    proof {
                        assert(sql@ =~= pre + spec_filters_sql(fs.take(k as int + 1)));
                        assert(bind_views(params@) =~= spec_filters_params(fs.take(k as int + 1)));
                    }
                }
                k = k + 1;
            }
            proof {
                assert(fs.take(n as int) =~= fs);
            }
        } else {
            proof {
                assert(bind_views(params@) =~= spec_filters_params(fs));
            }
        }
        if self.options.sort.len() > 0 {
            push_str(&mut sql, " ORDER BY ");
            let ghost ss = self.options@.sort;
            let ghost pre_sort = sql@;
            let n = self.options.sort.len();
            let mut k: usize = 0;
            proof {
                assert(ss.take(0) =~= Seq::<(Seq<char>, bool)>::empty());
                assert(sql@ =~= pre_sort + spec_sort_sql(ss.take(0)));
            }
            while k < n
                invariant
                    n == self.options.sort@.len(),
                    ss == self.options@.sort,
                    k <= n,
                    sql@ == pre_sort + spec_sort_sql(ss.take(k as int)),
                decreases n - k,
            {
                if k > 0 {
                    push_str(&mut sql, ", ");
                }
                push_str(&mut sql, self.options.sort[k].0.as_str());
                if self.options.sort[k].1 {
                    push_str(&mut sql, " ASC");
                } else {
                    push_str(&mut sql, " DESC");
                }
                proof {
                    assert(ss[k as int] == (self.options.sort@[k as int].0@, self.options.sort@[
                        k as int
                    ].1));
                    assert(ss.take(k as int + 1).drop_last() =~= ss.take(k as int));
                    assert(ss.take(k as int + 1).last() == ss[k as int]);
                    assert(sql@ =~= pre_sort + spec_sort_sql(ss.take(k as int + 1)));
                }
                k = k + 1;
            }
            proof {
                assert(ss.take(n as int) =~= ss);
            }
        }
        match self.options.limit {
            Some(l) => {
                push_str(&mut sql, " LIMIT ");
                push_i64(&mut sql, l);
            },
            None => {},
        }
        match self.options.offset {
            Some(o) => {
                push_str(&mut sql, " OFFSET ");
                push_i64(&mut sql, o);
            },
            None => {},
        }
        proof {
            assert(sql@ =~= spec_options_sql(self.table_name@, self.options@));
        }
        (sql, params)
    }
}

} // verus!
