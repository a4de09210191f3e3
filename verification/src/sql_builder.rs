//! A plain SQL accumulator for an entity type: raw text, appended
//! piecewise, with monotonic dialect-specific placeholder allocation.
//!
//! The executor around the library prepares the accumulated text and
//! binds one parameter per allocated placeholder, in order.

use vstd::prelude::*;
use core::marker::PhantomData;
use crate::dialect::DbType;
use crate::entry::Entry;
use crate::strutil::{push_str, str_to_chars};

verus! {

/// A raw SQL accumulator for the entity type `T`.
#[derive(Debug)]
pub struct QueryBuilder<T: Entry> {
    pub db_type: DbType,
    pub sql: String,
    pub param_count: usize,
    pub _phantom: PhantomData<T>,
}

/// What appending a fragment yields: a separating space is inserted
/// when the accumulated text is non-empty and does not already end in
/// one.
pub open spec fn spec_appended(cur: Seq<char>, part: Seq<char>) -> Seq<char> {
    if cur.len() > 0 && cur.last() != ' ' {
        cur + " "@ + part
    } else {
        cur + part
    }
}

impl<T: Entry> QueryBuilder<T> {
    /// An empty accumulator for the given dialect.
    pub fn new(db_type: DbType) -> (r: Self)
        ensures
            r.db_type == db_type,
            r.sql@ == Seq::<char>::empty(),
            r.param_count == 0,
    {
        QueryBuilder { db_type, sql: String::new(), param_count: 0, _phantom: PhantomData }
    }

    /// Replaces the accumulated text wholesale.
    pub fn set_sql(self, sql: &str) -> (r: Self)
        ensures
            r.db_type == self.db_type,
            r.sql@ == sql@,
            r.param_count == self.param_count,
    {
        let mut b = self;
        b.sql = sql.to_owned();
        b
    }

    /// Appends a fragment, inserting a separating space when the
    /// accumulated text is non-empty and does not already end in one.
    pub fn append(self, sql: &str) -> (r: Self)
        ensures
            r.db_type == self.db_type,
            r.param_count == self.param_count,
            r.sql@ == spec_appended(self.sql@, sql@),
    {
        let mut b = self;
        let chars = str_to_chars(b.sql.as_str());
        if chars.len() > 0 && chars[chars.len() - 1] != ' ' {
            push_str(&mut b.sql, " ");
        }
        push_str(&mut b.sql, sql);
        proof {
            assert(b.sql@ =~= spec_appended(self.sql@, sql@));
        }
        b
    }

    /// Allocates the next placeholder and returns its dialect-specific
    /// text.
    pub fn placeholder(&mut self) -> (r: String)
        requires
            old(self).param_count < usize::MAX,
        ensures
            final(self).db_type == old(self).db_type,
            final(self).sql == old(self).sql,
            final(self).param_count == old(self).param_count + 1,
            r@ == old(self).db_type.spec_placeholder((old(self).param_count + 1) as nat),
    {
        self.param_count = self.param_count + 1;
        self.db_type.placeholder(self.param_count)
    }

    /// The accumulated SQL text.
    pub fn get_sql(&self) -> (r: &str)
        ensures
            r@ == self.sql@,
    {
        self.sql.as_str()
    }

    /// How many placeholders were allocated.
    pub fn param_count(&self) -> (r: usize)
        ensures
            r == self.param_count,
    {
        self.param_count
    }
}

} // verus!
