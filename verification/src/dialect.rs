//! The target database dialects and their placeholder syntax.

use vstd::prelude::*;
use crate::strutil::{push_char, push_u64, spec_digits};

verus! {

/// A target database engine, owning the placeholder-generation rule.
#[derive(Clone, Copy, Debug, PartialEq, Eq, Structural)]
pub enum DbType {
    Postgres,
    MySQL,
    SQLite,
}

impl DbType {
    /// The placeholder this dialect emits for the parameter at 1-based
    /// position `index`: `$index` for Postgres, `?` otherwise.
    pub open spec fn spec_placeholder(&self, index: nat) -> Seq<char> {
        match self {
            DbType::Postgres => seq!['$'] + spec_digits(index),
            DbType::MySQL => "?"@,
            DbType::SQLite => "?"@,
        }
    }

    /// Renders the placeholder for the parameter at 1-based position
    /// `index`.
    pub fn placeholder(&self, index: usize) -> (r: String)
        ensures
            r@ == self.spec_placeholder(index as nat),
    {
        match self {
            DbType::Postgres => {
                let mut out = String::new();
                push_char(&mut out, '$');
                push_u64(&mut out, index as u64);
                assert(out@ =~= self.spec_placeholder(index as nat));
                out
            },
            DbType::MySQL => "?".to_owned(),
            DbType::SQLite => "?".to_owned(),
        }
    }
}

} // verus!
