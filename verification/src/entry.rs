//! The entity contract: the capability every queryable type implements.
//!
//! An entity declares its table name, its full and insertable column
//! lists, an ordered bind-value extraction aligned one-to-one with the
//! insertable columns, and timestamp mutators.  The contract also carries
//! the proof obligations the repository relies on: every insertable
//! column is a declared column, and bind values align with the
//! insertable column list.

use vstd::prelude::*;
use crate::values::{BindSpec, BindValue, bind_views};

verus! {

/// The persistence contract of an entity type.
pub trait Entry: Sized {
    /// The entity's primary-key type.
    type Id;

    /// The table this entity persists to.
    spec fn spec_table_name() -> Seq<char>;

    /// All persisted columns, in schema order.
    spec fn spec_columns() -> Seq<Seq<char>>;

    /// The columns written on INSERT and UPDATE, in bind order.
    spec fn spec_insertable_columns() -> Seq<Seq<char>>;

    /// The ordered parameter values this instance binds, aligned
    /// one-to-one with the insertable columns.
    spec fn spec_bind_values(&self) -> Seq<BindSpec>;

    /// This instance with its creation timestamp replaced.
    spec fn spec_with_created_at(self, ts: i64) -> Self;

    /// This instance with its update timestamp replaced.
    spec fn spec_with_updated_at(self, ts: i64) -> Self;

    /// Every insertable column is a declared column.
    proof fn columns_cover_insertable()
        ensures
            forall|i: int|
                0 <= i < Self::spec_insertable_columns().len()
                    ==> Self::spec_columns().contains(#[trigger] Self::spec_insertable_columns()[i]),
    ;

    /// The bind values align one-to-one with the insertable columns.
    proof fn bind_values_align(e: &Self)
        ensures
            e.spec_bind_values().len() == Self::spec_insertable_columns().len(),
    ;

    /// The table this entity persists to.
    fn table_name() -> (r: String)
        ensures
            r@ == Self::spec_table_name(),
    ;

    /// All persisted columns, in schema order.
    fn columns() -> (r: Vec<String>)
        ensures
            r@.map_values(|s: String| s@) == Self::spec_columns(),
    ;

    /// The columns written on INSERT and UPDATE, in bind order.
    fn insertable_columns() -> (r: Vec<String>)
        ensures
            r@.map_values(|s: String| s@) == Self::spec_insertable_columns(),
    ;

    /// The ordered parameter values this instance binds.
    fn to_bind_values(&self) -> (r: Vec<BindValue>)
        ensures
            bind_views(r@) == self.spec_bind_values(),
    ;

    /// Replaces the creation timestamp.
    fn set_created_at(&mut self, ts: i64)
        ensures
            *final(self) == old(self).spec_with_created_at(ts),
    ;

    /// Replaces the update timestamp.
    fn set_updated_at(&mut self, ts: i64)
        ensures
            *final(self) == old(self).spec_with_updated_at(ts),
    ;
}

} // verus!
