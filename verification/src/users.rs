//! The user entity and its persistence contract.
//!
//! A user carries its identifier as hyphenated text and its timestamps
//! as unix seconds; the bind values serialize the timestamps in
//! RFC 3339 form.

use vstd::prelude::*;
use crate::entry::Entry;
use crate::helpers::{format_datetime, new_uuid_string, now_unix, rfc3339_of};
use crate::values::{BindSpec, BindValue, bind_views};

verus! {

/// A persisted user.
#[derive(Debug)]
pub struct User {
    pub id: String,
    pub username: String,
    pub email: String,
    pub password_hash: String,
    pub created_at: i64,
    pub updated_at: i64,
}

impl User {
    /// A fresh user with a newly drawn identifier and both timestamps
    /// stamped to the current instant.
    pub fn new(username: String, email: String, password_hash: String) -> (r: User)
        ensures
            r.username == username,
            r.email == email,
            r.password_hash == password_hash,
            r.id@.len() == 36,
            r.created_at == r.updated_at,
    {
        let now = now_unix();
        User {
            id: new_uuid_string(),
            username,
            email,
            password_hash,
            created_at: now,
            updated_at: now,
        }
    }
}

impl Entry for User {
    type Id = String;

    open spec fn spec_table_name() -> Seq<char> {
        "users"@
    }

    open spec fn spec_columns() -> Seq<Seq<char>> {
        seq!["id"@, "username"@, "email"@, "password_hash"@, "created_at"@, "updated_at"@]
    }

    open spec fn spec_insertable_columns() -> Seq<Seq<char>> {
        Self::spec_columns()
    }

    open spec fn spec_bind_values(&self) -> Seq<BindSpec> {
        seq![
            BindSpec::Str(self.id@),
            BindSpec::Str(self.username@),
            BindSpec::Str(self.email@),
            BindSpec::Str(self.password_hash@),
            BindSpec::Str(rfc3339_of(self.created_at)),
            BindSpec::Str(rfc3339_of(self.updated_at)),
        ]
    }

    open spec fn spec_with_created_at(self, ts: i64) -> User {
        User { created_at: ts, ..self }
    }

    open spec fn spec_with_updated_at(self, ts: i64) -> User {
        User { updated_at: ts, ..self }
    }

    proof fn columns_cover_insertable() {
        assert forall|i: int|
            0 <= i < Self::spec_insertable_columns().len() implies Self::spec_columns().contains(
            #[trigger] Self::spec_insertable_columns()[i],
        ) by {
            assert(Self::spec_columns()[i] == Self::spec_insertable_columns()[i]);
        }
    }

    proof fn bind_values_align(e: &User) {
    }

    fn table_name() -> (r: String) {
        "users".to_owned()
    }

    fn columns() -> (r: Vec<String>) {
        let mut cols: Vec<String> = Vec::new();
        cols.push("id".to_owned());
        cols.push("username".to_owned());
        cols.push("email".to_owned());
        cols.push("password_hash".to_owned());
        cols.push("created_at".to_owned());
        cols.push("updated_at".to_owned());
        proof {
            assert(cols@.map_values(|s: String| s@) =~= Self::spec_columns());
        }
        cols
    }

    fn insertable_columns() -> (r: Vec<String>) {
        Self::columns()
    }

    fn to_bind_values(&self) -> (r: Vec<BindValue>) {
        let mut vs: Vec<BindValue> = Vec::new();
        vs.push(BindValue::Str(self.id.clone()));
        vs.push(BindValue::Str(self.username.clone()));
        vs.push(BindValue::Str(self.email.clone()));
        vs.push(BindValue::Str(self.password_hash.clone()));
        vs.push(BindValue::Str(format_datetime(self.created_at)));
        vs.push(BindValue::Str(format_datetime(self.updated_at)));
        proof {
            assert(bind_views(vs@) =~= self.spec_bind_values());
        }
        vs
    }

    fn set_created_at(&mut self, ts: i64) {
        self.created_at = ts;
    }

    fn set_updated_at(&mut self, ts: i64) {
        self.updated_at = ts;
    }
}

/// The user as surfaced to API clients: no password material, and
/// timestamps rendered in RFC 3339 form.
#[derive(Debug)]
pub struct UserResponse {
    pub id: String,
    pub username: String,
    pub email: String,
    pub created_at: String,
    pub updated_at: String,
}

impl UserResponse {
    /// Projects a user to its client-facing form.
    pub fn from_user(user: User) -> (r: UserResponse)
        ensures
            r.id == user.id,
            r.username == user.username,
            r.email == user.email,
            r.created_at@ == rfc3339_of(user.created_at),
            r.updated_at@ == rfc3339_of(user.updated_at),
    {
        UserResponse {
            id: user.id,
            username: user.username,
            email: user.email,
            created_at: format_datetime(user.created_at),
            updated_at: format_datetime(user.updated_at),
        }
    }
}

} // verus!
