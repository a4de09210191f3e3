//! The closed set of scalar wire values used to carry typed parameters
//! across the dialect boundary.
//!
//! A caller never interpolates a value into SQL text: it hands the
//! renderer a [`BindValue`], and the executor binds it onto the prepared
//! statement in placeholder order.

use vstd::prelude::*;

verus! {

/// A scalar parameter value.
///
/// A floating-point value travels as its IEEE-754 bit pattern and a JSON
/// document as its serialized text: the query layer only carries them
/// through to the driver, never computes with them.
#[derive(Debug, PartialEq)]
pub enum BindValue {
    Null,
    Bool(bool),
    Int(i64),
    /// The bit pattern of a double-precision floating-point value.
    Float(u64),
    Str(String),
    /// Serialized JSON text.
    Json(String),
}

/// The mathematical shadow of a [`BindValue`]: the same alternatives over
/// character sequences.
#[verifier::ext_equal]
pub enum BindSpec {
    Null,
    Bool(bool),
    Int(i64),
    Float(u64),
    Str(Seq<char>),
    Json(Seq<char>),
}

impl View for BindValue {
    type V = BindSpec;

    open spec fn view(&self) -> BindSpec {
        match self {
            BindValue::Null => BindSpec::Null,
            BindValue::Bool(b) => BindSpec::Bool(*b),
            BindValue::Int(i) => BindSpec::Int(*i),
            BindValue::Float(bits) => BindSpec::Float(*bits),
            BindValue::Str(s) => BindSpec::Str(s@),
            BindValue::Json(s) => BindSpec::Json(s@),
        }
    }
}

impl Clone for BindValue {
    /// Cloning preserves the carried value.
    fn clone(&self) -> (r: Self)
        ensures
            r@ == self@,
    {
        match self {
            BindValue::Null => BindValue::Null,
            BindValue::Bool(b) => BindValue::Bool(*b),
            BindValue::Int(i) => BindValue::Int(*i),
            BindValue::Float(bits) => BindValue::Float(*bits),
            BindValue::Str(s) => BindValue::Str(s.clone()),
            BindValue::Json(s) => BindValue::Json(s.clone()),
        }
    }
}

/// The views of a sequence of bind values.
pub open spec fn bind_views(vs: Seq<BindValue>) -> Seq<BindSpec> {
    vs.map_values(|v: BindValue| v@)
}

/// Taking views commutes with appending one value.
pub proof fn lemma_bind_views_push(vs: Seq<BindValue>, v: BindValue)
    ensures
        bind_views(vs.push(v)) == bind_views(vs).push(v@),
{
    assert(bind_views(vs.push(v)) =~= bind_views(vs).push(v@));
}

} // verus!
