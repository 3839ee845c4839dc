//! The values that statements and queries carry.

use crate::error::StoreError;
use crate::json::encode_strings;
use vstd::prelude::*;

verus! {

/// The column type that a missing value is sent with.
#[derive(Clone, Copy, Debug, PartialEq, Eq, Structural)]
pub enum SqlType {
    Text,
    Int4,
    Int8,
    Bool,
    Float8,
    Json,
}

/// A value bound to a parameter. A double is held by its IEEE 754 bits and a
/// JSON document by its text.
#[derive(Debug, PartialEq, Eq)]
pub enum SqlValue {
    Null(SqlType),
    Text(String),
    Int2(i16),
    Int4(i32),
    Int8(i64),
    Bool(bool),
    Float8(u64),
    Bytes(Vec<u8>),
    Json(String),
}

/// The mathematical value of a [`SqlValue`].
pub enum ValueView {
    Null(SqlType),
    Text(Seq<char>),
    Int2(i16),
    Int4(i32),
    Int8(i64),
    Bool(bool),
    Float8(u64),
    Bytes(Seq<u8>),
    Json(Seq<char>),
}

impl View for SqlValue {
    type V = ValueView;

    open spec fn view(&self) -> ValueView {
        match self {
            SqlValue::Null(t) => ValueView::Null(*t),
            SqlValue::Text(s) => ValueView::Text(s@),
            SqlValue::Int2(v) => ValueView::Int2(*v),
            SqlValue::Int4(v) => ValueView::Int4(*v),
            SqlValue::Int8(v) => ValueView::Int8(*v),
            SqlValue::Bool(b) => ValueView::Bool(*b),
            SqlValue::Float8(b) => ValueView::Float8(*b),
            SqlValue::Bytes(b) => ValueView::Bytes(b@),
            SqlValue::Json(s) => ValueView::Json(s@),
        }
    }
}

impl Clone for SqlValue {
    fn clone(&self) -> (r: Self)
        ensures
            r@ == self@,
    {
        match self {
            SqlValue::Null(t) => SqlValue::Null(*t),
            SqlValue::Text(s) => SqlValue::Text(s.clone()),
            SqlValue::Int2(v) => SqlValue::Int2(*v),
            SqlValue::Int4(v) => SqlValue::Int4(*v),
            SqlValue::Int8(v) => SqlValue::Int8(*v),
            SqlValue::Bool(b) => SqlValue::Bool(*b),
            SqlValue::Float8(b) => SqlValue::Float8(*b),
            SqlValue::Bytes(b) => {
                let copy = b.clone();
                assert(copy@ =~= b@);
                SqlValue::Bytes(copy)
            },
            SqlValue::Json(s) => SqlValue::Json(s.clone()),
        }
    }
}

impl ValueView {
    /// A text, or a missing text.
    pub open spec fn opt_text(s: Option<String>) -> ValueView {
        match s {
            Some(t) => ValueView::Text(t@),
            None => ValueView::Null(SqlType::Text),
        }
    }

    /// A JSON document, or a missing one.
    pub open spec fn opt_json(s: Option<String>) -> ValueView {
        match s {
            Some(t) => ValueView::Json(t@),
            None => ValueView::Null(SqlType::Json),
        }
    }

    /// A 64-bit number, or a missing one.
    pub open spec fn opt_int8(v: Option<i64>) -> ValueView {
        match v {
            Some(n) => ValueView::Int8(n),
            None => ValueView::Null(SqlType::Int8),
        }
    }

    /// A 64-bit number with the bits of an unsigned one, or a missing one.
    pub open spec fn opt_bits8(v: Option<u64>) -> ValueView {
        match v {
            Some(n) => ValueView::Int8(n as i64),
            None => ValueView::Null(SqlType::Int8),
        }
    }

    /// A 32-bit number with the bits of an unsigned one, or a missing one.
    pub open spec fn opt_bits4(v: Option<u32>) -> ValueView {
        match v {
            Some(n) => ValueView::Int4(n as i32),
            None => ValueView::Null(SqlType::Int4),
        }
    }

    /// A 64-bit number that a 32-bit one widens to, or a missing one.
    pub open spec fn opt_wide8(v: Option<u32>) -> ValueView {
        match v {
            Some(n) => ValueView::Int8(n as i64),
            None => ValueView::Null(SqlType::Int8),
        }
    }

    /// A double by its bits, or a missing one.
    pub open spec fn opt_float8(v: Option<u64>) -> ValueView {
        match v {
            Some(b) => ValueView::Float8(b),
            None => ValueView::Null(SqlType::Float8),
        }
    }

    /// One or zero.
    pub open spec fn flag(b: bool) -> ValueView {
        ValueView::Int4(if b { 1 } else { 0 })
    }

    /// The JSON array of some strings as a text, or a missing text.
    pub open spec fn opt_strings(s: Option<Vec<String>>) -> ValueView {
        match s {
            Some(v) => ValueView::Text(crate::json::strings_as_json(v.deep_view())),
            None => ValueView::Null(SqlType::Text),
        }
    }
}

/// The text `s`.
pub fn text(s: &str) -> (r: SqlValue)
    ensures
        r@ == ValueView::Text(s@),
{
    SqlValue::Text(s.to_owned())
}

/// The text `s`, or a missing text.
pub fn opt_text(s: &Option<String>) -> (r: SqlValue)
    ensures
        r@ == ValueView::opt_text(*s),
{
    match s {
        Some(t) => SqlValue::Text(t.clone()),
        None => SqlValue::Null(SqlType::Text),
    }
}

/// The JSON document with the text `s`.
pub fn json(s: &str) -> (r: SqlValue)
    ensures
        r@ == ValueView::Json(s@),
{
    SqlValue::Json(s.to_owned())
}

/// The JSON document with the text `s`, or a missing one.
pub fn opt_json(s: &Option<String>) -> (r: SqlValue)
    ensures
        r@ == ValueView::opt_json(*s),
{
    match s {
        Some(t) => SqlValue::Json(t.clone()),
        None => SqlValue::Null(SqlType::Json),
    }
}

/// A 64-bit number, or a missing one.
pub fn opt_int8(v: Option<i64>) -> (r: SqlValue)
    ensures
        r@ == ValueView::opt_int8(v),
{
    match v {
        Some(n) => SqlValue::Int8(n),
        None => SqlValue::Null(SqlType::Int8),
    }
}

/// A 64-bit number with the bits of an unsigned one, or a missing one.
pub fn opt_bits8(v: Option<u64>) -> (r: SqlValue)
    ensures
        r@ == ValueView::opt_bits8(v),
{
    match v {
        Some(n) => SqlValue::Int8(n as i64),
        None => SqlValue::Null(SqlType::Int8),
    }
}

/// A 32-bit number with the bits of an unsigned one, or a missing one.
pub fn opt_bits4(v: Option<u32>) -> (r: SqlValue)
    ensures
        r@ == ValueView::opt_bits4(v),
{
    match v {
        Some(n) => SqlValue::Int4(n as i32),
        None => SqlValue::Null(SqlType::Int4),
    }
}

/// A 64-bit number that a 32-bit one widens to, or a missing one.
pub fn opt_wide8(v: Option<u32>) -> (r: SqlValue)
    ensures
        r@ == ValueView::opt_wide8(v),
{
    match v {
        Some(n) => SqlValue::Int8(n as i64),
        None => SqlValue::Null(SqlType::Int8),
    }
}

/// A double by its bits, or a missing one.
pub fn opt_float8(v: Option<u64>) -> (r: SqlValue)
    ensures
        r@ == ValueView::opt_float8(v),
{
    match v {
        Some(b) => SqlValue::Float8(b),
        None => SqlValue::Null(SqlType::Float8),
    }
}

/// One or zero.
pub fn flag(b: bool) -> (r: SqlValue)
    ensures
        r@ == ValueView::flag(b),
{
    SqlValue::Int4(if b { 1 } else { 0 })
}

/// The JSON array of some strings as a text, or a missing text.
pub fn opt_strings(s: &Option<Vec<String>>) -> (r: Result<SqlValue, StoreError>)
    ensures
        match r {
            Ok(v) => v@ == ValueView::opt_strings(*s),
            Err(_) => false,
        },
{
    match s {
        Some(v) => match encode_strings(v) {
            Ok(t) => Ok(SqlValue::Text(t)),
            Err(m) => Err(StoreError::Serialization(m)),
        },
        None => Ok(SqlValue::Null(SqlType::Text)),
    }
}

/// The bytes `b`.
pub fn bytes(b: &Vec<u8>) -> (r: SqlValue)
    ensures
        r@ == ValueView::Bytes(b@),
{
    let copy = b.clone();
    assert(copy@ =~= b@);
    SqlValue::Bytes(copy)
}

} // verus!
