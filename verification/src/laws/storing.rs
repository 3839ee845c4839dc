//! What the events store, in terms of the values of the rows.

pub mod approvals;
pub mod checkpoints;
pub mod costs;
pub mod evals;
pub mod knowledge;
pub mod messages;
pub mod policies;
pub mod prompts;
pub mod providers;
pub mod recovery;
pub mod runs;
pub mod sessions;
pub mod tasks;
pub mod tenants;
pub mod tools;
pub mod triggers;

use crate::error::ErrorView;
use crate::model::Datum;
use vstd::prelude::*;

verus! {

/// A text, or nothing.
pub open spec fn optional_text(text: Option<String>) -> Datum {
    match text {
        Some(t) => Datum::Text(t@),
        None => Datum::Null,
    }
}

/// A JSON document, or nothing.
pub open spec fn optional_json(text: Option<String>) -> Datum {
    match text {
        Some(t) => Datum::Json(t@),
        None => Datum::Null,
    }
}

/// A number as its column holds it, or nothing.
pub open spec fn optional_number(number: Option<u64>) -> Datum {
    match number {
        Some(n) => Datum::Int(n as i64 as int),
        None => Datum::Null,
    }
}

/// A signed number, or nothing.
pub open spec fn optional_signed_number(number: Option<i64>) -> Datum {
    match number {
        Some(n) => Datum::Int(n as int),
        None => Datum::Null,
    }
}

/// A small number as its column holds it, or nothing.
pub open spec fn optional_small_number(number: Option<u32>) -> Datum {
    match number {
        Some(n) => Datum::Int(n as i32 as int),
        None => Datum::Null,
    }
}

/// A small number in a wide column, or nothing.
pub open spec fn optional_wide_number(number: Option<u32>) -> Datum {
    match number {
        Some(n) => Datum::Int(n as int),
        None => Datum::Null,
    }
}

/// A double by its bits, or nothing.
pub open spec fn optional_float(bits: Option<u64>) -> Datum {
    match bits {
        Some(b) => Datum::Float8(b),
        None => Datum::Null,
    }
}

/// One for true, zero for false.
pub open spec fn bit(b: bool) -> Datum {
    Datum::Int(if b { 1 } else { 0 })
}

/// The JSON array of some texts, or nothing.
pub open spec fn optional_list(texts: Option<Vec<String>>) -> Datum {
    match texts {
        Some(t) => Datum::Text(crate::json::strings_as_json(t.deep_view())),
        None => Datum::Null,
    }
}

/// The refusal of a number above a bound.
pub open spec fn too_great(label: Seq<char>, number: nat, bound: Seq<char>) -> ErrorView {
    ErrorView::Internal(label + " "@ + crate::text::decimal(number) + " exceeds "@ + bound)
}

/// The refusal of a number that an integer column cannot hold.
pub open spec fn too_great_for_an_integer(field: Seq<char>, number: nat) -> ErrorView {
    ErrorView::Internal(
        field + " = "@ + crate::text::decimal(number)
            + " exceeds i32::MAX; projection column is INTEGER"@,
    )
}

} // verus!
