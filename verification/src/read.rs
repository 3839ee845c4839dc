//! Reading projections: the stored rows, the records that they hold, and the
//! queries that find them.

pub mod approvals;
pub mod checkpoints;
pub mod evals;
pub mod knowledge;
pub mod messages;
pub mod policies;
pub mod providers;
pub mod runs;
pub mod sessions;
pub mod tasks;
pub mod tenants;
pub mod tools;
pub mod triggers;

use crate::domain::DomainNames;
use crate::error::{ErrorView, StoreError};
use crate::model::Datum;
use vstd::prelude::*;
use vstd::string::*;

verus! {

/// A JSON column that holds a value of the domain: its text and, where the
/// domain's decoder refused the text, why.
#[derive(Debug, PartialEq, Eq)]
pub struct Decoded {
    pub text: String,
    pub fault: Option<String>,
}

/// A stored row that holds a record.
pub trait StoredRow: Sized {
    type Record;

    /// Why the row holds no record, if it holds none.
    spec fn fault(&self, names: &DomainNames) -> Option<ErrorView>;

    /// Whether `record` is what the row holds.
    spec fn holds(&self, names: &DomainNames, record: &Self::Record) -> bool;

    /// The record that the row holds.
    fn into_record(self, names: &DomainNames) -> (r: Result<Self::Record, StoreError>)
        ensures
            match r {
                Ok(record) => self.fault(names) is None && self.holds(names, &record),
                Err(e) => self.fault(names) == Some(e@),
            },
    ;
}

/// The records that some rows hold, in order, or why the first row that holds
/// none does not.
pub fn into_records<R: StoredRow>(rows: Vec<R>, names: &DomainNames) -> (r: Result<
    Vec<R::Record>,
    StoreError,
>)
    ensures
        match r {
            Ok(records) => {
                &&& records@.len() == rows@.len()
                &&& forall|i: int|
                    0 <= i < rows@.len() ==> (#[trigger] rows@[i]).fault(names) is None
                        && rows@[i].holds(names, &records@[i])
            },
            Err(e) => exists|i: int|
                0 <= i < rows@.len() && #[trigger] rows@[i].fault(names) == Some(e@) && (forall|
                    j: int,
                |
                    0 <= j < i ==> (#[trigger] rows@[j]).fault(names) is None),
        },
{
    let ghost all = rows@;
    let mut records: Vec<R::Record> = Vec::new();
    for row in iter: rows.into_iter()
        invariant
            iter.seq() == all,
            records@.len() == iter.index(),
            forall|i: int|
                0 <= i < records@.len() ==> (#[trigger] all[i]).fault(names) is None
                    && all[i].holds(names, &records@[i]),
    {
        let ghost at = records@.len() as int;
        assert(all[at] == row);
        match row.into_record(names) {
            Ok(record) => records.push(record),
            Err(e) => {
                assert(all[at].fault(names) == Some(e@));
                return Err(e);
            },
        }
    }
    Ok(records)
}

impl Datum {
    /// A stored text, or none.
    pub open spec fn opt_text(s: Option<String>) -> Datum {
        match s {
            Some(t) => Datum::Text(t@),
            None => Datum::Null,
        }
    }

    /// A stored JSON document, or none.
    pub open spec fn opt_json(s: Option<String>) -> Datum {
        match s {
            Some(t) => Datum::Json(t@),
            None => Datum::Null,
        }
    }

    /// A stored JSON document of the domain, or none.
    pub open spec fn opt_decoded_json(d: Option<Decoded>) -> Datum {
        match d {
            Some(v) => Datum::Json(v.text@),
            None => Datum::Null,
        }
    }

    /// A stored text of a JSON document of the domain, or none.
    pub open spec fn opt_decoded_text(d: Option<Decoded>) -> Datum {
        match d {
            Some(v) => Datum::Text(v.text@),
            None => Datum::Null,
        }
    }

    /// A stored number, or none.
    pub open spec fn opt_int8(v: Option<i64>) -> Datum {
        match v {
            Some(n) => Datum::Int(n as int),
            None => Datum::Null,
        }
    }

    /// A stored number, or none.
    pub open spec fn opt_int4(v: Option<i32>) -> Datum {
        match v {
            Some(n) => Datum::Int(n as int),
            None => Datum::Null,
        }
    }

    /// A stored truth value, or none.
    pub open spec fn opt_bool(v: Option<bool>) -> Datum {
        match v {
            Some(b) => Datum::Bool(b),
            None => Datum::Null,
        }
    }
}

/// A number, or zero in place of a negative one.
pub open spec fn floor8(v: i64) -> u64 {
    if v < 0 {
        0
    } else {
        v as u64
    }
}

/// A number, or zero in place of a negative one.
pub open spec fn floor4(v: i32) -> u32 {
    if v < 0 {
        0
    } else {
        v as u32
    }
}

/// The low bits of a number, or zero in place of a negative one.
pub open spec fn low4(v: i64) -> u32 {
    if v < 0 {
        0
    } else {
        v as u32
    }
}

/// The nearest number that has 32 bits.
pub open spec fn clamp4(v: i64) -> u32 {
    if v < 0 {
        0
    } else if v > u32::MAX {
        u32::MAX
    } else {
        v as u32
    }
}

/// The nearest number that has eight bits.
pub open spec fn clamp1(v: i32) -> u8 {
    if v < 0 {
        0
    } else if v > u8::MAX {
        u8::MAX
    } else {
        v as u8
    }
}

/// [`floor8`] of an optional number.
pub open spec fn opt_floor8(v: Option<i64>) -> Option<u64> {
    match v {
        Some(n) => Some(floor8(n)),
        None => None,
    }
}

/// [`floor4`] of an optional number.
pub open spec fn opt_floor4(v: Option<i32>) -> Option<u32> {
    match v {
        Some(n) => Some(floor4(n)),
        None => None,
    }
}

/// [`low4`] of an optional number.
pub open spec fn opt_low4(v: Option<i64>) -> Option<u32> {
    match v {
        Some(n) => Some(low4(n)),
        None => None,
    }
}

/// The bits of an optional number.
pub open spec fn opt_unsigned8(v: Option<i64>) -> Option<u64> {
    match v {
        Some(n) => Some(n as u64),
        None => None,
    }
}

/// The text of an optional column.
pub open spec fn opt_decoded(d: Option<Decoded>) -> Option<String> {
    match d {
        Some(v) => Some(v.text),
        None => None,
    }
}

pub(crate) fn to_floor8(v: i64) -> (r: u64)
    ensures
        r == floor8(v),
{
    if v < 0 {
        0
    } else {
        v as u64
    }
}

pub(crate) fn to_floor4(v: i32) -> (r: u32)
    ensures
        r == floor4(v),
{
    if v < 0 {
        0
    } else {
        v as u32
    }
}

pub(crate) fn to_low4(v: i64) -> (r: u32)
    ensures
        r == low4(v),
{
    if v < 0 {
        0
    } else {
        v as u32
    }
}

pub(crate) fn to_clamp4(v: i64) -> (r: u32)
    ensures
        r == clamp4(v),
{
    if v < 0 {
        0
    } else if v > u32::MAX as i64 {
        u32::MAX
    } else {
        v as u32
    }
}

pub(crate) fn to_clamp1(v: i32) -> (r: u8)
    ensures
        r == clamp1(v),
{
    if v < 0 {
        0
    } else if v > u8::MAX as i32 {
        u8::MAX
    } else {
        v as u8
    }
}

pub(crate) fn to_opt_floor8(v: Option<i64>) -> (r: Option<u64>)
    ensures
        r == opt_floor8(v),
{
    match v {
        Some(n) => Some(to_floor8(n)),
        None => None,
    }
}

pub(crate) fn to_opt_floor4(v: Option<i32>) -> (r: Option<u32>)
    ensures
        r == opt_floor4(v),
{
    match v {
        Some(n) => Some(to_floor4(n)),
        None => None,
    }
}

pub(crate) fn to_opt_low4(v: Option<i64>) -> (r: Option<u32>)
    ensures
        r == opt_low4(v),
{
    match v {
        Some(n) => Some(to_low4(n)),
        None => None,
    }
}

pub(crate) fn to_opt_unsigned8(v: Option<i64>) -> (r: Option<u64>)
    ensures
        r == opt_unsigned8(v),
{
    match v {
        Some(n) => Some(n as u64),
        None => None,
    }
}

pub(crate) fn to_opt_decoded(d: Option<Decoded>) -> (r: Option<String>)
    ensures
        r == opt_decoded(d),
{
    match d {
        Some(v) => Some(v.text),
        None => None,
    }
}

/// The states of runs that ended.
pub open spec fn ended_run_states() -> Seq<Seq<char>> {
    seq!["completed"@, "failed"@, "canceled"@]
}

pub(crate) fn ended_run_states_list() -> (r: Vec<&'static str>)
    ensures
        crate::statement::name_views(r@) == ended_run_states(),
{
    vec!["completed", "failed", "canceled"]
}

/// The states of runs and tasks that are closed.
pub open spec fn closed_states() -> Seq<Seq<char>> {
    seq!["completed"@, "failed"@, "canceled"@, "dead_lettered"@]
}

pub(crate) fn closed_states_list() -> (r: Vec<&'static str>)
    ensures
        crate::statement::name_views(r@) == closed_states(),
{
    vec!["completed", "failed", "canceled", "dead_lettered"]
}

/// The states of runs that a driver may claim.
pub open spec fn claimable_run_states() -> Seq<Seq<char>> {
    seq!["pending"@, "running"@]
}

pub(crate) fn claimable_run_states_list() -> (r: Vec<&'static str>)
    ensures
        crate::statement::name_views(r@) == claimable_run_states(),
{
    vec!["pending", "running"]
}

/// The states of runs that can stall.
pub open spec fn stalled_run_states() -> Seq<Seq<char>> {
    seq!["running"@, "pending"@]
}

pub(crate) fn stalled_run_states_list() -> (r: Vec<&'static str>)
    ensures
        crate::statement::name_views(r@) == stalled_run_states(),
{
    vec!["running", "pending"]
}

impl ErrorView {
    /// The alternatives, in words.
    pub open spec fn one_of(names: Seq<Seq<char>>) -> Seq<char> {
        if names.len() == 1 {
            "`"@ + names[0] + "`"@
        } else if names.len() == 2 {
            "`"@ + names[0] + "` or `"@ + names[1] + "`"@
        } else {
            ErrorView::ticked("one of "@, names, names.len())
        }
    }

    /// A text followed by the first `n` names.
    pub open spec fn ticked(head: Seq<char>, names: Seq<Seq<char>>, n: nat) -> Seq<char>
        decreases n,
    {
        if n == 0 {
            head
        } else if n == 1 {
            head + "`"@ + names[0] + "`"@
        } else {
            ErrorView::ticked(head, names, (n - 1) as nat) + ", `"@ + names[n - 1] + "`"@
        }
    }

    /// The error for a name that is none of those known.
    pub open spec fn unknown_name(raw: Seq<char>, names: Seq<Seq<char>>) -> ErrorView {
        if names.len() == 0 {
            ErrorView::Serialization("unknown variant `"@ + raw + "`, there are no variants"@)
        } else {
            ErrorView::Serialization(
                "unknown variant `"@ + raw + "`, expected "@ + ErrorView::one_of(names),
            )
        }
    }

    /// Why a name is not known, if it is not.
    pub open spec fn name_fault(raw: Seq<char>, names: Seq<Seq<char>>) -> Option<ErrorView> {
        if names.contains(raw) {
            None
        } else {
            Some(ErrorView::unknown_name(raw, names))
        }
    }

    /// Why an optional name is not known, if it is not.
    pub open spec fn opt_name_fault(
        raw: Option<String>,
        names: Seq<Seq<char>>,
    ) -> Option<ErrorView> {
        match raw {
            Some(s) => ErrorView::name_fault(s@, names),
            None => None,
        }
    }

    /// Why a JSON column was refused, if it was.
    pub open spec fn decoded_fault(d: Decoded) -> Option<ErrorView> {
        match d.fault {
            Some(m) => Some(ErrorView::Serialization(m@)),
            None => None,
        }
    }

    /// Why an optional JSON column was refused, if it was.
    pub open spec fn opt_decoded_fault(d: Option<Decoded>) -> Option<ErrorView> {
        match d {
            Some(v) => ErrorView::decoded_fault(v),
            None => None,
        }
    }

    /// An optional error's view.
    pub open spec fn of(e: Option<StoreError>) -> Option<ErrorView> {
        match e {
            Some(s) => Some(s@),
            None => None,
        }
    }
}

pub(crate) fn knows(names: &Vec<String>, raw: &str) -> (r: bool)
    ensures
        r == names.deep_view().contains(raw@),
{
    let mut i: usize = 0;
    while i < names.len()
        invariant
            i <= names.len(),
            forall|k: int| 0 <= k < i ==> names@[k]@ != raw@,
        decreases names.len() - i,
    {
        if crate::text::same_text(&names[i], raw) {
            assert(names.deep_view()[i as int] == raw@);
            return true;
        }
        i = i + 1;
    }
    false
}

/// The error for a name that is none of those known.
fn unknown_name(raw: &str, names: &Vec<String>) -> (r: StoreError)
    ensures
        r@ == ErrorView::unknown_name(raw@, names.deep_view()),
{
    let ghost all = names.deep_view();
    let mut out: String = "unknown variant `".to_owned();
    out.append(raw);
    if names.len() == 0 {
        out.append("`, there are no variants");
        return StoreError::Serialization(out);
    }
    out.append("`, expected ");
    let ghost head = out@;
    if names.len() == 1 {
        out.append("`");
        out.append(&names[0]);
        out.append("`");
        assert(out@ =~= head + ErrorView::one_of(all));
        return StoreError::Serialization(out);
    }
    if names.len() == 2 {
        out.append("`");
        out.append(&names[0]);
        out.append("` or `");
        out.append(&names[1]);
        out.append("`");
        assert(out@ =~= head + ErrorView::one_of(all));
        return StoreError::Serialization(out);
    }
    out.append("one of ");
    let mut i: usize = 0;
    while i < names.len()
        invariant
            i <= names.len(),
            all == names.deep_view(),
            out@ == head + ErrorView::ticked("one of "@, all, i as nat),
        decreases names.len() - i,
    {
        if i > 0 {
            out.append(", ");
        }
        out.append("`");
        out.append(&names[i]);
        out.append("`");
        assert(all[i as int] == names@[i as int]@);
        proof {
            reveal_strlit(", ");
            reveal_strlit("`");
            reveal_strlit(", `");
        }
        assert(", "@ + "`"@ =~= ", `"@);
        assert(out@ =~= head + ErrorView::ticked("one of "@, all, (i + 1) as nat));
        i = i + 1;
    }
    StoreError::Serialization(out)
}

/// Why a name is not known, if it is not.
pub(crate) fn name_fault(raw: &str, names: &Vec<String>) -> (r: Option<StoreError>)
    ensures
        ErrorView::of(r) == ErrorView::name_fault(raw@, names.deep_view()),
{
    if knows(names, raw) {
        None
    } else {
        Some(unknown_name(raw, names))
    }
}

/// Why an optional name is not known, if it is not.
pub(crate) fn opt_name_fault(raw: &Option<String>, names: &Vec<String>) -> (r: Option<StoreError>)
    ensures
        ErrorView::of(r) == ErrorView::opt_name_fault(*raw, names.deep_view()),
{
    match raw {
        Some(s) => name_fault(s, names),
        None => None,
    }
}

/// Why a JSON column was refused, if it was.
pub(crate) fn decoded_fault(d: &Decoded) -> (r: Option<StoreError>)
    ensures
        ErrorView::of(r) == ErrorView::decoded_fault(*d),
{
    match &d.fault {
        Some(m) => Some(StoreError::Serialization(m.clone())),
        None => None,
    }
}

/// Why an optional JSON column was refused, if it was.
pub(crate) fn opt_decoded_fault(d: &Option<Decoded>) -> (r: Option<StoreError>)
    ensures
        ErrorView::of(r) == ErrorView::opt_decoded_fault(*d),
{
    match d {
        Some(v) => decoded_fault(v),
        None => None,
    }
}

} // verus!
