//! Text building: decimal numbers, the messages of range errors and quoting.

use crate::error::{ErrorView, StoreError};
use vstd::prelude::*;
use vstd::string::*;

verus! {

/// The digit character of `d`, for `d` below ten.
pub open spec fn digit(d: nat) -> char {
    (48 + d) as char
}

/// The decimal numeral of `n`, without leading zeros.
pub open spec fn decimal(n: nat) -> Seq<char>
    decreases n,
{
    if n < 10 {
        seq![digit(n)]
    } else {
        decimal(n / 10).push(digit(n % 10))
    }
}

/// The decimal numeral of `v`, with a minus sign where it is negative.
pub open spec fn signed_decimal(v: int) -> Seq<char> {
    if v < 0 {
        "-"@ + decimal((-v) as nat)
    } else {
        decimal(v as nat)
    }
}

fn digit_text(d: u64) -> (r: &'static str)
    requires
        d < 10,
    ensures
        r@ == seq![digit(d as nat)],
{
    proof {
        reveal_strlit("0");
        reveal_strlit("1");
        reveal_strlit("2");
        reveal_strlit("3");
        reveal_strlit("4");
        reveal_strlit("5");
        reveal_strlit("6");
        reveal_strlit("7");
        reveal_strlit("8");
        reveal_strlit("9");
    }
    let r = match d {
        0 => "0",
        1 => "1",
        2 => "2",
        3 => "3",
        4 => "4",
        5 => "5",
        6 => "6",
        7 => "7",
        8 => "8",
        _ => "9",
    };
    assert(r@ =~= seq![digit(d as nat)]);
    r
}

/// Appends the decimal numeral of `n` to `out`.
pub fn push_decimal(out: &mut String, n: u64)
    ensures
        final(out)@ == old(out)@ + decimal(n as nat),
    decreases n,
{
    if n < 10 {
        out.append(digit_text(n));
    } else {
        push_decimal(out, n / 10);
        out.append(digit_text(n % 10));
        assert(decimal(n as nat) =~= decimal((n / 10) as nat) + seq![digit((n % 10) as nat)]);
        assert(out@ =~= old(out)@ + decimal(n as nat));
    }
}

/// Appends the decimal numeral of a signed number to `out`.
pub fn push_signed(out: &mut String, v: i64)
    ensures
        final(out)@ == old(out)@ + signed_decimal(v as int),
{
    if v < 0 {
        out.append("-");
        let magnitude: u64 = if v == i64::MIN {
            0x8000_0000_0000_0000
        } else {
            (-v) as u64
        };
        push_decimal(out, magnitude);
        assert(out@ =~= old(out)@ + signed_decimal(v as int));
    } else {
        push_decimal(out, v as u64);
    }
}

/// Whether two texts are the same.
pub fn same_text(a: &str, b: &str) -> (r: bool)
    ensures
        r == (a@ == b@),
{
    a.to_owned() == b.to_owned()
}

impl ErrorView {
    /// The message of a value that is above the range of its column's type.
    pub open spec fn exceeds(label: Seq<char>, value: nat, bound: Seq<char>) -> ErrorView {
        ErrorView::Internal(label + " "@ + decimal(value) + " exceeds "@ + bound)
    }

    /// The message of [`i32_from_u32`].
    pub open spec fn exceeds_integer_column(field: Seq<char>, value: nat) -> ErrorView {
        ErrorView::Internal(
            field + " = "@ + decimal(value) + " exceeds i32::MAX; projection column is INTEGER"@,
        )
    }
}

fn exceeds_error(label: &str, value: u64, bound: &str) -> (r: StoreError)
    ensures
        r@ == ErrorView::exceeds(label@, value as nat, bound@),
{
    let mut out = label.to_owned();
    out.append(" ");
    push_decimal(&mut out, value);
    out.append(" exceeds ");
    out.append(bound);
    StoreError::Internal(out)
}

/// `value` as a signed 64-bit number; a range error that names `label` where
/// it does not fit.
pub fn fits_i64(label: &str, value: u64) -> (r: Result<i64, StoreError>)
    ensures
        match r {
            Ok(v) => v == value,
            Err(e) => value > i64::MAX && e@ == ErrorView::exceeds(
                label@,
                value as nat,
                "i64::MAX"@,
            ),
        },
{
    if value <= i64::MAX as u64 {
        Ok(value as i64)
    } else {
        Err(exceeds_error(label, value, "i64::MAX"))
    }
}

/// An optional `value` as a signed 64-bit number; a range error that names
/// `label` where it does not fit.
pub fn opt_fits_i64(label: &str, value: Option<u64>) -> (r: Result<Option<i64>, StoreError>)
    ensures
        match r {
            Ok(Some(v)) => value is Some && v == value->0,
            Ok(None) => value is None,
            Err(e) => value is Some && value->0 > i64::MAX && e@ == ErrorView::exceeds(
                label@,
                value->0 as nat,
                "i64::MAX"@,
            ),
        },
{
    match value {
        Some(v) => match fits_i64(label, v) {
            Ok(n) => Ok(Some(n)),
            Err(e) => Err(e),
        },
        None => Ok(None),
    }
}

/// `value` as a signed 32-bit number; a range error that names `label` where
/// it does not fit.
pub fn fits_i32(label: &str, value: u32) -> (r: Result<i32, StoreError>)
    ensures
        match r {
            Ok(v) => v == value,
            Err(e) => value > i32::MAX && e@ == ErrorView::exceeds(
                label@,
                value as nat,
                "i32::MAX"@,
            ),
        },
{
    if value <= i32::MAX as u32 {
        Ok(value as i32)
    } else {
        Err(exceeds_error(label, value as u64, "i32::MAX"))
    }
}

/// `value` for an INTEGER column; a range error that names `field` where it
/// does not fit.
pub fn i32_from_u32(field: &str, value: u32) -> (r: Result<i32, StoreError>)
    ensures
        match r {
            Ok(v) => v == value,
            Err(e) => value > i32::MAX && e@ == ErrorView::exceeds_integer_column(
                field@,
                value as nat,
            ),
        },
{
    if value <= i32::MAX as u32 {
        Ok(value as i32)
    } else {
        let mut out = field.to_owned();
        out.append(" = ");
        push_decimal(&mut out, value as u64);
        out.append(" exceeds i32::MAX; projection column is INTEGER");
        Err(StoreError::Internal(out))
    }
}

} // verus!
