use vstd::prelude::*;

use crate::error::FfiError;
use crate::memory::{int_at, lemma_write_then_read, with_int, MemoryHandle};

verus! {

/// A scripting value as the `int` converter sees it: an integer, a string,
/// or a value of any other kind, named by its kind. Floating-point values
/// are converted by the caller before they reach the library.
pub enum ScriptValue {
    Integer(i64),
    Text(String),
    Other(String),
}

pub open spec fn is_digit(c: char) -> bool {
    '0' <= c && c <= '9'
}

/// The value of a string of decimal digits.
pub open spec fn digits_value(s: Seq<char>) -> int
    decreases s.len(),
{
    if s.len() == 0 {
        0
    } else {
        digits_value(s.drop_last()) * 10 + (s.last() as int - '0' as int)
    }
}

/// The integer that `s` writes in base 10: an optional `+` or `-` followed
/// by at least one digit, and nothing else.
pub open spec fn decimal_value(s: Seq<char>) -> Option<int> {
    if s.len() > 0 && (s[0] == '+' || s[0] == '-') {
        let rest = s.drop_first();
        if rest.len() > 0 && forall|i: int| 0 <= i < rest.len() ==> is_digit(#[trigger] rest[i]) {
            Some(if s[0] == '-' { -digits_value(rest) } else { digits_value(rest) })
        } else {
            None
        }
    } else if s.len() > 0 && forall|i: int| 0 <= i < s.len() ==> is_digit(#[trigger] s[i]) {
        Some(digits_value(s))
    } else {
        None
    }
}

/// The `i32` that `s` writes in base 10, if it is one and fits.
pub open spec fn decimal_i32(s: Seq<char>) -> Option<i32> {
    match decimal_value(s) {
        Some(v) => if i32::MIN <= v <= i32::MAX {
            Some(v as i32)
        } else {
            None
        },
        None => None,
    }
}

/// Relies on `str::parse::<i32>`: it accepts an optional sign followed by
/// decimal digits, and fails on anything else and on values out of range.
#[verifier::external_body]
fn parse_i32(s: &str) -> (r: Option<i32>)
    ensures
        r == decimal_i32(s@),
{
    s.parse::<i32>().ok()
}

/// The low 32 bits of `t`, read as an `i32` (a truncating cast).
pub open spec fn truncate_to_int(t: i64) -> i32 {
    #[verifier::truncate]
    (t as i32)
}

/// The `i32` that a scripting value converts to: integers are truncated,
/// strings are parsed as decimal integers, and other kinds are refused.
pub open spec fn int_value_spec(v: ScriptValue) -> Result<i32, FfiError> {
    match v {
        ScriptValue::Integer(t) => Ok(truncate_to_int(t)),
        ScriptValue::Text(s) => match decimal_i32(s@) {
            Some(x) => Ok(x),
            None => Err(FfiError::ParseError),
        },
        ScriptValue::Other(_) => Err(FfiError::TypeMismatch),
    }
}

/// Converts a scripting value to the `int` it stands for.
pub fn int_from_value(v: &ScriptValue) -> (r: Result<i32, FfiError>)
    ensures
        r == int_value_spec(*v),
{
    match v {
        ScriptValue::Integer(t) => Ok(*t as i32),
        ScriptValue::Text(s) => match parse_i32(s.as_str()) {
            Some(x) => Ok(x),
            None => Err(FfiError::ParseError),
        },
        ScriptValue::Other(_) => Err(FfiError::TypeMismatch),
    }
}

/// Writes a scripting value as an `int` at `offset` of `handle`. A value
/// that does not convert is refused before anything is written; a value
/// that does not fit in the window is a `BoundaryError`.
pub fn write_int_value(handle: &mut MemoryHandle, offset: usize, v: &ScriptValue) -> (r: Result<(), FfiError>)
    ensures
        match int_value_spec(*v) {
            Err(e) => r == Err::<(), FfiError>(e) && final(handle)@ == old(handle)@,
            Ok(x) => if offset + 4 <= old(handle)@.len() {
                r is Ok && final(handle)@ == with_int(old(handle)@, offset as int, x)
            } else {
                r == Err::<(), FfiError>(FfiError::BoundaryError) && final(handle)@ == old(handle)@
            },
        },
{
    let x = int_from_value(v)?;
    handle.write_int(offset, x)
}

/// Reads the `int` stored at `offset` of `handle`, as a scripting integer.
pub fn read_int_value(handle: &MemoryHandle, offset: usize) -> (r: Result<i64, FfiError>)
    ensures
        r == (if offset + 4 <= handle@.len() {
            Ok::<i64, FfiError>(int_at(handle@, offset as int) as i64)
        } else {
            Err(FfiError::BoundaryError)
        }),
{
    let x = handle.read_int(offset)?;
    Ok(x as i64)
}

/// Every `int` survives the converter: written as a scripting integer and
/// read back from the same place, it comes back unchanged.
pub proof fn lemma_int_converter_round_trip(b: Seq<u8>, offset: int, v: i32)
    requires
        0 <= offset,
        offset + 4 <= b.len(),
    ensures
        int_value_spec(ScriptValue::Integer(v as i64)) == Ok::<i32, FfiError>(v),
        int_at(with_int(b, offset, v), offset) as i64 == v as i64,
{
    let t = v as i64;
    assert(truncate_to_int(t) == v) by {
        assert((#[verifier::truncate] (t as i32)) == v) by (bit_vector)
            requires t == v as i64;
    }
    lemma_write_then_read(b, offset, v);
}

} // verus!
