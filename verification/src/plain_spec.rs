//! The meaning of the XACML functions over plain values.
//!
//! Each function below gives the outcome of one evaluator function: `None`
//! where the evaluation overflows a machine integer, otherwise the value or
//! the dispatch error that the evaluator returns.

use vstd::prelude::*;
use crate::constants::XacmlFunction;
use crate::intermediate::Value;
use crate::plain::{BinaryImpl, DispatchError, PlainOp, TernaryImpl, UnaryImpl};

verus! {

/// The outcome of evaluating a function: `None` where it overflows.
pub type Outcome = Option<Result<Value, DispatchError>>;

/// The outcome of evaluating a predicate to a truth value.
pub type BoolOutcome = Option<Result<bool, DispatchError>>;

// ------------------------------------------------------------------
// Type labels
// ------------------------------------------------------------------

/// The label under which a plain value's type is reported.
pub open spec fn plain_label(v: Value) -> &'static str {
    match v {
        Value::Boolean(_) => "Bool",
        Value::Integer(_) => "Int64/NormalInteger",
        Value::Double(_) => "Double",
        Value::Time(_) => "Time/USmallInteger",
        Value::Date(_) => "DateTime/NormalInteger",
        Value::DateTime(_) => "DateTime/NormalInteger",
        Value::DayTimeDuration(_) => "DayTimeDuration/NormalInteger",
        Value::YearMonthDuration(_) => "YearMonthDuration/NormalInteger",
        Value::Str(_) => "String",
        Value::AnyUri(_) => "AnyUri(String)",
        Value::HexBinary(_) => "HexBinary(Vec<u8>)",
        Value::Base64Binary(_) => "Base64Binary(Vec<u8>)",
        Value::Rfc822Name(_, _) => "Rfc822Name(String,String)",
        Value::X500Name(_) => "X500Name(HashMap<String,String>)",
        Value::DnsName(_, _, _) => "DnsName(String,USmallInteger,USmallInteger)",
        Value::IpAddress(_) => "IpAddress(String)",
        Value::Bag(_) => "Bag(IntermediateTypes)",
        Value::Nothing => "Nothing",
    }
}

/// Values share a code exactly when they share a label.
pub open spec fn label_code(v: Value) -> int {
    match v {
        Value::Boolean(_) => 0,
        Value::Integer(_) => 1,
        Value::Double(_) => 2,
        Value::Time(_) => 3,
        Value::Date(_) => 4,
        Value::DateTime(_) => 4,
        Value::DayTimeDuration(_) => 5,
        Value::YearMonthDuration(_) => 6,
        Value::Str(_) => 7,
        Value::AnyUri(_) => 8,
        Value::HexBinary(_) => 9,
        Value::Base64Binary(_) => 10,
        Value::Rfc822Name(_, _) => 11,
        Value::X500Name(_) => 12,
        Value::DnsName(_, _, _) => 13,
        Value::IpAddress(_) => 14,
        Value::Bag(_) => 15,
        Value::Nothing => 16,
    }
}

/// The label reported for a pair of mismatched arguments.
pub open spec fn pair_label(a: Value, b: Value) -> &'static str {
    if label_code(a) == label_code(b) {
        plain_label(a)
    } else {
        "Mixed"
    }
}

/// The label reported for a triple of mismatched arguments.
pub open spec fn triple_label(a: Value, b: Value, c: Value) -> &'static str {
    if label_code(a) == label_code(b) && label_code(b) == label_code(c) {
        plain_label(a)
    } else {
        "Mixed"
    }
}

pub open spec fn mismatch(f: XacmlFunction, expected: &'static str, got: &'static str) -> Outcome {
    Some(Err(DispatchError::TypeMismatch { func: f, expected, got }))
}

pub open spec fn ok(v: Value) -> Outcome {
    Some(Ok(v))
}

pub open spec fn ok_bool(b: bool) -> Outcome {
    Some(Ok(Value::Boolean(b)))
}

pub open spec fn unsupported(f: XacmlFunction) -> Outcome {
    Some(Err(DispatchError::UnsupportedFunction { func: f }))
}

// ------------------------------------------------------------------
// Character sequences
// ------------------------------------------------------------------

pub open spec fn seq_starts_with(x: Seq<char>, y: Seq<char>) -> bool {
    y.len() <= x.len() && x.subrange(0, y.len() as int) == y
}

pub open spec fn seq_ends_with(x: Seq<char>, y: Seq<char>) -> bool {
    y.len() <= x.len() && x.subrange(x.len() - y.len(), x.len() as int) == y
}

pub open spec fn seq_contains(x: Seq<char>, y: Seq<char>) -> bool {
    exists|i: int| 0 <= i && i + y.len() <= x.len() && #[trigger] x.subrange(i, i + y.len()) == y
}

/// ASCII letters mapped to lower case; every other character unchanged.
pub open spec fn ascii_lower(c: char) -> char {
    if 'A' <= c && c <= 'Z' {
        ((c as u32) + 32) as char
    } else {
        c
    }
}

pub open spec fn eq_ignore_ascii_case(x: Seq<char>, y: Seq<char>) -> bool {
    x.len() == y.len() && forall|i: int| 0 <= i < x.len() ==> ascii_lower(#[trigger] x[i]) == ascii_lower(y[i])
}

/// The Unicode lower-case mapping of a string.
pub uninterp spec fn unicode_lowercase(s: Seq<char>) -> Seq<char>;

// ------------------------------------------------------------------
// Machine arithmetic
// ------------------------------------------------------------------

/// The absolute value of an integer.
pub open spec fn iabs(x: int) -> int {
    if x < 0 {
        -x
    } else {
        x
    }
}

/// Integer division rounding toward zero.
pub open spec fn trunc_div(x: int, y: int) -> int {
    let q = iabs(x) / iabs(y);
    if (x < 0) != (y < 0) {
        -q
    } else {
        q
    }
}

/// The remainder that goes with `trunc_div`; it has the sign of `x`.
pub open spec fn trunc_rem(x: int, y: int) -> int {
    x - y * trunc_div(x, y)
}

pub open spec fn fits_i64(x: int) -> bool {
    i64::MIN <= x <= i64::MAX
}

pub open spec fn fits_i128(x: int) -> bool {
    i128::MIN <= x <= i128::MAX
}

pub open spec fn i64_result(x: int) -> Outcome {
    if fits_i64(x) {
        ok(Value::Integer(x as i64))
    } else {
        None
    }
}

pub open spec fn i128_result(x: int) -> Outcome {
    if fits_i128(x) {
        ok(Value::Double(x as i128))
    } else {
        None
    }
}

pub open spec fn datetime_result(x: int) -> Outcome {
    if fits_i64(x) {
        ok(Value::DateTime(x as i64))
    } else {
        None
    }
}

// ------------------------------------------------------------------
// Integer and date functions
// ------------------------------------------------------------------

pub open spec fn sem_integer_eq(f: XacmlFunction, a: Value, b: Value) -> Outcome {
    match (a, b) {
        (Value::Integer(x), Value::Integer(y)) => ok_bool(x == y),
        (Value::Date(x), Value::Date(y)) => ok_bool(x == y),
        _ => mismatch(f, "Int64/NormalInteger, Int64/NormalInteger", pair_label(a, b)),
    }
}

pub open spec fn integer_cmp_of(f: XacmlFunction, x: i64, y: i64) -> Outcome {
    match f {
        XacmlFunction::IntegerGreaterThan => ok_bool(x > y),
        XacmlFunction::IntegerGreaterThanOrEqual => ok_bool(x >= y),
        XacmlFunction::IntegerLessThan => ok_bool(x < y),
        XacmlFunction::IntegerLessThanOrEqual => ok_bool(x <= y),
        XacmlFunction::DateGreaterThan => ok_bool(x > y),
        XacmlFunction::DateGreaterThanOrEqual => ok_bool(x >= y),
        XacmlFunction::DateLessThan => ok_bool(x < y),
        XacmlFunction::DateLessThanOrEqual => ok_bool(x <= y),
        _ => unsupported(f),
    }
}

pub open spec fn sem_integer_cmp(f: XacmlFunction, a: Value, b: Value) -> Outcome {
    match (a, b) {
        (Value::Integer(x), Value::Integer(y)) => integer_cmp_of(f, x, y),
        (Value::Date(x), Value::Date(y)) => integer_cmp_of(f, x, y),
        _ => mismatch(f, "Int64/NormalInteger, Int64/NormalInteger", pair_label(a, b)),
    }
}

pub open spec fn sem_integer_arith(f: XacmlFunction, a: Value, b: Value) -> Outcome {
    match (a, b) {
        (Value::Integer(x), Value::Integer(y)) => {
            if (f is IntegerDivide || f is IntegerMod) && y == 0 {
                mismatch(f, "Int64/NormalInteger with non-zero divisor", "divisor = 0")
            } else {
                match f {
                    XacmlFunction::IntegerAdd => i64_result(x + y),
                    XacmlFunction::IntegerSubtract => i64_result(x - y),
                    XacmlFunction::IntegerMultiply => i64_result(x * y),
                    XacmlFunction::IntegerDivide => i64_result(trunc_div(x as int, y as int)),
                    XacmlFunction::IntegerMod => if x == i64::MIN && y == -1 {
                        None
                    } else {
                        ok(Value::Integer(trunc_rem(x as int, y as int) as i64))
                    },
                    _ => unsupported(f),
                }
            }
        },
        _ => mismatch(f, "Int64/NormalInteger, Int64/NormalInteger", pair_label(a, b)),
    }
}

pub open spec fn sem_integer_abs(f: XacmlFunction, a: Value) -> Outcome {
    match a {
        Value::Integer(x) => i64_result(iabs(x as int)),
        _ => mismatch(f, "Int64/NormalInteger", plain_label(a)),
    }
}

// ------------------------------------------------------------------
// Boolean functions
// ------------------------------------------------------------------

pub open spec fn sem_not(f: XacmlFunction, a: Value) -> Outcome {
    match a {
        Value::Boolean(x) => ok_bool(!x),
        _ => mismatch(f, "Bool", plain_label(a)),
    }
}

pub open spec fn sem_bool_binop(f: XacmlFunction, a: Value, b: Value) -> Outcome {
    match (a, b) {
        (Value::Boolean(x), Value::Boolean(y)) => match f {
            XacmlFunction::And => ok_bool(x && y),
            XacmlFunction::Or => ok_bool(x || y),
            _ => unsupported(f),
        },
        (Value::Nothing, Value::Boolean(y)) => if f is And || f is Or {
            ok_bool(y)
        } else {
            unsupported(f)
        },
        (Value::Boolean(x), Value::Nothing) => if f is And || f is Or {
            ok_bool(x)
        } else {
            unsupported(f)
        },
        (Value::Nothing, Value::Nothing) => ok(Value::Nothing),
        _ => mismatch(f, "Bool, Bool", pair_label(a, b)),
    }
}

pub open spec fn sem_bool_eq(f: XacmlFunction, a: Value, b: Value) -> Outcome {
    match (a, b) {
        (Value::Boolean(x), Value::Boolean(y)) => ok_bool(x == y),
        _ => mismatch(f, "Bool, Bool", pair_label(a, b)),
    }
}

pub open spec fn sem_bool_if_else(f: XacmlFunction, a: Value, b: Value, c: Value) -> Outcome {
    match (a, b, c) {
        (Value::Boolean(x), Value::Boolean(y), Value::Boolean(z)) => ok_bool(if x { y } else { z }),
        _ => mismatch(f, "Bool, Bool", pair_label(a, b)),
    }
}

// ------------------------------------------------------------------
// Fixed-point double functions
// ------------------------------------------------------------------

pub open spec fn sem_double_eq(f: XacmlFunction, a: Value, b: Value) -> Outcome {
    match (a, b) {
        (Value::Double(x), Value::Double(y)) => ok_bool(x == y),
        _ => mismatch(f, "Double, Double", pair_label(a, b)),
    }
}

pub open spec fn sem_double_cmp(f: XacmlFunction, a: Value, b: Value) -> Outcome {
    match (a, b) {
        (Value::Double(x), Value::Double(y)) => match f {
            XacmlFunction::DoubleGreaterThan => ok_bool(x > y),
            XacmlFunction::DoubleGreaterThanOrEqual => ok_bool(x >= y),
            XacmlFunction::DoubleLessThan => ok_bool(x < y),
            XacmlFunction::DoubleLessThanOrEqual => ok_bool(x <= y),
            _ => unsupported(f),
        },
        _ => mismatch(f, "Double, Double", pair_label(a, b)),
    }
}

pub open spec fn sem_double_arith(f: XacmlFunction, a: Value, b: Value) -> Outcome {
    match (a, b) {
        (Value::Double(x), Value::Double(y)) => match f {
            XacmlFunction::DoubleAdd => i128_result(x + y),
            XacmlFunction::DoubleSubtract => i128_result(x - y),
            XacmlFunction::DoubleMultiply => i128_result(x * y),
            XacmlFunction::DoubleDivide => if y == 0 {
                None
            } else {
                i128_result(trunc_div(x as int, y as int))
            },
            _ => unsupported(f),
        },
        _ => mismatch(f, "Double, Double", pair_label(a, b)),
    }
}

pub open spec fn sem_double_abs(f: XacmlFunction, a: Value) -> Outcome {
    match a {
        Value::Double(x) => i128_result(iabs(x as int)),
        _ => mismatch(f, "Double", plain_label(a)),
    }
}

// ------------------------------------------------------------------
// Time, date-time and duration functions
// ------------------------------------------------------------------

pub open spec fn sem_time_eq(f: XacmlFunction, a: Value, b: Value) -> Outcome {
    match (a, b) {
        (Value::Time(x), Value::Time(y)) => ok_bool(x == y),
        _ => mismatch(f, "Time, Time", pair_label(a, b)),
    }
}

pub open spec fn sem_time_cmp(f: XacmlFunction, a: Value, b: Value) -> Outcome {
    match (a, b) {
        (Value::Time(x), Value::Time(y)) => match f {
            XacmlFunction::TimeGreaterThan => ok_bool(x > y),
            XacmlFunction::TimeGreaterThanOrEqual => ok_bool(x >= y),
            XacmlFunction::TimeLessThan => ok_bool(x < y),
            XacmlFunction::TimeLessThanOrEqual => ok_bool(x <= y),
            _ => unsupported(f),
        },
        _ => mismatch(f, "Time, Time", pair_label(a, b)),
    }
}

pub open spec fn sem_time_in_range(f: XacmlFunction, t: Value, s: Value, e: Value) -> Outcome {
    match (t, s, e) {
        (Value::Time(tt), Value::Time(ss), Value::Time(ee)) => ok_bool(ss <= tt && tt <= ee),
        _ => mismatch(f, "Time, Time, Time", triple_label(t, s, e)),
    }
}

pub open spec fn sem_datetime_eq(f: XacmlFunction, a: Value, b: Value) -> Outcome {
    match (a, b) {
        (Value::DateTime(x), Value::DateTime(y)) => ok_bool(x == y),
        _ => mismatch(f, "DateTime, DateTime", pair_label(a, b)),
    }
}

pub open spec fn sem_datetime_cmp(f: XacmlFunction, a: Value, b: Value) -> Outcome {
    match (a, b) {
        (Value::DateTime(x), Value::DateTime(y)) => match f {
            XacmlFunction::DateTimeGreaterThan => ok_bool(x > y),
            XacmlFunction::DateTimeGreaterThanOrEqual => ok_bool(x >= y),
            XacmlFunction::DateTimeLessThan => ok_bool(x < y),
            XacmlFunction::DateTimeLessThanOrEqual => ok_bool(x <= y),
            _ => unsupported(f),
        },
        _ => mismatch(f, "DateTime, DateTime", pair_label(a, b)),
    }
}

pub open spec fn sem_datetime_addsub_duration(f: XacmlFunction, a: Value, b: Value) -> Outcome {
    match (a, b) {
        (Value::DateTime(x), Value::DayTimeDuration(d)) => match f {
            XacmlFunction::DateTimeAddDayTimeDuration => datetime_result(x + d),
            XacmlFunction::DateTimeSubtractDayTimeDuration => datetime_result(x - d),
            _ => mismatch(f, "DateTime +/- DayTimeDuration", "Mismatched duration kind"),
        },
        (Value::DateTime(x), Value::YearMonthDuration(d)) => match f {
            XacmlFunction::DateTimeAddYearMonthDuration => datetime_result(x + d),
            XacmlFunction::DateTimeSubtractYearMonthDuration => datetime_result(x - d),
            _ => mismatch(f, "DateTime +/- YearMonthDuration", "Mismatched duration kind"),
        },
        _ => mismatch(f, "DateTime, (DayTimeDuration|YearMonthDuration)", pair_label(a, b)),
    }
}

pub open spec fn sem_daytimeduration_eq(f: XacmlFunction, a: Value, b: Value) -> Outcome {
    match (a, b) {
        (Value::DayTimeDuration(x), Value::DayTimeDuration(y)) => ok_bool(x == y),
        _ => mismatch(f, "DayTimeDuration, DayTimeDuration", pair_label(a, b)),
    }
}

pub open spec fn sem_yearmonthduration_eq(f: XacmlFunction, a: Value, b: Value) -> Outcome {
    match (a, b) {
        (Value::YearMonthDuration(x), Value::YearMonthDuration(y)) => ok_bool(x == y),
        _ => mismatch(f, "YearMonthDuration, YearMonthDuration", pair_label(a, b)),
    }
}

// ------------------------------------------------------------------
// String and URI functions
// ------------------------------------------------------------------

pub open spec fn sem_string_eq(f: XacmlFunction, a: Value, b: Value) -> Outcome {
    match (a, b) {
        (Value::Str(x), Value::Str(y)) => ok_bool(x == y),
        _ => mismatch(f, "String, String", pair_label(a, b)),
    }
}

pub open spec fn sem_string_eq_ignore_case(f: XacmlFunction, a: Value, b: Value) -> Outcome {
    match (a, b) {
        (Value::Str(x), Value::Str(y)) => ok_bool(eq_ignore_ascii_case(x, y)),
        _ => mismatch(f, "String, String", pair_label(a, b)),
    }
}

pub open spec fn sem_string_concat(f: XacmlFunction, a: Value, b: Value) -> Outcome {
    match (a, b) {
        (Value::Str(x), Value::Str(y)) => ok(Value::Str(x + y)),
        _ => mismatch(f, "String, String", pair_label(a, b)),
    }
}

pub open spec fn sem_string_contains(f: XacmlFunction, a: Value, b: Value) -> Outcome {
    match (a, b) {
        (Value::Str(x), Value::Str(y)) => ok_bool(seq_contains(x, y)),
        _ => mismatch(f, "String, String", pair_label(a, b)),
    }
}

pub open spec fn sem_string_starts_with(f: XacmlFunction, a: Value, b: Value) -> Outcome {
    match (a, b) {
        (Value::Str(x), Value::Str(y)) => ok_bool(seq_starts_with(x, y)),
        _ => mismatch(f, "String, String", pair_label(a, b)),
    }
}

pub open spec fn sem_string_ends_with(f: XacmlFunction, a: Value, b: Value) -> Outcome {
    match (a, b) {
        (Value::Str(x), Value::Str(y)) => ok_bool(seq_ends_with(x, y)),
        _ => mismatch(f, "String, String", pair_label(a, b)),
    }
}

pub open spec fn sem_anyuri_eq(f: XacmlFunction, a: Value, b: Value) -> Outcome {
    match (a, b) {
        (Value::AnyUri(x), Value::AnyUri(y)) => ok_bool(x == y),
        (Value::AnyUri(x), Value::Str(y)) => ok_bool(x == y),
        (Value::Str(y), Value::AnyUri(x)) => ok_bool(x == y),
        _ => mismatch(f, "AnyUri(String), AnyUri(String)", pair_label(a, b)),
    }
}

/// The URI operand and the pattern operand of a URI pattern function.
pub open spec fn uri_operands(a: Value, b: Value) -> Option<(Seq<char>, Seq<char>)> {
    match (a, b) {
        (Value::AnyUri(x), Value::AnyUri(y)) => Some((x, y)),
        (Value::AnyUri(x), Value::Str(y)) => Some((x, y)),
        _ => None,
    }
}

pub open spec fn sem_anyuri_contains(f: XacmlFunction, a: Value, b: Value) -> Outcome {
    match uri_operands(a, b) {
        Some((x, y)) => ok_bool(seq_contains(x, y)),
        None => mismatch(f, "AnyUri(String), (AnyUri|String)", pair_label(a, b)),
    }
}

pub open spec fn sem_anyuri_starts_with(f: XacmlFunction, a: Value, b: Value) -> Outcome {
    match uri_operands(a, b) {
        Some((x, y)) => ok_bool(seq_starts_with(x, y)),
        None => mismatch(f, "AnyUri(String), (AnyUri|String)", pair_label(a, b)),
    }
}

pub open spec fn sem_anyuri_ends_with(f: XacmlFunction, a: Value, b: Value) -> Outcome {
    match uri_operands(a, b) {
        Some((x, y)) => ok_bool(seq_ends_with(x, y)),
        None => mismatch(f, "AnyUri(String), (AnyUri|String)", pair_label(a, b)),
    }
}

pub open spec fn sem_vec_eq(f: XacmlFunction, a: Value, b: Value) -> Outcome {
    match (a, b) {
        (Value::Base64Binary(x), Value::Base64Binary(y)) => ok_bool(x == y),
        (Value::HexBinary(x), Value::HexBinary(y)) => ok_bool(x == y),
        _ => mismatch(
            f,
            "HexBinary/Base64Binary(Vec<u8>), HexBinary/Base64Binary(Vec<u8>)",
            pair_label(a, b),
        ),
    }
}

// ------------------------------------------------------------------
// Names
// ------------------------------------------------------------------

pub open spec fn sem_rfc822name_eq(f: XacmlFunction, a: Value, b: Value) -> Outcome {
    match (a, b) {
        (Value::Rfc822Name(x1, x2), Value::Rfc822Name(y1, y2)) => ok_bool(
            x1 == y1 && unicode_lowercase(x2) == unicode_lowercase(y2),
        ),
        _ => mismatch(f, "AnyUri(FheAsciiString), (AnyUri|String)(FheAsciiString)", pair_label(a, b)),
    }
}

pub open spec fn has_key(m: Seq<(Seq<char>, Seq<char>)>, k: Seq<char>) -> bool {
    exists|i: int| 0 <= i < m.len() && (#[trigger] m[i]).0 == k
}

/// The value of the first entry of `m`, from position `i` on, whose key is `k`.
pub open spec fn value_at_from(m: Seq<(Seq<char>, Seq<char>)>, k: Seq<char>, i: int) -> Seq<char>
    decreases m.len() - i,
{
    if i < 0 || i >= m.len() {
        Seq::empty()
    } else if m[i].0 == k {
        m[i].1
    } else {
        value_at_from(m, k, i + 1)
    }
}

/// The value of the first entry of `m` whose key is `k`.
pub open spec fn value_at(m: Seq<(Seq<char>, Seq<char>)>, k: Seq<char>) -> Seq<char> {
    value_at_from(m, k, 0)
}

pub open spec fn x500_error(message: &'static str) -> Outcome {
    Some(Err(DispatchError::X500NameNotAllFieldsSupplied { message }))
}

pub open spec fn sem_x500name_eq(f: XacmlFunction, a: Value, b: Value) -> Outcome {
    match (a, b) {
        (Value::X500Name(x), Value::X500Name(y)) => {
            if x.len() != y.len() {
                x500_error("the set of keys is not equal")
            } else if exists|i: int| 0 <= i < x.len() && !has_key(y, (#[trigger] x[i]).0) {
                x500_error("one of the keys is not found in the set of other keys")
            } else if x.len() == 0 {
                x500_error(
                    "fatal error: could not find key in X500Name type variable, mismatched keys",
                )
            } else {
                ok_bool(forall|i: int| 0 <= i < x.len() ==> value_at(y, (#[trigger] x[i]).0) == x[i].1)
            }
        },
        _ => mismatch(f, "AnyUri(FheAsciiString), (AnyUri|String)(FheAsciiString)", pair_label(a, b)),
    }
}

// ------------------------------------------------------------------
// Bags of strings
// ------------------------------------------------------------------

/// The first element of `s`, from position `i` on, that is not a string.
pub open spec fn first_non_str_from(s: Seq<Value>, i: int) -> Option<Value>
    decreases s.len() - i,
{
    if i < 0 || i >= s.len() {
        None
    } else if !(s[i] is Str) {
        Some(s[i])
    } else {
        first_non_str_from(s, i + 1)
    }
}

/// The characters of a string value.
pub open spec fn str_of(v: Value) -> Seq<char> {
    match v {
        Value::Str(s) => s,
        _ => Seq::empty(),
    }
}

pub open spec fn indeterminate(f: XacmlFunction, reason: &'static str) -> Outcome {
    Some(Err(DispatchError::Indeterminate { func: f, reason }))
}

pub open spec fn sem_string_one_and_only(f: XacmlFunction, bag: Value) -> Outcome {
    match bag {
        Value::Bag(vs) => if vs.len() != 1 {
            indeterminate(f, "string-one-and-only requires exactly one value in the bag")
        } else {
            match vs[0] {
                Value::Str(_) => ok(vs[0]),
                other => mismatch(f, "String", plain_label(other)),
            }
        },
        _ => mismatch(f, "Bag", plain_label(bag)),
    }
}

pub open spec fn sem_string_bag_size(f: XacmlFunction, bag: Value) -> Outcome {
    match bag {
        Value::Bag(vs) => match first_non_str_from(vs, 0) {
            Some(v) => mismatch(f, "Bag(String)", plain_label(v)),
            None => if vs.len() <= i64::MAX {
                ok(Value::Integer(vs.len() as i64))
            } else {
                indeterminate(f, "bag size does not fit into NormalInteger")
            },
        },
        _ => mismatch(f, "Bag", plain_label(bag)),
    }
}

pub open spec fn sem_string_is_in(f: XacmlFunction, value: Value, bag: Value) -> Outcome {
    match value {
        Value::Str(s) => match bag {
            Value::Bag(vs) => match first_non_str_from(vs, 0) {
                Some(v) => mismatch(f, "Bag(String)", plain_label(v)),
                None => ok_bool(exists|i: int| 0 <= i < vs.len() && str_of(#[trigger] vs[i]) == s),
            },
            _ => mismatch(f, "Bag", plain_label(bag)),
        },
        _ => mismatch(f, "String", plain_label(value)),
    }
}

/// The strings of `args` from position `i` on, or the error for the first
/// argument that is missing or not a string.
pub open spec fn bag_args_from(f: XacmlFunction, args: Seq<Option<Value>>, i: int) -> Result<Seq<Value>, DispatchError>
    decreases args.len() - i,
{
    if i < 0 || i >= args.len() {
        Ok(Seq::empty())
    } else {
        match args[i] {
            None => Err(DispatchError::Indeterminate { func: f, reason: "missing argument in string-bag" }),
            Some(v) => if v is Str {
                match bag_args_from(f, args, i + 1) {
                    Ok(rest) => Ok(seq![v] + rest),
                    Err(e) => Err(e),
                }
            } else {
                Err(DispatchError::TypeMismatch { func: f, expected: "String", got: plain_label(v) })
            },
        }
    }
}

pub open spec fn sem_string_bag(f: XacmlFunction, args: Seq<Option<Value>>) -> Outcome {
    match bag_args_from(f, args, 0) {
        Ok(vs) => ok(Value::Bag(vs)),
        Err(e) => Some(Err(e)),
    }
}

/// The strings held by a string or a bag of strings.
pub open spec fn string_values(f: XacmlFunction, v: Value) -> Result<Seq<Seq<char>>, DispatchError> {
    match v {
        Value::Str(s) => Ok(seq![s]),
        Value::Bag(vs) => match first_non_str_from(vs, 0) {
            Some(w) => Err(
                DispatchError::TypeMismatch { func: f, expected: "String or Bag(String)", got: plain_label(w) },
            ),
            None => Ok(vs.map_values(|w: Value| str_of(w))),
        },
        _ => Err(DispatchError::TypeMismatch { func: f, expected: "String or Bag(String)", got: plain_label(v) }),
    }
}

/// Some string occurs in both sequences.
pub open spec fn share_member(ls: Seq<Seq<char>>, rs: Seq<Seq<char>>) -> bool {
    exists|i: int, j: int| 0 <= i < ls.len() && 0 <= j < rs.len() && #[trigger] ls[i] == #[trigger] rs[j]
}

pub open spec fn sem_string_at_least_one_member_of(f: XacmlFunction, l: Value, r: Value) -> Outcome {
    match string_values(f, l) {
        Err(e) => Some(Err(e)),
        Ok(ls) => match string_values(f, r) {
            Err(e) => Some(Err(e)),
            Ok(rs) => ok_bool(share_member(ls, rs)),
        },
    }
}

/// at-least-one-member-of is symmetric: where it succeeds on `(l, r)`, it
/// succeeds on `(r, l)` with the same truth value.
pub proof fn lemma_at_least_one_member_of_commutes(f: XacmlFunction, l: Value, r: Value)
    ensures
        sem_string_at_least_one_member_of(f, l, r) matches Some(Ok(v)) ==> sem_string_at_least_one_member_of(f, r, l)
            == Some(Ok::<Value, DispatchError>(v)),
{
    if string_values(f, l) is Ok && string_values(f, r) is Ok {
        let ls = string_values(f, l)->Ok_0;
        let rs = string_values(f, r)->Ok_0;
        assert(share_member(ls, rs) == share_member(rs, ls)) by {
            if share_member(ls, rs) {
                let (i, j) = choose|i: int, j: int| 0 <= i < ls.len() && 0 <= j < rs.len() && #[trigger] ls[i] == #[trigger] rs[j];
                assert(rs[j] == ls[i]);
            }
            if share_member(rs, ls) {
                let (i, j) = choose|i: int, j: int| 0 <= i < rs.len() && 0 <= j < ls.len() && #[trigger] rs[i] == #[trigger] ls[j];
                assert(ls[j] == rs[i]);
            }
        }
    }
}

// ------------------------------------------------------------------
// Boolean functions of any arity
// ------------------------------------------------------------------

/// The truth values of `args` from position `i` on (absent values skipped),
/// or the error for the first argument that is missing or not a truth value.
pub open spec fn bool_args_from(f: XacmlFunction, args: Seq<Option<Value>>, i: int) -> Result<Seq<bool>, DispatchError>
    decreases args.len() - i,
{
    if i < 0 || i >= args.len() {
        Ok(Seq::empty())
    } else {
        match args[i] {
            None => Err(
                DispatchError::Indeterminate { func: f, reason: "missing argument in boolean vector operation" },
            ),
            Some(Value::Boolean(b)) => match bool_args_from(f, args, i + 1) {
                Ok(rest) => Ok(seq![b] + rest),
                Err(e) => Err(e),
            },
            Some(Value::Nothing) => bool_args_from(f, args, i + 1),
            Some(v) => Err(DispatchError::TypeMismatch { func: f, expected: "Bool", got: plain_label(v) }),
        }
    }
}

pub open spec fn sem_bool_vec(f: XacmlFunction, args: Seq<Option<Value>>) -> Outcome {
    if args.len() == 0 {
        Some(Err(DispatchError::ArityMismatch { func: f, expected: 1, got: 0 }))
    } else {
        match bool_args_from(f, args, 0) {
            Err(e) => Some(Err(e)),
            Ok(bs) => if bs.len() == 0 {
                ok(Value::Nothing)
            } else {
                match f {
                    XacmlFunction::And => ok_bool(forall|i: int| 0 <= i < bs.len() ==> #[trigger] bs[i]),
                    XacmlFunction::Or => ok_bool(exists|i: int| 0 <= i < bs.len() && #[trigger] bs[i]),
                    _ => unsupported(f),
                }
            },
        }
    }
}

// ------------------------------------------------------------------
// Dispatch
// ------------------------------------------------------------------

/// The implementation that serves each supported function.
pub open spec fn plain_op(f: XacmlFunction) -> Result<PlainOp, DispatchError> {
    match f {
        XacmlFunction::IntegerEqual => Ok(PlainOp::Binary(BinaryImpl::IntegerEq)),
        XacmlFunction::DateEqual => Ok(PlainOp::Binary(BinaryImpl::IntegerEq)),
        XacmlFunction::IntegerGreaterThan => Ok(PlainOp::Binary(BinaryImpl::IntegerCmp)),
        XacmlFunction::IntegerGreaterThanOrEqual => Ok(PlainOp::Binary(BinaryImpl::IntegerCmp)),
        XacmlFunction::IntegerLessThan => Ok(PlainOp::Binary(BinaryImpl::IntegerCmp)),
        XacmlFunction::IntegerLessThanOrEqual => Ok(PlainOp::Binary(BinaryImpl::IntegerCmp)),
        XacmlFunction::DateLessThanOrEqual => Ok(PlainOp::Binary(BinaryImpl::IntegerCmp)),
        XacmlFunction::DateLessThan => Ok(PlainOp::Binary(BinaryImpl::IntegerCmp)),
        XacmlFunction::DateGreaterThan => Ok(PlainOp::Binary(BinaryImpl::IntegerCmp)),
        XacmlFunction::DateGreaterThanOrEqual => Ok(PlainOp::Binary(BinaryImpl::IntegerCmp)),
        XacmlFunction::IntegerAdd => Ok(PlainOp::Binary(BinaryImpl::IntegerArith)),
        XacmlFunction::IntegerSubtract => Ok(PlainOp::Binary(BinaryImpl::IntegerArith)),
        XacmlFunction::IntegerMultiply => Ok(PlainOp::Binary(BinaryImpl::IntegerArith)),
        XacmlFunction::IntegerDivide => Ok(PlainOp::Binary(BinaryImpl::IntegerArith)),
        XacmlFunction::IntegerMod => Ok(PlainOp::Binary(BinaryImpl::IntegerArith)),
        XacmlFunction::IntegerAbs => Ok(PlainOp::Unary(UnaryImpl::IntegerAbs)),
        XacmlFunction::Not => Ok(PlainOp::Unary(UnaryImpl::Not)),
        XacmlFunction::And => Ok(PlainOp::Binary(BinaryImpl::BoolBinop)),
        XacmlFunction::Or => Ok(PlainOp::Binary(BinaryImpl::BoolBinop)),
        XacmlFunction::BooleanEqual => Ok(PlainOp::Binary(BinaryImpl::BoolEq)),
        XacmlFunction::IfElse => Ok(PlainOp::Ternary(TernaryImpl::BoolIfElse)),
        XacmlFunction::DoubleEqual => Ok(PlainOp::Binary(BinaryImpl::DoubleEq)),
        XacmlFunction::DoubleGreaterThan => Ok(PlainOp::Binary(BinaryImpl::DoubleCmp)),
        XacmlFunction::DoubleGreaterThanOrEqual => Ok(PlainOp::Binary(BinaryImpl::DoubleCmp)),
        XacmlFunction::DoubleLessThan => Ok(PlainOp::Binary(BinaryImpl::DoubleCmp)),
        XacmlFunction::DoubleLessThanOrEqual => Ok(PlainOp::Binary(BinaryImpl::DoubleCmp)),
        XacmlFunction::DoubleAdd => Ok(PlainOp::Binary(BinaryImpl::DoubleArith)),
        XacmlFunction::DoubleSubtract => Ok(PlainOp::Binary(BinaryImpl::DoubleArith)),
        XacmlFunction::DoubleMultiply => Ok(PlainOp::Binary(BinaryImpl::DoubleArith)),
        XacmlFunction::DoubleDivide => Ok(PlainOp::Binary(BinaryImpl::DoubleArith)),
        XacmlFunction::DoubleAbs => Ok(PlainOp::Unary(UnaryImpl::DoubleAbs)),
        XacmlFunction::TimeEqual => Ok(PlainOp::Binary(BinaryImpl::TimeEq)),
        XacmlFunction::TimeGreaterThan => Ok(PlainOp::Binary(BinaryImpl::TimeCmp)),
        XacmlFunction::TimeGreaterThanOrEqual => Ok(PlainOp::Binary(BinaryImpl::TimeCmp)),
        XacmlFunction::TimeLessThan => Ok(PlainOp::Binary(BinaryImpl::TimeCmp)),
        XacmlFunction::TimeLessThanOrEqual => Ok(PlainOp::Binary(BinaryImpl::TimeCmp)),
        XacmlFunction::TimeInRange => Ok(PlainOp::Ternary(TernaryImpl::TimeInRange)),
        XacmlFunction::DateTimeEqual => Ok(PlainOp::Binary(BinaryImpl::DateTimeEq)),
        XacmlFunction::DateTimeGreaterThan => Ok(PlainOp::Binary(BinaryImpl::DateTimeCmp)),
        XacmlFunction::DateTimeGreaterThanOrEqual => Ok(PlainOp::Binary(BinaryImpl::DateTimeCmp)),
        XacmlFunction::DateTimeLessThan => Ok(PlainOp::Binary(BinaryImpl::DateTimeCmp)),
        XacmlFunction::DateTimeLessThanOrEqual => Ok(PlainOp::Binary(BinaryImpl::DateTimeCmp)),
        XacmlFunction::DateTimeAddDayTimeDuration => Ok(PlainOp::Binary(BinaryImpl::DateTimeAddSubDuration)),
        XacmlFunction::DateTimeAddYearMonthDuration => Ok(PlainOp::Binary(BinaryImpl::DateTimeAddSubDuration)),
        XacmlFunction::DateTimeSubtractDayTimeDuration => Ok(PlainOp::Binary(BinaryImpl::DateTimeAddSubDuration)),
        XacmlFunction::DateTimeSubtractYearMonthDuration => Ok(PlainOp::Binary(BinaryImpl::DateTimeAddSubDuration)),
        XacmlFunction::DayTimeDurationEqual => Ok(PlainOp::Binary(BinaryImpl::DayTimeDurationEq)),
        XacmlFunction::YearMonthDurationEqual => Ok(PlainOp::Binary(BinaryImpl::YearMonthDurationEq)),
        XacmlFunction::AnyUriEqual => Ok(PlainOp::Binary(BinaryImpl::AnyUriEq)),
        XacmlFunction::StringEqual => Ok(PlainOp::Binary(BinaryImpl::StringEq)),
        XacmlFunction::StringEqualIgnoreCase => Ok(PlainOp::Binary(BinaryImpl::StringEqIgnoreCase)),
        XacmlFunction::StringConcatenate => Ok(PlainOp::Binary(BinaryImpl::StringConcat)),
        XacmlFunction::StringContains => Ok(PlainOp::Binary(BinaryImpl::StringContains)),
        XacmlFunction::StringStartsWith => Ok(PlainOp::Binary(BinaryImpl::StringStartsWith)),
        XacmlFunction::StringEndsWith => Ok(PlainOp::Binary(BinaryImpl::StringEndsWith)),
        XacmlFunction::AnyUriContains => Ok(PlainOp::Binary(BinaryImpl::AnyUriContains)),
        XacmlFunction::AnyUriStartsWith => Ok(PlainOp::Binary(BinaryImpl::AnyUriStartsWith)),
        XacmlFunction::AnyUriEndsWith => Ok(PlainOp::Binary(BinaryImpl::AnyUriEndsWith)),
        XacmlFunction::Rfc822NameEqual => Ok(PlainOp::Binary(BinaryImpl::Rfc822NameEq)),
        XacmlFunction::X500NameEqual => Ok(PlainOp::Binary(BinaryImpl::X500NameEq)),
        XacmlFunction::Base64BinaryEqual => Ok(PlainOp::Binary(BinaryImpl::VecEq)),
        XacmlFunction::HexBinaryEqual => Ok(PlainOp::Binary(BinaryImpl::VecEq)),
        XacmlFunction::AllOf(_) => Ok(PlainOp::Binary(BinaryImpl::AllOf)),
        XacmlFunction::AnyOf(_) => Ok(PlainOp::Binary(BinaryImpl::AnyOf)),
        XacmlFunction::AnyOfAny(_) => Ok(PlainOp::Binary(BinaryImpl::AnyOfAny)),
        XacmlFunction::AnyOfAll(_) => Ok(PlainOp::Binary(BinaryImpl::AnyOfAll)),
        XacmlFunction::AllOfAny(_) => Ok(PlainOp::Binary(BinaryImpl::AllOfAny)),
        XacmlFunction::AllOfAll(_) => Ok(PlainOp::Binary(BinaryImpl::AllOfAll)),
        XacmlFunction::StringOneAndOnly => Ok(PlainOp::Unary(UnaryImpl::StringOneAndOnly)),
        XacmlFunction::StringBagSize => Ok(PlainOp::Unary(UnaryImpl::StringBagSize)),
        XacmlFunction::StringIsIn => Ok(PlainOp::Binary(BinaryImpl::StringIsIn)),
        XacmlFunction::StringAtLeastOneMemberOf => Ok(PlainOp::Binary(BinaryImpl::StringAtLeastOneMemberOf)),
        _ => Err(DispatchError::UnsupportedFunction { func: f }),
    }
}

pub open spec fn sem_unary_impl(k: UnaryImpl, f: XacmlFunction, a: Value) -> Outcome {
    match k {
        UnaryImpl::IntegerAbs => sem_integer_abs(f, a),
        UnaryImpl::Not => sem_not(f, a),
        UnaryImpl::DoubleAbs => sem_double_abs(f, a),
        UnaryImpl::StringOneAndOnly => sem_string_one_and_only(f, a),
        UnaryImpl::StringBagSize => sem_string_bag_size(f, a),
    }
}

pub open spec fn sem_ternary_impl(k: TernaryImpl, f: XacmlFunction, a: Value, b: Value, c: Value) -> Outcome {
    match k {
        TernaryImpl::BoolIfElse => sem_bool_if_else(f, a, b, c),
        TernaryImpl::TimeInRange => sem_time_in_range(f, a, b, c),
    }
}

pub open spec fn sem_unary(f: XacmlFunction, a: Value) -> Outcome {
    match plain_op(f) {
        Ok(PlainOp::Unary(k)) => sem_unary_impl(k, f, a),
        Ok(_) => Some(Err(DispatchError::ArityMismatch { func: f, expected: 1, got: 1 })),
        Err(e) => Some(Err(e)),
    }
}

pub open spec fn sem_ternary(f: XacmlFunction, a: Value, b: Value, c: Value) -> Outcome {
    match plain_op(f) {
        Ok(PlainOp::Ternary(k)) => sem_ternary_impl(k, f, a, b, c),
        Ok(_) => Some(Err(DispatchError::ArityMismatch { func: f, expected: 3, got: 3 })),
        Err(e) => Some(Err(e)),
    }
}

/// A predicate's outcome read as a truth value.
pub open spec fn pred_outcome(p: XacmlFunction, o: Outcome) -> BoolOutcome {
    match o {
        None => None,
        Some(Err(e)) => Some(Err(e)),
        Some(Ok(Value::Boolean(x))) => Some(Ok(x)),
        Some(Ok(v)) => Some(Err(DispatchError::TypeMismatch { func: p, expected: "Bool", got: plain_label(v) })),
    }
}

/// The inner predicate of a quantified function, applied to `a` and `b`.
pub open spec fn sem_pred(f: XacmlFunction, a: Value, b: Value) -> BoolOutcome
    decreases f, 0int, 0int,
{
    match f {
        XacmlFunction::AnyOf(Some(p)) => pred_outcome(*p, sem_binary(*p, a, b)),
        XacmlFunction::AllOf(Some(p)) => pred_outcome(*p, sem_binary(*p, a, b)),
        XacmlFunction::AnyOfAny(Some(p)) => pred_outcome(*p, sem_binary(*p, a, b)),
        XacmlFunction::AllOfAny(Some(p)) => pred_outcome(*p, sem_binary(*p, a, b)),
        XacmlFunction::AnyOfAll(Some(p)) => pred_outcome(*p, sem_binary(*p, a, b)),
        XacmlFunction::AllOfAll(Some(p)) => pred_outcome(*p, sem_binary(*p, a, b)),
        _ => Some(Ok(false)),
    }
}

/// Combines a truth value with the outcome of the rest of a fold.
pub open spec fn fold_step(conj: bool, x: bool, rest: BoolOutcome) -> BoolOutcome {
    match rest {
        Some(Ok(y)) => Some(Ok(if conj { x && y } else { x || y })),
        other => other,
    }
}

/// The predicate applied between `fixed` and each of `elems` from position
/// `i` on (with `fixed` first or second), folded by conjunction or
/// disjunction; the first error met ends the fold.
pub open spec fn sem_row(
    f: XacmlFunction,
    fixed: Value,
    elems: Seq<Value>,
    i: int,
    fixed_first: bool,
    conj: bool,
) -> BoolOutcome
    decreases f, 1int, elems.len() - i,
{
    if i < 0 || i >= elems.len() {
        Some(Ok(conj))
    } else {
        let p = if fixed_first {
            sem_pred(f, fixed, elems[i])
        } else {
            sem_pred(f, elems[i], fixed)
        };
        match p {
            None => None,
            Some(Err(e)) => Some(Err(e)),
            Some(Ok(x)) => fold_step(conj, x, sem_row(f, fixed, elems, i + 1, fixed_first, conj)),
        }
    }
}

/// A row fold for each of `outer` from position `i` on, folded again.
pub open spec fn sem_grid(
    f: XacmlFunction,
    outer: Seq<Value>,
    inner: Seq<Value>,
    i: int,
    outer_first: bool,
    outer_conj: bool,
    inner_conj: bool,
) -> BoolOutcome
    decreases f, 2int, outer.len() - i,
{
    if i < 0 || i >= outer.len() {
        Some(Ok(outer_conj))
    } else {
        match sem_row(f, outer[i], inner, 0, outer_first, inner_conj) {
            None => None,
            Some(Err(e)) => Some(Err(e)),
            Some(Ok(x)) => fold_step(
                outer_conj,
                x,
                sem_grid(f, outer, inner, i + 1, outer_first, outer_conj, inner_conj),
            ),
        }
    }
}

pub open spec fn bool_result(o: BoolOutcome) -> Outcome {
    match o {
        None => None,
        Some(Err(e)) => Some(Err(e)),
        Some(Ok(x)) => ok_bool(x),
    }
}

pub open spec fn absent_inner(message: &'static str) -> Outcome {
    Some(Err(DispatchError::AbsentInnerFunction { message }))
}

/// any-of: the predicate holds between `value` and some element of `bag`.
pub open spec fn sem_any_of(f: XacmlFunction, value: Value, bag: Value) -> Outcome
    decreases f, 3int, 0int,
{
    match (bag, f) {
        (Value::Bag(b), XacmlFunction::AnyOf(None)) => absent_inner(
            "no inner function found in any-of function evaluation",
        ),
        (Value::Bag(b), XacmlFunction::AnyOf(Some(_))) => bool_result(sem_row(f, value, b, 0, true, false)),
        _ => mismatch(f, "Bag", plain_label(bag)),
    }
}

/// all-of: the predicate holds between `value` and every element of `bag`.
pub open spec fn sem_all_of(f: XacmlFunction, value: Value, bag: Value) -> Outcome
    decreases f, 3int, 0int,
{
    match (bag, f) {
        (Value::Bag(b), XacmlFunction::AllOf(None)) => absent_inner(
            "no inner function found in all-of function evaluation",
        ),
        (Value::Bag(b), XacmlFunction::AllOf(Some(_))) => bool_result(sem_row(f, value, b, 0, true, true)),
        _ => mismatch(f, "Bag", plain_label(bag)),
    }
}

/// any-of-any: the predicate holds for some pair drawn from the two bags.
pub open spec fn sem_any_of_any(f: XacmlFunction, a: Value, b: Value) -> Outcome
    decreases f, 3int, 0int,
{
    match (a, b, f) {
        (Value::Bag(b1), Value::Bag(b2), XacmlFunction::AnyOfAny(None)) => absent_inner(
            "no inner function found in any-of-any function evaluation",
        ),
        (Value::Bag(b1), Value::Bag(b2), XacmlFunction::AnyOfAny(Some(_))) => bool_result(
            sem_grid(f, b1, b2, 0, true, false, false),
        ),
        _ => mismatch(f, "Bag, Bag", pair_label(a, b)),
    }
}

/// all-of-any: every element of the first bag relates to some element of the second.
pub open spec fn sem_all_of_any(f: XacmlFunction, a: Value, b: Value) -> Outcome
    decreases f, 3int, 0int,
{
    match (a, b, f) {
        (Value::Bag(b1), Value::Bag(b2), XacmlFunction::AllOfAny(None)) => absent_inner(
            "no inner function found in all-of-any function evaluation",
        ),
        (Value::Bag(b1), Value::Bag(b2), XacmlFunction::AllOfAny(Some(_))) => bool_result(
            sem_grid(f, b1, b2, 0, true, true, false),
        ),
        _ => mismatch(f, "Bag, Bag", pair_label(a, b)),
    }
}

/// any-of-all: every element of the second bag is related to by some element of the first.
pub open spec fn sem_any_of_all(f: XacmlFunction, a: Value, b: Value) -> Outcome
    decreases f, 3int, 0int,
{
    match (a, b, f) {
        (Value::Bag(b1), Value::Bag(b2), XacmlFunction::AnyOfAll(None)) => absent_inner(
            "no inner function found in any-of-all function evaluation",
        ),
        (Value::Bag(b1), Value::Bag(b2), XacmlFunction::AnyOfAll(Some(_))) => bool_result(
            sem_grid(f, b2, b1, 0, false, true, false),
        ),
        _ => mismatch(f, "Bag, Bag", pair_label(a, b)),
    }
}

/// all-of-all: the predicate holds for every pair drawn from the two bags.
pub open spec fn sem_all_of_all(f: XacmlFunction, a: Value, b: Value) -> Outcome
    decreases f, 3int, 0int,
{
    match (a, b, f) {
        (Value::Bag(b1), Value::Bag(b2), XacmlFunction::AllOfAll(None)) => absent_inner(
            "no inner function found in all-of-all function evaluation",
        ),
        (Value::Bag(b1), Value::Bag(b2), XacmlFunction::AllOfAll(Some(_))) => bool_result(
            sem_grid(f, b1, b2, 0, true, true, true),
        ),
        _ => mismatch(f, "Bag, Bag", pair_label(a, b)),
    }
}

pub open spec fn sem_binary_impl(k: BinaryImpl, f: XacmlFunction, a: Value, b: Value) -> Outcome
    decreases f, 4int, 0int,
{
    match k {
        BinaryImpl::IntegerEq => sem_integer_eq(f, a, b),
        BinaryImpl::IntegerCmp => sem_integer_cmp(f, a, b),
        BinaryImpl::IntegerArith => sem_integer_arith(f, a, b),
        BinaryImpl::BoolBinop => sem_bool_binop(f, a, b),
        BinaryImpl::BoolEq => sem_bool_eq(f, a, b),
        BinaryImpl::DoubleEq => sem_double_eq(f, a, b),
        BinaryImpl::DoubleCmp => sem_double_cmp(f, a, b),
        BinaryImpl::DoubleArith => sem_double_arith(f, a, b),
        BinaryImpl::TimeEq => sem_time_eq(f, a, b),
        BinaryImpl::TimeCmp => sem_time_cmp(f, a, b),
        BinaryImpl::DateTimeEq => sem_datetime_eq(f, a, b),
        BinaryImpl::DateTimeCmp => sem_datetime_cmp(f, a, b),
        BinaryImpl::DateTimeAddSubDuration => sem_datetime_addsub_duration(f, a, b),
        BinaryImpl::DayTimeDurationEq => sem_daytimeduration_eq(f, a, b),
        BinaryImpl::YearMonthDurationEq => sem_yearmonthduration_eq(f, a, b),
        BinaryImpl::AnyUriEq => sem_anyuri_eq(f, a, b),
        BinaryImpl::StringEq => sem_string_eq(f, a, b),
        BinaryImpl::StringEqIgnoreCase => sem_string_eq_ignore_case(f, a, b),
        BinaryImpl::StringConcat => sem_string_concat(f, a, b),
        BinaryImpl::StringContains => sem_string_contains(f, a, b),
        BinaryImpl::StringStartsWith => sem_string_starts_with(f, a, b),
        BinaryImpl::StringEndsWith => sem_string_ends_with(f, a, b),
        BinaryImpl::AnyUriContains => sem_anyuri_contains(f, a, b),
        BinaryImpl::AnyUriStartsWith => sem_anyuri_starts_with(f, a, b),
        BinaryImpl::AnyUriEndsWith => sem_anyuri_ends_with(f, a, b),
        BinaryImpl::Rfc822NameEq => sem_rfc822name_eq(f, a, b),
        BinaryImpl::X500NameEq => sem_x500name_eq(f, a, b),
        BinaryImpl::VecEq => sem_vec_eq(f, a, b),
        BinaryImpl::AllOf => sem_all_of(f, a, b),
        BinaryImpl::AnyOf => sem_any_of(f, a, b),
        BinaryImpl::AnyOfAny => sem_any_of_any(f, a, b),
        BinaryImpl::AnyOfAll => sem_any_of_all(f, a, b),
        BinaryImpl::AllOfAny => sem_all_of_any(f, a, b),
        BinaryImpl::AllOfAll => sem_all_of_all(f, a, b),
        BinaryImpl::StringIsIn => sem_string_is_in(f, a, b),
        BinaryImpl::StringAtLeastOneMemberOf => sem_string_at_least_one_member_of(f, a, b),
    }
}

/// The outcome of applying a two-argument function.
pub open spec fn sem_binary(f: XacmlFunction, a: Value, b: Value) -> Outcome
    decreases f, 5int, 0int,
{
    match plain_op(f) {
        Ok(PlainOp::Binary(k)) => sem_binary_impl(k, f, a, b),
        Ok(_) => Some(Err(DispatchError::ArityMismatch { func: f, expected: 2, got: 2 })),
        Err(e) => Some(Err(e)),
    }
}

/// Whether a quantified function carries its inner predicate.
pub open spec fn has_inner(f: XacmlFunction) -> bool {
    match f {
        XacmlFunction::AnyOf(Some(_)) => true,
        XacmlFunction::AllOf(Some(_)) => true,
        XacmlFunction::AnyOfAny(Some(_)) => true,
        XacmlFunction::AllOfAny(Some(_)) => true,
        XacmlFunction::AnyOfAll(Some(_)) => true,
        XacmlFunction::AllOfAll(Some(_)) => true,
        _ => false,
    }
}

pub open spec fn arity(f: XacmlFunction, expected: usize, got: nat) -> Outcome {
    Some(Err(DispatchError::ArityMismatch { func: f, expected, got: got as usize }))
}

/// The outcome of calling `f` on a list of possibly missing arguments.
pub open spec fn sem_call(f: XacmlFunction, args: Seq<Option<Value>>) -> Outcome {
    if f is StringBag {
        sem_string_bag(f, args)
    } else if f is And || f is Or {
        sem_bool_vec(f, args)
    } else {
        match plain_op(f) {
            Err(e) => Some(Err(e)),
            Ok(PlainOp::Unary(_)) => if args.len() != 1 {
                arity(f, 1, args.len())
            } else {
                match args[0] {
                    None => indeterminate(f, "missing unary argument"),
                    Some(a) => sem_unary(f, a),
                }
            },
            Ok(PlainOp::Binary(_)) => if args.len() != 2 {
                arity(f, 2, args.len())
            } else {
                match (args[0], args[1]) {
                    (None, _) => indeterminate(f, "missing first binary argument"),
                    (Some(_), None) => indeterminate(f, "missing second binary argument"),
                    (Some(a), Some(b)) => sem_binary(f, a, b),
                }
            },
            Ok(PlainOp::Ternary(_)) => if args.len() != 3 {
                arity(f, 3, args.len())
            } else {
                match (args[0], args[1], args[2]) {
                    (None, _, _) => indeterminate(f, "missing first ternary argument"),
                    (Some(_), None, _) => indeterminate(f, "missing second ternary argument"),
                    (Some(_), Some(_), None) => indeterminate(f, "missing third ternary argument"),
                    (Some(a), Some(b), Some(c)) => sem_ternary(f, a, b, c),
                }
            },
        }
    }
}

} // verus!
