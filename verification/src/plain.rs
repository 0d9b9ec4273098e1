//! Evaluation of XACML functions over plain attribute values.

use vstd::prelude::*;
use vstd::string::{StrSliceExecFns, StringExecFns};
use crate::constants::XacmlFunction;
use crate::intermediate::{IntermediateTypes, Value};
use crate::text::{str_contains, str_ends_with, str_eq_ignore_ascii_case, str_starts_with, str_to_lowercase};
use crate::plain_spec::{fits_i128, has_key, iabs, integer_cmp_of, label_code, pair_label, plain_label, sem_anyuri_contains, sem_anyuri_ends_with, sem_anyuri_eq, sem_anyuri_starts_with, sem_bool_binop, sem_bool_eq, sem_bool_if_else, sem_datetime_addsub_duration, sem_datetime_cmp, sem_datetime_eq, sem_daytimeduration_eq, sem_double_abs, sem_double_arith, sem_double_cmp, sem_double_eq, sem_integer_abs, sem_integer_arith, sem_integer_cmp, sem_integer_eq, sem_not, sem_rfc822name_eq, sem_string_concat, sem_string_contains, sem_string_ends_with, sem_string_eq, sem_string_eq_ignore_case, sem_string_starts_with, sem_time_cmp, sem_time_eq, sem_time_in_range, sem_vec_eq, sem_x500name_eq, sem_yearmonthduration_eq, triple_label, trunc_div, trunc_rem, uri_operands, value_at};

verus! {

/// Why a function could not be evaluated.
#[derive(Debug, PartialEq)]
pub enum DispatchError {
    UnsupportedFunction { func: XacmlFunction },
    ArityMismatch { func: XacmlFunction, expected: usize, got: usize },
    TypeMismatch { func: XacmlFunction, expected: &'static str, got: &'static str },
    NotFoundOperatorFromUrn { message: &'static str, not_found: String },
    X500NameNotAllFieldsSupplied { message: &'static str },
    AbsentInnerFunction { message: &'static str },
    Indeterminate { func: XacmlFunction, reason: &'static str },
}

/// The implementation behind a one-argument function.
#[derive(Debug, PartialEq, Eq, Clone, Copy)]
pub enum UnaryImpl {
    IntegerAbs,
    Not,
    DoubleAbs,
    StringOneAndOnly,
    StringBagSize,
}

/// The implementation behind a two-argument function.
#[derive(Debug, PartialEq, Eq, Clone, Copy)]
pub enum BinaryImpl {
    IntegerEq,
    IntegerCmp,
    IntegerArith,
    BoolBinop,
    BoolEq,
    DoubleEq,
    DoubleCmp,
    DoubleArith,
    TimeEq,
    TimeCmp,
    DateTimeEq,
    DateTimeCmp,
    DateTimeAddSubDuration,
    DayTimeDurationEq,
    YearMonthDurationEq,
    AnyUriEq,
    StringEq,
    StringEqIgnoreCase,
    StringConcat,
    StringContains,
    StringStartsWith,
    StringEndsWith,
    AnyUriContains,
    AnyUriStartsWith,
    AnyUriEndsWith,
    Rfc822NameEq,
    X500NameEq,
    VecEq,
    AllOf,
    AnyOf,
    AnyOfAny,
    AnyOfAll,
    AllOfAny,
    AllOfAll,
    StringIsIn,
    StringAtLeastOneMemberOf,
}

/// The implementation behind a three-argument function.
#[derive(Debug, PartialEq, Eq, Clone, Copy)]
pub enum TernaryImpl {
    BoolIfElse,
    TimeInRange,
}

/// The arity of a supported function together with its implementation.
#[derive(Debug, PartialEq, Eq, Clone, Copy)]
pub enum PlainOp {
    Unary(UnaryImpl),
    Binary(BinaryImpl),
    Ternary(TernaryImpl),
}

/// The model of an evaluation result.
pub open spec fn rv(r: Result<IntermediateTypes, DispatchError>) -> Result<Value, DispatchError> {
    match r {
        Ok(v) => Ok(v.value()),
        Err(e) => Err(e),
    }
}

impl IntermediateTypes {
    /// The name of this value's type, as reported in dispatch errors.
    pub fn ty(&self) -> (r: &'static str)
        ensures
            r == plain_label(self.value()),
    {
        match self {
            IntermediateTypes::Boolean(_) => "Bool",
            IntermediateTypes::Integer(_) => "Int64/NormalInteger",
            IntermediateTypes::Double(_) => "Double",
            IntermediateTypes::Time(_) => "Time/USmallInteger",
            IntermediateTypes::Date(_) => "DateTime/NormalInteger",
            IntermediateTypes::DateTime(_) => "DateTime/NormalInteger",
            IntermediateTypes::DayTimeDuration(_) => "DayTimeDuration/NormalInteger",
            IntermediateTypes::YearMonthDuration(_) => "YearMonthDuration/NormalInteger",
            IntermediateTypes::String(_) => "String",
            IntermediateTypes::AnyUri(_) => "AnyUri(String)",
            IntermediateTypes::HexBinary(_) => "HexBinary(Vec<u8>)",
            IntermediateTypes::Base64Binary(_) => "Base64Binary(Vec<u8>)",
            IntermediateTypes::Rfc822Name(_, _) => "Rfc822Name(String,String)",
            IntermediateTypes::X500Name(_) => "X500Name(HashMap<String,String>)",
            IntermediateTypes::DnsName(_, _, _) => "DnsName(String,USmallInteger,USmallInteger)",
            IntermediateTypes::IpAddress(_) => "IpAddress(String)",
            IntermediateTypes::Bag(_) => "Bag(IntermediateTypes)",
            IntermediateTypes::Nothing => "Nothing",
        }
    }

    fn label_code(&self) -> (r: u8)
        ensures
            r as int == label_code(self.value()),
    {
        match self {
            IntermediateTypes::Boolean(_) => 0,
            IntermediateTypes::Integer(_) => 1,
            IntermediateTypes::Double(_) => 2,
            IntermediateTypes::Time(_) => 3,
            IntermediateTypes::Date(_) => 4,
            IntermediateTypes::DateTime(_) => 4,
            IntermediateTypes::DayTimeDuration(_) => 5,
            IntermediateTypes::YearMonthDuration(_) => 6,
            IntermediateTypes::String(_) => 7,
            IntermediateTypes::AnyUri(_) => 8,
            IntermediateTypes::HexBinary(_) => 9,
            IntermediateTypes::Base64Binary(_) => 10,
            IntermediateTypes::Rfc822Name(_, _) => 11,
            IntermediateTypes::X500Name(_) => 12,
            IntermediateTypes::DnsName(_, _, _) => 13,
            IntermediateTypes::IpAddress(_) => 14,
            IntermediateTypes::Bag(_) => 15,
            IntermediateTypes::Nothing => 16,
        }
    }
}

pub(crate) fn got_pair(a: &IntermediateTypes, b: &IntermediateTypes) -> (r: &'static str)
    ensures
        r == pair_label(a.value(), b.value()),
{
    if a.label_code() == b.label_code() {
        a.ty()
    } else {
        "Mixed"
    }
}

fn got_triple(a: &IntermediateTypes, b: &IntermediateTypes, c: &IntermediateTypes) -> (r: &'static str)
    ensures
        r == triple_label(a.value(), b.value(), c.value()),
{
    if a.label_code() == b.label_code() && b.label_code() == c.label_code() {
        a.ty()
    } else {
        "Mixed"
    }
}

// ---- Integer ----

pub(crate) fn apply_plain_integer_eq(func: XacmlFunction, a: &IntermediateTypes, b: &IntermediateTypes) -> (r: Result<IntermediateTypes, DispatchError>)
    ensures
        Some(rv(r)) == sem_integer_eq(func, a.value(), b.value()),
{
    match (a, b) {
        (IntermediateTypes::Integer(x), IntermediateTypes::Integer(y)) => Ok(IntermediateTypes::Boolean(*x == *y)),
        (IntermediateTypes::Date(x), IntermediateTypes::Date(y)) => Ok(IntermediateTypes::Boolean(*x == *y)),
        _ => Err(DispatchError::TypeMismatch {
            func,
            expected: "Int64/NormalInteger, Int64/NormalInteger",
            got: got_pair(a, b),
        }),
    }
}

fn integer_cmp_result(func: XacmlFunction, x: i64, y: i64) -> (r: Result<IntermediateTypes, DispatchError>)
    ensures
        Some(rv(r)) == integer_cmp_of(func, x, y),
{
    let out = match func {
        XacmlFunction::IntegerGreaterThan => x > y,
        XacmlFunction::IntegerGreaterThanOrEqual => x >= y,
        XacmlFunction::IntegerLessThan => x < y,
        XacmlFunction::IntegerLessThanOrEqual => x <= y,
        XacmlFunction::DateGreaterThan => x > y,
        XacmlFunction::DateGreaterThanOrEqual => x >= y,
        XacmlFunction::DateLessThan => x < y,
        XacmlFunction::DateLessThanOrEqual => x <= y,
        _ => return Err(DispatchError::UnsupportedFunction { func }),
    };
    Ok(IntermediateTypes::Boolean(out))
}

pub(crate) fn apply_plain_integer_cmp(func: XacmlFunction, a: &IntermediateTypes, b: &IntermediateTypes) -> (r: Result<IntermediateTypes, DispatchError>)
    ensures
        Some(rv(r)) == sem_integer_cmp(func, a.value(), b.value()),
{
    match (a, b) {
        (IntermediateTypes::Integer(x), IntermediateTypes::Integer(y)) => integer_cmp_result(func, *x, *y),
        (IntermediateTypes::Date(x), IntermediateTypes::Date(y)) => integer_cmp_result(func, *x, *y),
        _ => Err(DispatchError::TypeMismatch {
            func,
            expected: "Int64/NormalInteger, Int64/NormalInteger",
            got: got_pair(a, b),
        }),
    }
}

pub(crate) fn apply_plain_integer_arith(func: XacmlFunction, a: &IntermediateTypes, b: &IntermediateTypes) -> (r: Result<IntermediateTypes, DispatchError>)
    requires
        sem_integer_arith(func, a.value(), b.value()) is Some,
    ensures
        Some(rv(r)) == sem_integer_arith(func, a.value(), b.value()),
{
    match (a, b) {
        (IntermediateTypes::Integer(x), IntermediateTypes::Integer(y)) => {
            let x = *x;
            let y = *y;
            let is_div = match func {
                XacmlFunction::IntegerDivide => true,
                XacmlFunction::IntegerMod => true,
                _ => false,
            };
            if is_div && y == 0 {
                return Err(DispatchError::TypeMismatch {
                    func,
                    expected: "Int64/NormalInteger with non-zero divisor",
                    got: "divisor = 0",
                });
            }
            let out: i64 = match func {
                XacmlFunction::IntegerAdd => x + y,
                XacmlFunction::IntegerSubtract => x - y,
                XacmlFunction::IntegerMultiply => x * y,
                XacmlFunction::IntegerDivide => div_i64(x, y),
                XacmlFunction::IntegerMod => rem_i64(x, y),
                _ => return Err(DispatchError::UnsupportedFunction { func }),
            };
            Ok(IntermediateTypes::Integer(out))
        },
        _ => Err(DispatchError::TypeMismatch {
            func,
            expected: "Int64/NormalInteger, Int64/NormalInteger",
            got: got_pair(a, b),
        }),
    }
}

pub(crate) fn apply_plain_integer_abs(func: XacmlFunction, a: &IntermediateTypes) -> (r: Result<IntermediateTypes, DispatchError>)
    requires
        sem_integer_abs(func, a.value()) is Some,
    ensures
        Some(rv(r)) == sem_integer_abs(func, a.value()),
{
    match a {
        IntermediateTypes::Integer(x) => Ok(IntermediateTypes::Integer(if *x < 0 { -*x } else { *x })),
        other => Err(DispatchError::TypeMismatch { func, expected: "Int64/NormalInteger", got: other.ty() }),
    }
}

// ---- Boolean ----

pub(crate) fn apply_plain_not(func: XacmlFunction, a: &IntermediateTypes) -> (r: Result<IntermediateTypes, DispatchError>)
    ensures
        Some(rv(r)) == sem_not(func, a.value()),
{
    match a {
        IntermediateTypes::Boolean(x) => Ok(IntermediateTypes::Boolean(!*x)),
        other => Err(DispatchError::TypeMismatch { func, expected: "Bool", got: other.ty() }),
    }
}

fn is_and_or(func: &XacmlFunction) -> (r: bool)
    ensures
        r == (*func is And || *func is Or),
{
    match func {
        XacmlFunction::And => true,
        XacmlFunction::Or => true,
        _ => false,
    }
}

pub(crate) fn apply_plain_bool_binop(func: XacmlFunction, a: &IntermediateTypes, b: &IntermediateTypes) -> (r: Result<IntermediateTypes, DispatchError>)
    ensures
        Some(rv(r)) == sem_bool_binop(func, a.value(), b.value()),
{
    match (a, b) {
        (IntermediateTypes::Boolean(x), IntermediateTypes::Boolean(y)) => {
            let out = match func {
                XacmlFunction::And => *x && *y,
                XacmlFunction::Or => *x || *y,
                _ => return Err(DispatchError::UnsupportedFunction { func }),
            };
            Ok(IntermediateTypes::Boolean(out))
        },
        (IntermediateTypes::Nothing, IntermediateTypes::Boolean(y)) => {
            if is_and_or(&func) {
                Ok(IntermediateTypes::Boolean(*y))
            } else {
                Err(DispatchError::UnsupportedFunction { func })
            }
        },
        (IntermediateTypes::Boolean(x), IntermediateTypes::Nothing) => {
            if is_and_or(&func) {
                Ok(IntermediateTypes::Boolean(*x))
            } else {
                Err(DispatchError::UnsupportedFunction { func })
            }
        },
        (IntermediateTypes::Nothing, IntermediateTypes::Nothing) => Ok(IntermediateTypes::Nothing),
        _ => Err(DispatchError::TypeMismatch { func, expected: "Bool, Bool", got: got_pair(a, b) }),
    }
}

pub(crate) fn apply_plain_bool_eq(func: XacmlFunction, a: &IntermediateTypes, b: &IntermediateTypes) -> (r: Result<IntermediateTypes, DispatchError>)
    ensures
        Some(rv(r)) == sem_bool_eq(func, a.value(), b.value()),
{
    match (a, b) {
        (IntermediateTypes::Boolean(x), IntermediateTypes::Boolean(y)) => Ok(IntermediateTypes::Boolean(*x == *y)),
        _ => Err(DispatchError::TypeMismatch { func, expected: "Bool, Bool", got: got_pair(a, b) }),
    }
}

pub(crate) fn apply_plain_bool_if_else(
    func: XacmlFunction,
    a: &IntermediateTypes,
    b: &IntermediateTypes,
    c: &IntermediateTypes,
) -> (r: Result<IntermediateTypes, DispatchError>)
    ensures
        Some(rv(r)) == sem_bool_if_else(func, a.value(), b.value(), c.value()),
{
    match (a, b, c) {
        (IntermediateTypes::Boolean(x), IntermediateTypes::Boolean(y), IntermediateTypes::Boolean(z)) => {
            Ok(IntermediateTypes::Boolean(if *x { *y } else { *z }))
        },
        _ => Err(DispatchError::TypeMismatch { func, expected: "Bool, Bool", got: got_pair(a, b) }),
    }
}

// ---- Double ----

pub(crate) fn apply_plain_double_eq(func: XacmlFunction, a: &IntermediateTypes, b: &IntermediateTypes) -> (r: Result<IntermediateTypes, DispatchError>)
    ensures
        Some(rv(r)) == sem_double_eq(func, a.value(), b.value()),
{
    match (a, b) {
        (IntermediateTypes::Double(x), IntermediateTypes::Double(y)) => Ok(IntermediateTypes::Boolean(*x == *y)),
        _ => Err(DispatchError::TypeMismatch { func, expected: "Double, Double", got: got_pair(a, b) }),
    }
}

pub(crate) fn apply_plain_double_cmp(func: XacmlFunction, a: &IntermediateTypes, b: &IntermediateTypes) -> (r: Result<IntermediateTypes, DispatchError>)
    ensures
        Some(rv(r)) == sem_double_cmp(func, a.value(), b.value()),
{
    match (a, b) {
        (IntermediateTypes::Double(x), IntermediateTypes::Double(y)) => {
            let out = match func {
                XacmlFunction::DoubleGreaterThan => *x > *y,
                XacmlFunction::DoubleGreaterThanOrEqual => *x >= *y,
                XacmlFunction::DoubleLessThan => *x < *y,
                XacmlFunction::DoubleLessThanOrEqual => *x <= *y,
                _ => return Err(DispatchError::UnsupportedFunction { func }),
            };
            Ok(IntermediateTypes::Boolean(out))
        },
        _ => Err(DispatchError::TypeMismatch { func, expected: "Double, Double", got: got_pair(a, b) }),
    }
}

pub(crate) fn apply_plain_double_arith(func: XacmlFunction, a: &IntermediateTypes, b: &IntermediateTypes) -> (r: Result<IntermediateTypes, DispatchError>)
    requires
        sem_double_arith(func, a.value(), b.value()) is Some,
    ensures
        Some(rv(r)) == sem_double_arith(func, a.value(), b.value()),
{
    match (a, b) {
        (IntermediateTypes::Double(x), IntermediateTypes::Double(y)) => {
            let x = *x;
            let y = *y;
            let out: i128 = match func {
                XacmlFunction::DoubleAdd => x + y,
                XacmlFunction::DoubleSubtract => x - y,
                XacmlFunction::DoubleMultiply => x * y,
                XacmlFunction::DoubleDivide => div_i128(x, y),
                _ => return Err(DispatchError::UnsupportedFunction { func }),
            };
            Ok(IntermediateTypes::Double(out))
        },
        _ => Err(DispatchError::TypeMismatch { func, expected: "Double, Double", got: got_pair(a, b) }),
    }
}

pub(crate) fn apply_plain_double_abs(func: XacmlFunction, a: &IntermediateTypes) -> (r: Result<IntermediateTypes, DispatchError>)
    requires
        sem_double_abs(func, a.value()) is Some,
    ensures
        Some(rv(r)) == sem_double_abs(func, a.value()),
{
    match a {
        IntermediateTypes::Double(x) => Ok(IntermediateTypes::Double(if *x < 0 { -*x } else { *x })),
        other => Err(DispatchError::TypeMismatch { func, expected: "Double", got: other.ty() }),
    }
}

// ---- Time ----

pub(crate) fn apply_plain_time_eq(func: XacmlFunction, a: &IntermediateTypes, b: &IntermediateTypes) -> (r: Result<IntermediateTypes, DispatchError>)
    ensures
        Some(rv(r)) == sem_time_eq(func, a.value(), b.value()),
{
    match (a, b) {
        (IntermediateTypes::Time(x), IntermediateTypes::Time(y)) => Ok(IntermediateTypes::Boolean(*x == *y)),
        _ => Err(DispatchError::TypeMismatch { func, expected: "Time, Time", got: got_pair(a, b) }),
    }
}

pub(crate) fn apply_plain_time_cmp(func: XacmlFunction, a: &IntermediateTypes, b: &IntermediateTypes) -> (r: Result<IntermediateTypes, DispatchError>)
    ensures
        Some(rv(r)) == sem_time_cmp(func, a.value(), b.value()),
{
    match (a, b) {
        (IntermediateTypes::Time(x), IntermediateTypes::Time(y)) => {
            let out = match func {
                XacmlFunction::TimeGreaterThan => *x > *y,
                XacmlFunction::TimeGreaterThanOrEqual => *x >= *y,
                XacmlFunction::TimeLessThan => *x < *y,
                XacmlFunction::TimeLessThanOrEqual => *x <= *y,
                _ => return Err(DispatchError::UnsupportedFunction { func }),
            };
            Ok(IntermediateTypes::Boolean(out))
        },
        _ => Err(DispatchError::TypeMismatch { func, expected: "Time, Time", got: got_pair(a, b) }),
    }
}

pub(crate) fn apply_plain_time_in_range(
    func: XacmlFunction,
    t: &IntermediateTypes,
    start: &IntermediateTypes,
    end: &IntermediateTypes,
) -> (r: Result<IntermediateTypes, DispatchError>)
    ensures
        Some(rv(r)) == sem_time_in_range(func, t.value(), start.value(), end.value()),
{
    match (t, start, end) {
        (IntermediateTypes::Time(tt), IntermediateTypes::Time(s), IntermediateTypes::Time(e)) => {
            Ok(IntermediateTypes::Boolean(*s <= *tt && *tt <= *e))
        },
        _ => Err(DispatchError::TypeMismatch {
            func,
            expected: "Time, Time, Time",
            got: got_triple(t, start, end),
        }),
    }
}

// ---- DateTime ----

pub(crate) fn apply_plain_datetime_eq(func: XacmlFunction, a: &IntermediateTypes, b: &IntermediateTypes) -> (r: Result<IntermediateTypes, DispatchError>)
    ensures
        Some(rv(r)) == sem_datetime_eq(func, a.value(), b.value()),
{
    match (a, b) {
        (IntermediateTypes::DateTime(x), IntermediateTypes::DateTime(y)) => Ok(IntermediateTypes::Boolean(*x == *y)),
        _ => Err(DispatchError::TypeMismatch { func, expected: "DateTime, DateTime", got: got_pair(a, b) }),
    }
}

pub(crate) fn apply_plain_datetime_cmp(func: XacmlFunction, a: &IntermediateTypes, b: &IntermediateTypes) -> (r: Result<IntermediateTypes, DispatchError>)
    ensures
        Some(rv(r)) == sem_datetime_cmp(func, a.value(), b.value()),
{
    match (a, b) {
        (IntermediateTypes::DateTime(x), IntermediateTypes::DateTime(y)) => {
            let out = match func {
                XacmlFunction::DateTimeGreaterThan => *x > *y,
                XacmlFunction::DateTimeGreaterThanOrEqual => *x >= *y,
                XacmlFunction::DateTimeLessThan => *x < *y,
                XacmlFunction::DateTimeLessThanOrEqual => *x <= *y,
                _ => return Err(DispatchError::UnsupportedFunction { func }),
            };
            Ok(IntermediateTypes::Boolean(out))
        },
        _ => Err(DispatchError::TypeMismatch { func, expected: "DateTime, DateTime", got: got_pair(a, b) }),
    }
}

pub(crate) fn apply_plain_datetime_addsub_duration(
    func: XacmlFunction,
    dt: &IntermediateTypes,
    dur: &IntermediateTypes,
) -> (r: Result<IntermediateTypes, DispatchError>)
    requires
        sem_datetime_addsub_duration(func, dt.value(), dur.value()) is Some,
    ensures
        Some(rv(r)) == sem_datetime_addsub_duration(func, dt.value(), dur.value()),
{
    match (dt, dur) {
        (IntermediateTypes::DateTime(x), IntermediateTypes::DayTimeDuration(d)) => {
            let out = match func {
                XacmlFunction::DateTimeAddDayTimeDuration => *x + *d,
                XacmlFunction::DateTimeSubtractDayTimeDuration => *x - *d,
                _ => {
                    return Err(DispatchError::TypeMismatch {
                        func,
                        expected: "DateTime +/- DayTimeDuration",
                        got: "Mismatched duration kind",
                    })
                },
            };
            Ok(IntermediateTypes::DateTime(out))
        },
        (IntermediateTypes::DateTime(x), IntermediateTypes::YearMonthDuration(d)) => {
            let out = match func {
                XacmlFunction::DateTimeAddYearMonthDuration => *x + *d,
                XacmlFunction::DateTimeSubtractYearMonthDuration => *x - *d,
                _ => {
                    return Err(DispatchError::TypeMismatch {
                        func,
                        expected: "DateTime +/- YearMonthDuration",
                        got: "Mismatched duration kind",
                    })
                },
            };
            Ok(IntermediateTypes::DateTime(out))
        },
        _ => Err(DispatchError::TypeMismatch {
            func,
            expected: "DateTime, (DayTimeDuration|YearMonthDuration)",
            got: got_pair(dt, dur),
        }),
    }
}

// ---- Durations ----

pub(crate) fn apply_plain_daytimeduration_eq(func: XacmlFunction, a: &IntermediateTypes, b: &IntermediateTypes) -> (r: Result<IntermediateTypes, DispatchError>)
    ensures
        Some(rv(r)) == sem_daytimeduration_eq(func, a.value(), b.value()),
{
    match (a, b) {
        (IntermediateTypes::DayTimeDuration(x), IntermediateTypes::DayTimeDuration(y)) => {
            Ok(IntermediateTypes::Boolean(*x == *y))
        },
        _ => Err(DispatchError::TypeMismatch {
            func,
            expected: "DayTimeDuration, DayTimeDuration",
            got: got_pair(a, b),
        }),
    }
}

pub(crate) fn apply_plain_yearmonthduration_eq(func: XacmlFunction, a: &IntermediateTypes, b: &IntermediateTypes) -> (r: Result<IntermediateTypes, DispatchError>)
    ensures
        Some(rv(r)) == sem_yearmonthduration_eq(func, a.value(), b.value()),
{
    match (a, b) {
        (IntermediateTypes::YearMonthDuration(x), IntermediateTypes::YearMonthDuration(y)) => {
            Ok(IntermediateTypes::Boolean(*x == *y))
        },
        _ => Err(DispatchError::TypeMismatch {
            func,
            expected: "YearMonthDuration, YearMonthDuration",
            got: got_pair(a, b),
        }),
    }
}

// ---- String ----

pub(crate) fn apply_plain_string_eq(func: XacmlFunction, a: &IntermediateTypes, b: &IntermediateTypes) -> (r: Result<IntermediateTypes, DispatchError>)
    ensures
        Some(rv(r)) == sem_string_eq(func, a.value(), b.value()),
{
    match (a, b) {
        (IntermediateTypes::String(x), IntermediateTypes::String(y)) => Ok(IntermediateTypes::Boolean(*x == *y)),
        _ => Err(DispatchError::TypeMismatch { func, expected: "String, String", got: got_pair(a, b) }),
    }
}

pub(crate) fn apply_plain_string_eq_ignore_case(func: XacmlFunction, a: &IntermediateTypes, b: &IntermediateTypes) -> (r: Result<IntermediateTypes, DispatchError>)
    ensures
        Some(rv(r)) == sem_string_eq_ignore_case(func, a.value(), b.value()),
{
    match (a, b) {
        (IntermediateTypes::String(x), IntermediateTypes::String(y)) => {
            Ok(IntermediateTypes::Boolean(str_eq_ignore_ascii_case(x.as_str(), y.as_str())))
        },
        _ => Err(DispatchError::TypeMismatch { func, expected: "String, String", got: got_pair(a, b) }),
    }
}

pub(crate) fn apply_plain_string_concat(func: XacmlFunction, a: &IntermediateTypes, b: &IntermediateTypes) -> (r: Result<IntermediateTypes, DispatchError>)
    ensures
        Some(rv(r)) == sem_string_concat(func, a.value(), b.value()),
{
    match (a, b) {
        (IntermediateTypes::String(x), IntermediateTypes::String(y)) => {
            let mut out = x.clone();
            out.append(y.as_str());
            Ok(IntermediateTypes::String(out))
        },
        _ => Err(DispatchError::TypeMismatch { func, expected: "String, String", got: got_pair(a, b) }),
    }
}

pub(crate) fn apply_plain_string_contains(func: XacmlFunction, a: &IntermediateTypes, b: &IntermediateTypes) -> (r: Result<IntermediateTypes, DispatchError>)
    ensures
        Some(rv(r)) == sem_string_contains(func, a.value(), b.value()),
{
    match (a, b) {
        (IntermediateTypes::String(x), IntermediateTypes::String(y)) => {
            Ok(IntermediateTypes::Boolean(str_contains(x.as_str(), y.as_str())))
        },
        _ => Err(DispatchError::TypeMismatch { func, expected: "String, String", got: got_pair(a, b) }),
    }
}

pub(crate) fn apply_plain_string_starts_with(func: XacmlFunction, a: &IntermediateTypes, b: &IntermediateTypes) -> (r: Result<IntermediateTypes, DispatchError>)
    ensures
        Some(rv(r)) == sem_string_starts_with(func, a.value(), b.value()),
{
    match (a, b) {
        (IntermediateTypes::String(x), IntermediateTypes::String(y)) => {
            Ok(IntermediateTypes::Boolean(str_starts_with(x.as_str(), y.as_str())))
        },
        _ => Err(DispatchError::TypeMismatch { func, expected: "String, String", got: got_pair(a, b) }),
    }
}

pub(crate) fn apply_plain_string_ends_with(func: XacmlFunction, a: &IntermediateTypes, b: &IntermediateTypes) -> (r: Result<IntermediateTypes, DispatchError>)
    ensures
        Some(rv(r)) == sem_string_ends_with(func, a.value(), b.value()),
{
    match (a, b) {
        (IntermediateTypes::String(x), IntermediateTypes::String(y)) => {
            Ok(IntermediateTypes::Boolean(str_ends_with(x.as_str(), y.as_str())))
        },
        _ => Err(DispatchError::TypeMismatch { func, expected: "String, String", got: got_pair(a, b) }),
    }
}

// ---- AnyUri ----

pub(crate) fn apply_plain_anyuri_eq(func: XacmlFunction, a: &IntermediateTypes, b: &IntermediateTypes) -> (r: Result<IntermediateTypes, DispatchError>)
    ensures
        Some(rv(r)) == sem_anyuri_eq(func, a.value(), b.value()),
{
    match (a, b) {
        (IntermediateTypes::AnyUri(x), IntermediateTypes::AnyUri(y)) => Ok(IntermediateTypes::Boolean(*x == *y)),
        (IntermediateTypes::AnyUri(x), IntermediateTypes::String(y)) => Ok(IntermediateTypes::Boolean(*x == *y)),
        (IntermediateTypes::String(y), IntermediateTypes::AnyUri(x)) => Ok(IntermediateTypes::Boolean(*x == *y)),
        _ => Err(DispatchError::TypeMismatch {
            func,
            expected: "AnyUri(String), AnyUri(String)",
            got: got_pair(a, b),
        }),
    }
}

fn uri_operand_strings<'a>(a: &'a IntermediateTypes, b: &'a IntermediateTypes) -> (r: Option<(&'a String, &'a String)>)
    ensures
        match r {
            Some((x, y)) => uri_operands(a.value(), b.value()) == Some((x@, y@)),
            None => uri_operands(a.value(), b.value()) is None,
        },
{
    match (a, b) {
        (IntermediateTypes::AnyUri(x), IntermediateTypes::AnyUri(y)) => Some((x, y)),
        (IntermediateTypes::AnyUri(x), IntermediateTypes::String(y)) => Some((x, y)),
        _ => None,
    }
}

pub(crate) fn apply_plain_anyuri_contains(func: XacmlFunction, a: &IntermediateTypes, b: &IntermediateTypes) -> (r: Result<IntermediateTypes, DispatchError>)
    ensures
        Some(rv(r)) == sem_anyuri_contains(func, a.value(), b.value()),
{
    match uri_operand_strings(a, b) {
        Some((x, y)) => Ok(IntermediateTypes::Boolean(str_contains(x.as_str(), y.as_str()))),
        None => Err(DispatchError::TypeMismatch {
            func,
            expected: "AnyUri(String), (AnyUri|String)",
            got: got_pair(a, b),
        }),
    }
}

pub(crate) fn apply_plain_anyuri_starts_with(func: XacmlFunction, a: &IntermediateTypes, b: &IntermediateTypes) -> (r: Result<IntermediateTypes, DispatchError>)
    ensures
        Some(rv(r)) == sem_anyuri_starts_with(func, a.value(), b.value()),
{
    match uri_operand_strings(a, b) {
        Some((x, y)) => Ok(IntermediateTypes::Boolean(str_starts_with(x.as_str(), y.as_str()))),
        None => Err(DispatchError::TypeMismatch {
            func,
            expected: "AnyUri(String), (AnyUri|String)",
            got: got_pair(a, b),
        }),
    }
}

pub(crate) fn apply_plain_anyuri_ends_with(func: XacmlFunction, a: &IntermediateTypes, b: &IntermediateTypes) -> (r: Result<IntermediateTypes, DispatchError>)
    ensures
        Some(rv(r)) == sem_anyuri_ends_with(func, a.value(), b.value()),
{
    match uri_operand_strings(a, b) {
        Some((x, y)) => Ok(IntermediateTypes::Boolean(str_ends_with(x.as_str(), y.as_str()))),
        None => Err(DispatchError::TypeMismatch {
            func,
            expected: "AnyUri(String), (AnyUri|String)",
            got: got_pair(a, b),
        }),
    }
}

fn bytes_eq(x: &Vec<u8>, y: &Vec<u8>) -> (r: bool)
    ensures
        r == (x@ == y@),
{
    if x.len() != y.len() {
        return false;
    }
    let mut i: usize = 0;
    while i < x.len()
        invariant
            x.len() == y.len(),
            i <= x.len(),
            forall|j: int| 0 <= j < i ==> x@[j] == y@[j],
        decreases x.len() - i,
    {
        if x[i] != y[i] {
            return false;
        }
        i = i + 1;
    }
    assert(x@ =~= y@);
    true
}

pub(crate) fn apply_plain_vec_eq(func: XacmlFunction, a: &IntermediateTypes, b: &IntermediateTypes) -> (r: Result<IntermediateTypes, DispatchError>)
    ensures
        Some(rv(r)) == sem_vec_eq(func, a.value(), b.value()),
{
    match (a, b) {
        (IntermediateTypes::Base64Binary(x), IntermediateTypes::Base64Binary(y)) => Ok(IntermediateTypes::Boolean(bytes_eq(x, y))),
        (IntermediateTypes::HexBinary(x), IntermediateTypes::HexBinary(y)) => Ok(IntermediateTypes::Boolean(bytes_eq(x, y))),
        _ => Err(DispatchError::TypeMismatch {
            func,
            expected: "HexBinary/Base64Binary(Vec<u8>), HexBinary/Base64Binary(Vec<u8>)",
            got: got_pair(a, b),
        }),
    }
}

// ---- Names ----

pub(crate) fn apply_plain_rfc822name_eq(func: XacmlFunction, a: &IntermediateTypes, b: &IntermediateTypes) -> (r: Result<IntermediateTypes, DispatchError>)
    ensures
        Some(rv(r)) == sem_rfc822name_eq(func, a.value(), b.value()),
{
    match (a, b) {
        (IntermediateTypes::Rfc822Name(x1, x2), IntermediateTypes::Rfc822Name(y1, y2)) => {
            let local_part_eq = *x1 == *y1;
            let lx = str_to_lowercase(x2.as_str());
            let ly = str_to_lowercase(y2.as_str());
            let domain_part_eq = lx == ly;
            Ok(IntermediateTypes::Boolean(local_part_eq && domain_part_eq))
        },
        _ => Err(DispatchError::TypeMismatch {
            func,
            expected: "AnyUri(FheAsciiString), (AnyUri|String)(FheAsciiString)",
            got: got_pair(a, b),
        }),
    }
}

pub(crate) fn apply_plain_x500name_eq(func: XacmlFunction, a: &IntermediateTypes, b: &IntermediateTypes) -> (r: Result<IntermediateTypes, DispatchError>)
    ensures
        Some(rv(r)) == sem_x500name_eq(func, a.value(), b.value()),
{
    match (a, b) {
        (IntermediateTypes::X500Name(x), IntermediateTypes::X500Name(y)) => {
            let ghost xv = x.view_entries();
            let ghost yv = y.view_entries();
            let xe = &x.entries;
            let ye = &y.entries;
            if xe.len() != ye.len() {
                return Err(DispatchError::X500NameNotAllFieldsSupplied { message: "the set of keys is not equal" });
            }
            let mut i: usize = 0;
            while i < xe.len()
                invariant
                    xv == x.view_entries(),
                    yv == y.view_entries(),
                    *xe == x.entries,
                    *ye == y.entries,
                    i <= xe.len(),
                    forall|j: int| 0 <= j < i ==> has_key(yv, (#[trigger] xv[j]).0),
                    xe.len() == ye.len(),
                    a.value() == Value::X500Name(xv),
                    b.value() == Value::X500Name(yv),
                decreases xe.len() - i,
            {
                assert(xv[i as int].0 == xe@[i as int].0@);
                if !y.contains_key(&xe[i].0) {
                    assert(!has_key(yv, xv[i as int].0));
                    return Err(DispatchError::X500NameNotAllFieldsSupplied {
                        message: "one of the keys is not found in the set of other keys",
                    });
                }
                i = i + 1;
            }
            if xe.len() == 0 {
                return Err(DispatchError::X500NameNotAllFieldsSupplied {
                    message: "fatal error: could not find key in X500Name type variable, mismatched keys",
                });
            }
            let mut result = true;
            let mut i: usize = 0;
            while i < xe.len()
                invariant
                    xv == x.view_entries(),
                    yv == y.view_entries(),
                    *xe == x.entries,
                    *ye == y.entries,
                    i <= xe.len(),
                    result == forall|j: int| 0 <= j < i ==> value_at(yv, (#[trigger] xv[j]).0) == xv[j].1,
                decreases xe.len() - i,
            {
                assert(xv[i as int] == (xe@[i as int].0@, xe@[i as int].1@));
                let m = y.value_matches(&xe[i].0, &xe[i].1);
                result = result && m;
                i = i + 1;
            }
            Ok(IntermediateTypes::Boolean(result))
        },
        _ => Err(DispatchError::TypeMismatch {
            func,
            expected: "AnyUri(FheAsciiString), (AnyUri|String)(FheAsciiString)",
            got: got_pair(a, b),
        }),
    }
}

fn magnitude_i64(x: i64) -> (r: u64)
    ensures
        r as int == iabs(x as int),
{
    if x < 0 {
        ((-(x + 1)) as u64) + 1
    } else {
        x as u64
    }
}

fn magnitude_i128(x: i128) -> (r: u128)
    ensures
        r as int == iabs(x as int),
{
    if x < 0 {
        ((-(x + 1)) as u128) + 1
    } else {
        x as u128
    }
}

/// Division of machine integers, rounding toward zero.
fn div_i64(x: i64, y: i64) -> (q: i64)
    requires
        y != 0,
        !(x == i64::MIN && y == -1),
    ensures
        q == trunc_div(x as int, y as int),
{
    let ux = magnitude_i64(x);
    let uy = magnitude_i64(y);
    let qu = ux / uy;
    assert(qu <= ux) by (nonlinear_arith)
        requires
            qu == ux / uy,
            uy >= 1,
    ;
    if (x < 0) != (y < 0) {
        let q: i128 = 0i128 - (qu as i128);
        q as i64
    } else {
        assert(qu <= i64::MAX) by {
            if ux as int == 0x8000_0000_0000_0000 {
                assert(uy >= 2);
                assert(qu <= ux / 2) by (nonlinear_arith)
                    requires
                        qu == ux / uy,
                        uy >= 2,
                ;
            }
        }
        qu as i64
    }
}

/// Remainder of the division of machine integers; it has the sign of `x`.
fn rem_i64(x: i64, y: i64) -> (r: i64)
    requires
        y != 0,
        !(x == i64::MIN && y == -1),
    ensures
        r == trunc_rem(x as int, y as int),
{
    let q = div_i64(x, y);
    let ux = magnitude_i64(x);
    let uy = magnitude_i64(y);
    proof {
        let qq = (ux as int) / (uy as int);
        let rr = (ux as int) % (uy as int);
        assert(ux as int == (uy as int) * qq + rr && 0 <= rr < uy) by (nonlinear_arith)
            requires
                qq == (ux as int) / (uy as int),
                rr == (ux as int) % (uy as int),
                uy >= 1,
        ;
        assert(iabs(x - y * q) < iabs(y as int)) by (nonlinear_arith)
            requires
                ux as int == iabs(x as int),
                uy as int == iabs(y as int),
                ux as int == (uy as int) * qq + rr,
                0 <= rr < uy,
                q as int == (if (x < 0) != (y < 0) { -qq } else { qq }),
        ;
    }
    let r: i128 = (x as i128) - (y as i128) * (q as i128);
    r as i64
}

/// Division of fixed-point doubles, rounding toward zero.
fn div_i128(x: i128, y: i128) -> (q: i128)
    requires
        y != 0,
        fits_i128(trunc_div(x as int, y as int)),
    ensures
        q == trunc_div(x as int, y as int),
{
    let ux = magnitude_i128(x);
    let uy = magnitude_i128(y);
    let qu = ux / uy;
    assert(qu <= ux) by (nonlinear_arith)
        requires
            qu == ux / uy,
            uy >= 1,
    ;
    if (x < 0) != (y < 0) {
        if qu == 0 {
            0
        } else {
            -((qu - 1) as i128) - 1
        }
    } else {
        qu as i128
    }
}

} // verus!
