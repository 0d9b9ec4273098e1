//! Evaluation of XACML functions over encrypted attribute values: each
//! function checks the kinds of its arguments and builds the homomorphic
//! computation of its result.

use vstd::prelude::*;
use crate::cipher::{Cipher, Circ, EValue, EncryptedTypes, HDnsName, HOp, HRfc822Name, HX500Name};
use crate::constants::XacmlFunction;
use crate::plain::DispatchError;
use crate::enc_spec::{EOutcome, ebool, ehas_key, elookup_from, enc_code, enc_label, enc_pair_label, enc_triple_label, eorder, esem_anyuri_eq, esem_anyuri_op, esem_array_eq, esem_bool_binop, esem_bool_eq, esem_bool_if_else, esem_datetime_addsub_duration, esem_datetime_cmp, esem_datetime_eq, esem_daytimeduration_eq, esem_double_abs, esem_double_arith, esem_double_cmp, esem_double_eq, esem_integer_abs, esem_integer_arith, esem_integer_cmp, esem_integer_eq, esem_not, esem_rfc822name_eq, esem_string_op, esem_time_cmp, esem_time_eq, esem_time_in_range, esem_x500name_eq, esem_yearmonthduration_eq, order_in_family, order_op, x500_chain};

verus! {

/// The model of an evaluation result.
pub open spec fn erv(r: Result<EncryptedTypes, DispatchError>) -> EOutcome {
    match r {
        Ok(v) => Ok(v.value()),
        Err(e) => Err(e),
    }
}

impl EncryptedTypes {
    /// The name of this value's type, as reported in dispatch errors.
    pub fn ty(&self) -> (r: &'static str)
        ensures
            r == enc_label(self.value()),
    {
        match self {
            EncryptedTypes::Boolean(_) => "Bool",
            EncryptedTypes::Integer(_) => "Int64",
            EncryptedTypes::Double(_) => "Double(HLongINteger)",
            EncryptedTypes::Time(_) => "Time(HUnsignedSmallInteger)",
            EncryptedTypes::Date(_) => "Date(HNormalInteger)",
            EncryptedTypes::DateTime(_) => "DateTime(HNormalInteger)",
            EncryptedTypes::DayTimeDuration(_) => "DayTimeDuration(HNormalInteger)",
            EncryptedTypes::YearMonthDuration(_) => "YearMonthDuration(HNormalInteger)",
            EncryptedTypes::String(_) => "String(FheAsciiString)",
            EncryptedTypes::AnyUri(_) => "AnyUri(FheAsciiString)",
            EncryptedTypes::HexBinary(_) => "HexBinary(CpuFheUint8Array)",
            EncryptedTypes::Base64Binary(_) => "Base64Binary(CpuFheUint8Array)",
            EncryptedTypes::Rfc822Name(_) => "Rfc822Name(HRfc822Name)",
            EncryptedTypes::X500Name(_) => "X500Name(HX500Name)",
            EncryptedTypes::DnsName(_) => "DnsName(HDnsName)",
            EncryptedTypes::IpAddress(_) => "IpAddress(FheAsciiString)",
            EncryptedTypes::Bag(_) => "Bag(EncryptedTypes)",
            EncryptedTypes::Nothing => "Nothing",
        }
    }

    fn code(&self) -> (r: u8)
        ensures
            r as int == enc_code(self.value()),
    {
        match self {
            EncryptedTypes::Boolean(_) => 0,
            EncryptedTypes::Integer(_) => 1,
            EncryptedTypes::Double(_) => 2,
            EncryptedTypes::Time(_) => 3,
            EncryptedTypes::Date(_) => 4,
            EncryptedTypes::DateTime(_) => 5,
            EncryptedTypes::DayTimeDuration(_) => 6,
            EncryptedTypes::YearMonthDuration(_) => 7,
            EncryptedTypes::String(_) => 8,
            EncryptedTypes::AnyUri(_) => 9,
            EncryptedTypes::HexBinary(_) => 10,
            EncryptedTypes::Base64Binary(_) => 11,
            EncryptedTypes::Rfc822Name(_) => 12,
            EncryptedTypes::X500Name(_) => 13,
            EncryptedTypes::DnsName(_) => 14,
            EncryptedTypes::IpAddress(_) => 15,
            EncryptedTypes::Bag(_) => 16,
            EncryptedTypes::Nothing => 17,
        }
    }
}

pub(crate) fn egot_pair(a: &EncryptedTypes, b: &EncryptedTypes) -> (r: &'static str)
    ensures
        r == enc_pair_label(a.value(), b.value()),
{
    if a.code() == b.code() {
        a.ty()
    } else {
        "Mixed"
    }
}

pub(crate) fn egot_triple(a: &EncryptedTypes, b: &EncryptedTypes, c: &EncryptedTypes) -> (r: &'static str)
    ensures
        r == enc_triple_label(a.value(), b.value(), c.value()),
{
    if a.code() == b.code() && b.code() == c.code() {
        a.ty()
    } else {
        "Mixed"
    }
}

fn ebool_of(c: Cipher) -> (r: Result<EncryptedTypes, DispatchError>)
    ensures
        erv(r) == ebool(c.circ()),
{
    Ok(EncryptedTypes::Boolean(c))
}

// ---- Integers and dates ----

pub(crate) fn apply_integer_eq(func: XacmlFunction, a: &EncryptedTypes, b: &EncryptedTypes) -> (r: Result<EncryptedTypes, DispatchError>)
    ensures
        erv(r) == esem_integer_eq(func, a.value(), b.value()),
{
    match (a, b) {
        (EncryptedTypes::Integer(x), EncryptedTypes::Integer(y)) => ebool_of(Cipher::binary(HOp::Eq, x, y)),
        (EncryptedTypes::Date(x), EncryptedTypes::Date(y)) => ebool_of(Cipher::binary(HOp::Eq, x, y)),
        _ => Err(DispatchError::TypeMismatch { func, expected: "Int64, Int64", got: egot_pair(a, b) }),
    }
}

/// The comparison performed by `func` when it is an ordering of `family`.
fn order_of(func: &XacmlFunction, family: u8) -> (r: Option<HOp>)
    requires
        family <= 3,
    ensures
        r is Some <==> order_in_family(*func, family as int),
        r matches Some(op) ==> order_op(*func) == Some(op),
{
    let (fam, op): (u8, HOp) = match func {
        XacmlFunction::IntegerGreaterThan => (0, HOp::Gt),
        XacmlFunction::IntegerGreaterThanOrEqual => (0, HOp::Ge),
        XacmlFunction::IntegerLessThan => (0, HOp::Lt),
        XacmlFunction::IntegerLessThanOrEqual => (0, HOp::Le),
        XacmlFunction::DateGreaterThan => (0, HOp::Gt),
        XacmlFunction::DateGreaterThanOrEqual => (0, HOp::Ge),
        XacmlFunction::DateLessThan => (0, HOp::Lt),
        XacmlFunction::DateLessThanOrEqual => (0, HOp::Le),
        XacmlFunction::DoubleGreaterThan => (1, HOp::Gt),
        XacmlFunction::DoubleGreaterThanOrEqual => (1, HOp::Ge),
        XacmlFunction::DoubleLessThan => (1, HOp::Lt),
        XacmlFunction::DoubleLessThanOrEqual => (1, HOp::Le),
        XacmlFunction::TimeGreaterThan => (2, HOp::Gt),
        XacmlFunction::TimeGreaterThanOrEqual => (2, HOp::Ge),
        XacmlFunction::TimeLessThan => (2, HOp::Lt),
        XacmlFunction::TimeLessThanOrEqual => (2, HOp::Le),
        XacmlFunction::DateTimeGreaterThan => (3, HOp::Gt),
        XacmlFunction::DateTimeGreaterThanOrEqual => (3, HOp::Ge),
        XacmlFunction::DateTimeLessThan => (3, HOp::Lt),
        XacmlFunction::DateTimeLessThanOrEqual => (3, HOp::Le),
        _ => return None,
    };
    if fam == family {
        Some(op)
    } else {
        None
    }
}

fn apply_order(func: XacmlFunction, family: u8, x: &Cipher, y: &Cipher) -> (r: Result<EncryptedTypes, DispatchError>)
    requires
        family <= 3,
    ensures
        erv(r) == eorder(func, family as int, x.circ(), y.circ()),
{
    match order_of(&func, family) {
        Some(op) => ebool_of(Cipher::binary(op, x, y)),
        None => Err(DispatchError::UnsupportedFunction { func }),
    }
}

pub(crate) fn apply_integer_cmp(func: XacmlFunction, a: &EncryptedTypes, b: &EncryptedTypes) -> (r: Result<EncryptedTypes, DispatchError>)
    ensures
        erv(r) == esem_integer_cmp(func, a.value(), b.value()),
{
    match (a, b) {
        (EncryptedTypes::Integer(x), EncryptedTypes::Integer(y)) => apply_order(func, 0, x, y),
        (EncryptedTypes::Date(x), EncryptedTypes::Date(y)) => apply_order(func, 0, x, y),
        _ => Err(DispatchError::TypeMismatch { func, expected: "Int64, Int64", got: egot_pair(a, b) }),
    }
}

pub(crate) fn apply_integer_arith(func: XacmlFunction, a: &EncryptedTypes, b: &EncryptedTypes) -> (r: Result<EncryptedTypes, DispatchError>)
    ensures
        erv(r) == esem_integer_arith(func, a.value(), b.value()),
{
    match (a, b) {
        (EncryptedTypes::Integer(x), EncryptedTypes::Integer(y)) => {
            let op = match func {
                XacmlFunction::IntegerAdd => HOp::Add,
                XacmlFunction::IntegerSubtract => HOp::Sub,
                XacmlFunction::IntegerMultiply => HOp::Mul,
                XacmlFunction::IntegerDivide => HOp::Div,
                _ => return Err(DispatchError::UnsupportedFunction { func }),
            };
            Ok(EncryptedTypes::Integer(Cipher::binary(op, x, y)))
        },
        _ => Err(DispatchError::TypeMismatch { func, expected: "Int64, Int64", got: egot_pair(a, b) }),
    }
}

pub(crate) fn apply_integer_abs(func: XacmlFunction, a: &EncryptedTypes) -> (r: Result<EncryptedTypes, DispatchError>)
    ensures
        erv(r) == esem_integer_abs(func, a.value()),
{
    match a {
        EncryptedTypes::Integer(x) => Ok(EncryptedTypes::Integer(Cipher::unary(HOp::Abs, x))),
        other => Err(DispatchError::TypeMismatch { func, expected: "Int64", got: other.ty() }),
    }
}

// ---- Booleans ----

pub(crate) fn apply_not(func: XacmlFunction, a: &EncryptedTypes) -> (r: Result<EncryptedTypes, DispatchError>)
    ensures
        erv(r) == esem_not(func, a.value()),
{
    match a {
        EncryptedTypes::Boolean(x) => ebool_of(Cipher::unary(HOp::Not, x)),
        other => Err(DispatchError::TypeMismatch { func, expected: "Bool", got: other.ty() }),
    }
}

fn is_and_or(func: &XacmlFunction) -> (r: bool)
    ensures
        r == (*func is And || *func is Or),
{
    match func {
        XacmlFunction::And => true,
        XacmlFunction::Or => true,
        _ => false,
    }
}

pub(crate) fn apply_bool_binop(func: XacmlFunction, a: &EncryptedTypes, b: &EncryptedTypes) -> (r: Result<EncryptedTypes, DispatchError>)
    ensures
        erv(r) == esem_bool_binop(func, a.value(), b.value()),
{
    match (a, b) {
        (EncryptedTypes::Boolean(x), EncryptedTypes::Boolean(y)) => {
            let op = match func {
                XacmlFunction::And => HOp::And,
                XacmlFunction::Or => HOp::Or,
                _ => return Err(DispatchError::UnsupportedFunction { func }),
            };
            ebool_of(Cipher::binary(op, x, y))
        },
        (EncryptedTypes::Nothing, EncryptedTypes::Boolean(y)) => {
            if is_and_or(&func) {
                ebool_of(y.duplicate())
            } else {
                Err(DispatchError::UnsupportedFunction { func })
            }
        },
        (EncryptedTypes::Boolean(x), EncryptedTypes::Nothing) => {
            if is_and_or(&func) {
                ebool_of(x.duplicate())
            } else {
                Err(DispatchError::UnsupportedFunction { func })
            }
        },
        (EncryptedTypes::Nothing, EncryptedTypes::Nothing) => Ok(EncryptedTypes::Nothing),
        _ => Err(DispatchError::TypeMismatch { func, expected: "Bool, Bool", got: egot_pair(a, b) }),
    }
}

pub(crate) fn apply_bool_eq(func: XacmlFunction, a: &EncryptedTypes, b: &EncryptedTypes) -> (r: Result<EncryptedTypes, DispatchError>)
    ensures
        erv(r) == esem_bool_eq(func, a.value(), b.value()),
{
    match (a, b) {
        (EncryptedTypes::Boolean(x), EncryptedTypes::Boolean(y)) => ebool_of(Cipher::binary(HOp::Eq, x, y)),
        _ => Err(DispatchError::TypeMismatch { func, expected: "Bool, Bool", got: egot_pair(a, b) }),
    }
}

pub(crate) fn apply_bool_if_else(
    func: XacmlFunction,
    a: &EncryptedTypes,
    b: &EncryptedTypes,
    c: &EncryptedTypes,
) -> (r: Result<EncryptedTypes, DispatchError>)
    ensures
        erv(r) == esem_bool_if_else(func, a.value(), b.value(), c.value()),
{
    match (a, b, c) {
        (EncryptedTypes::Boolean(x), EncryptedTypes::Boolean(y), EncryptedTypes::Boolean(z)) => ebool_of(
            Cipher::Select(Box::new(x.duplicate()), Box::new(y.duplicate()), Box::new(z.duplicate())),
        ),
        _ => Err(DispatchError::TypeMismatch { func, expected: "Bool, Bool, Bool", got: egot_triple(a, b, c) }),
    }
}

// ---- Fixed-point doubles ----

pub(crate) fn apply_double_eq(func: XacmlFunction, a: &EncryptedTypes, b: &EncryptedTypes) -> (r: Result<EncryptedTypes, DispatchError>)
    ensures
        erv(r) == esem_double_eq(func, a.value(), b.value()),
{
    match (a, b) {
        (EncryptedTypes::Double(x), EncryptedTypes::Double(y)) => ebool_of(Cipher::binary(HOp::Eq, x, y)),
        _ => Err(DispatchError::TypeMismatch {
            func,
            expected: "Double(HLongINteger), Double(HLongINteger)",
            got: egot_pair(a, b),
        }),
    }
}

pub(crate) fn apply_double_cmp(func: XacmlFunction, a: &EncryptedTypes, b: &EncryptedTypes) -> (r: Result<EncryptedTypes, DispatchError>)
    ensures
        erv(r) == esem_double_cmp(func, a.value(), b.value()),
{
    match (a, b) {
        (EncryptedTypes::Double(x), EncryptedTypes::Double(y)) => apply_order(func, 1, x, y),
        _ => Err(DispatchError::TypeMismatch {
            func,
            expected: "Double(HLongINteger), Double(HLongINteger)",
            got: egot_pair(a, b),
        }),
    }
}

pub(crate) fn apply_double_arith(func: XacmlFunction, a: &EncryptedTypes, b: &EncryptedTypes) -> (r: Result<EncryptedTypes, DispatchError>)
    ensures
        erv(r) == esem_double_arith(func, a.value(), b.value()),
{
    match (a, b) {
        (EncryptedTypes::Double(x), EncryptedTypes::Double(y)) => {
            let op = match func {
                XacmlFunction::DoubleAdd => HOp::Add,
                XacmlFunction::DoubleSubtract => HOp::Sub,
                XacmlFunction::DoubleMultiply => HOp::Mul,
                XacmlFunction::DoubleDivide => HOp::Div,
                _ => return Err(DispatchError::UnsupportedFunction { func }),
            };
            Ok(EncryptedTypes::Double(Cipher::binary(op, x, y)))
        },
        _ => Err(DispatchError::TypeMismatch {
            func,
            expected: "Double(HLongINteger), Double(HLongINteger)",
            got: egot_pair(a, b),
        }),
    }
}

pub(crate) fn apply_double_abs(func: XacmlFunction, a: &EncryptedTypes) -> (r: Result<EncryptedTypes, DispatchError>)
    ensures
        erv(r) == esem_double_abs(func, a.value()),
{
    match a {
        EncryptedTypes::Double(x) => Ok(EncryptedTypes::Double(Cipher::unary(HOp::Abs, x))),
        other => Err(DispatchError::TypeMismatch { func, expected: "Double(HLongINteger)", got: other.ty() }),
    }
}

// ---- Time, date-time and durations ----

pub(crate) fn apply_time_eq(func: XacmlFunction, a: &EncryptedTypes, b: &EncryptedTypes) -> (r: Result<EncryptedTypes, DispatchError>)
    ensures
        erv(r) == esem_time_eq(func, a.value(), b.value()),
{
    match (a, b) {
        (EncryptedTypes::Time(x), EncryptedTypes::Time(y)) => ebool_of(Cipher::binary(HOp::Eq, x, y)),
        _ => Err(DispatchError::TypeMismatch {
            func,
            expected: "Time(HUnsignedSmallInteger), Time(HUnsignedSmallInteger)",
            got: egot_pair(a, b),
        }),
    }
}

pub(crate) fn apply_time_cmp(func: XacmlFunction, a: &EncryptedTypes, b: &EncryptedTypes) -> (r: Result<EncryptedTypes, DispatchError>)
    ensures
        erv(r) == esem_time_cmp(func, a.value(), b.value()),
{
    match (a, b) {
        (EncryptedTypes::Time(x), EncryptedTypes::Time(y)) => apply_order(func, 2, x, y),
        _ => Err(DispatchError::TypeMismatch {
            func,
            expected: "Time(HUnsignedSmallInteger), Time(HUnsignedSmallInteger)",
            got: egot_pair(a, b),
        }),
    }
}

pub(crate) fn apply_time_in_range(
    func: XacmlFunction,
    t: &EncryptedTypes,
    start: &EncryptedTypes,
    end: &EncryptedTypes,
) -> (r: Result<EncryptedTypes, DispatchError>)
    ensures
        erv(r) == esem_time_in_range(func, t.value(), start.value(), end.value()),
{
    match (t, start, end) {
        (EncryptedTypes::Time(tt), EncryptedTypes::Time(s), EncryptedTypes::Time(e)) => {
            let ge_start = Cipher::binary(HOp::Ge, tt, s);
            let le_end = Cipher::binary(HOp::Le, tt, e);
            ebool_of(Cipher::Binary(HOp::And, Box::new(ge_start), Box::new(le_end)))
        },
        _ => Err(DispatchError::TypeMismatch {
            func,
            expected: "Time(HUnsignedSmallInteger), Time(HUnsignedSmallInteger), Time(HUnsignedSmallInteger)",
            got: egot_triple(t, start, end),
        }),
    }
}

pub(crate) fn apply_datetime_eq(func: XacmlFunction, a: &EncryptedTypes, b: &EncryptedTypes) -> (r: Result<EncryptedTypes, DispatchError>)
    ensures
        erv(r) == esem_datetime_eq(func, a.value(), b.value()),
{
    match (a, b) {
        (EncryptedTypes::DateTime(x), EncryptedTypes::DateTime(y)) => ebool_of(Cipher::binary(HOp::Eq, x, y)),
        _ => Err(DispatchError::TypeMismatch {
            func,
            expected: "DateTime(HNormalInteger), DateTime(HNormalInteger)",
            got: egot_pair(a, b),
        }),
    }
}

pub(crate) fn apply_datetime_cmp(func: XacmlFunction, a: &EncryptedTypes, b: &EncryptedTypes) -> (r: Result<EncryptedTypes, DispatchError>)
    ensures
        erv(r) == esem_datetime_cmp(func, a.value(), b.value()),
{
    match (a, b) {
        (EncryptedTypes::DateTime(x), EncryptedTypes::DateTime(y)) => apply_order(func, 3, x, y),
        _ => Err(DispatchError::TypeMismatch {
            func,
            expected: "DateTime(HNormalInteger), DateTime(HNormalInteger)",
            got: egot_pair(a, b),
        }),
    }
}

pub(crate) fn apply_datetime_addsub_duration(func: XacmlFunction, dt: &EncryptedTypes, dur: &EncryptedTypes) -> (r: Result<EncryptedTypes, DispatchError>)
    ensures
        erv(r) == esem_datetime_addsub_duration(func, dt.value(), dur.value()),
{
    match (dt, dur) {
        (EncryptedTypes::DateTime(x), EncryptedTypes::DayTimeDuration(d)) => {
            let op = match func {
                XacmlFunction::DateTimeAddDayTimeDuration => HOp::Add,
                XacmlFunction::DateTimeSubtractDayTimeDuration => HOp::Sub,
                _ => return Err(DispatchError::TypeMismatch {
                    func,
                    expected: "DateTime +/\u{2212} DayTimeDuration",
                    got: "Mismatched duration kind",
                }),
            };
            Ok(EncryptedTypes::DateTime(Cipher::binary(op, x, d)))
        },
        (EncryptedTypes::DateTime(x), EncryptedTypes::YearMonthDuration(d)) => {
            let op = match func {
                XacmlFunction::DateTimeAddYearMonthDuration => HOp::Add,
                XacmlFunction::DateTimeSubtractYearMonthDuration => HOp::Sub,
                _ => return Err(DispatchError::TypeMismatch {
                    func,
                    expected: "DateTime +/\u{2212} YearMonthDuration",
                    got: "Mismatched duration kind",
                }),
            };
            Ok(EncryptedTypes::DateTime(Cipher::binary(op, x, d)))
        },
        _ => Err(DispatchError::TypeMismatch {
            func,
            expected: "DateTime(HNormalInteger), (DayTimeDuration|YearMonthDuration)(HNormalInteger)",
            got: egot_pair(dt, dur),
        }),
    }
}

pub(crate) fn apply_daytimeduration_eq(func: XacmlFunction, a: &EncryptedTypes, b: &EncryptedTypes) -> (r: Result<EncryptedTypes, DispatchError>)
    ensures
        erv(r) == esem_daytimeduration_eq(func, a.value(), b.value()),
{
    match (a, b) {
        (EncryptedTypes::DayTimeDuration(x), EncryptedTypes::DayTimeDuration(y)) => ebool_of(Cipher::binary(HOp::Eq, x, y)),
        _ => Err(DispatchError::TypeMismatch {
            func,
            expected: "DayTimeDuration(HNormalInteger), DayTimeDuration(HNormalInteger)",
            got: egot_pair(a, b),
        }),
    }
}

pub(crate) fn apply_yearmonthduration_eq(func: XacmlFunction, a: &EncryptedTypes, b: &EncryptedTypes) -> (r: Result<EncryptedTypes, DispatchError>)
    ensures
        erv(r) == esem_yearmonthduration_eq(func, a.value(), b.value()),
{
    match (a, b) {
        (EncryptedTypes::YearMonthDuration(x), EncryptedTypes::YearMonthDuration(y)) => ebool_of(
            Cipher::binary(HOp::Eq, x, y),
        ),
        _ => Err(DispatchError::TypeMismatch {
            func,
            expected: "YearMonthDuration(HNormalInteger), YearMonthDuration(HNormalInteger)",
            got: egot_pair(a, b),
        }),
    }
}

// ---- Strings, URIs, byte arrays and names ----

fn apply_string_op(func: XacmlFunction, op: HOp, a: &EncryptedTypes, b: &EncryptedTypes) -> (r: Result<EncryptedTypes, DispatchError>)
    ensures
        erv(r) == esem_string_op(func, op, a.value(), b.value()),
{
    match (a, b) {
        (EncryptedTypes::String(x), EncryptedTypes::String(y)) => {
            let c = Cipher::binary(op, x, y);
            match op {
                HOp::Concat => Ok(EncryptedTypes::String(c)),
                _ => ebool_of(c),
            }
        },
        _ => Err(DispatchError::TypeMismatch {
            func,
            expected: "String(FheAsciiString), String(FheAsciiString)",
            got: egot_pair(a, b),
        }),
    }
}

pub(crate) fn apply_string_eq(func: XacmlFunction, a: &EncryptedTypes, b: &EncryptedTypes) -> (r: Result<EncryptedTypes, DispatchError>)
    ensures
        erv(r) == esem_string_op(func, HOp::Eq, a.value(), b.value()),
{
    apply_string_op(func, HOp::Eq, a, b)
}

pub(crate) fn apply_string_eq_ignore_case(func: XacmlFunction, a: &EncryptedTypes, b: &EncryptedTypes) -> (r: Result<EncryptedTypes, DispatchError>)
    ensures
        erv(r) == esem_string_op(func, HOp::EqIgnoreCase, a.value(), b.value()),
{
    apply_string_op(func, HOp::EqIgnoreCase, a, b)
}

pub(crate) fn apply_string_concat(func: XacmlFunction, a: &EncryptedTypes, b: &EncryptedTypes) -> (r: Result<EncryptedTypes, DispatchError>)
    ensures
        erv(r) == esem_string_op(func, HOp::Concat, a.value(), b.value()),
{
    apply_string_op(func, HOp::Concat, a, b)
}

pub(crate) fn apply_string_contains(func: XacmlFunction, a: &EncryptedTypes, b: &EncryptedTypes) -> (r: Result<EncryptedTypes, DispatchError>)
    ensures
        erv(r) == esem_string_op(func, HOp::Contains, a.value(), b.value()),
{
    apply_string_op(func, HOp::Contains, a, b)
}

pub(crate) fn apply_string_starts_with(func: XacmlFunction, a: &EncryptedTypes, b: &EncryptedTypes) -> (r: Result<EncryptedTypes, DispatchError>)
    ensures
        erv(r) == esem_string_op(func, HOp::StartsWith, a.value(), b.value()),
{
    apply_string_op(func, HOp::StartsWith, a, b)
}

pub(crate) fn apply_string_ends_with(func: XacmlFunction, a: &EncryptedTypes, b: &EncryptedTypes) -> (r: Result<EncryptedTypes, DispatchError>)
    ensures
        erv(r) == esem_string_op(func, HOp::EndsWith, a.value(), b.value()),
{
    apply_string_op(func, HOp::EndsWith, a, b)
}

pub(crate) fn apply_anyuri_eq(func: XacmlFunction, a: &EncryptedTypes, b: &EncryptedTypes) -> (r: Result<EncryptedTypes, DispatchError>)
    ensures
        erv(r) == esem_anyuri_eq(func, a.value(), b.value()),
{
    match (a, b) {
        (EncryptedTypes::AnyUri(x), EncryptedTypes::AnyUri(y)) => ebool_of(Cipher::binary(HOp::Eq, x, y)),
        (EncryptedTypes::AnyUri(x), EncryptedTypes::String(y)) => ebool_of(Cipher::binary(HOp::Eq, x, y)),
        (EncryptedTypes::String(y), EncryptedTypes::AnyUri(x)) => ebool_of(Cipher::binary(HOp::Eq, x, y)),
        _ => Err(DispatchError::TypeMismatch {
            func,
            expected: "AnyUri(FheAsciiString), AnyUri(FheAsciiString)",
            got: egot_pair(a, b),
        }),
    }
}

fn apply_anyuri_op(func: XacmlFunction, op: HOp, a: &EncryptedTypes, b: &EncryptedTypes) -> (r: Result<EncryptedTypes, DispatchError>)
    ensures
        erv(r) == esem_anyuri_op(func, op, a.value(), b.value()),
{
    match (a, b) {
        (EncryptedTypes::AnyUri(x), EncryptedTypes::AnyUri(y)) => ebool_of(Cipher::binary(op, x, y)),
        (EncryptedTypes::AnyUri(x), EncryptedTypes::String(y)) => ebool_of(Cipher::binary(op, x, y)),
        _ => Err(DispatchError::TypeMismatch {
            func,
            expected: "AnyUri(FheAsciiString), (AnyUri|String)(FheAsciiString)",
            got: egot_pair(a, b),
        }),
    }
}

pub(crate) fn apply_anyuri_contains(func: XacmlFunction, a: &EncryptedTypes, b: &EncryptedTypes) -> (r: Result<EncryptedTypes, DispatchError>)
    ensures
        erv(r) == esem_anyuri_op(func, HOp::Contains, a.value(), b.value()),
{
    apply_anyuri_op(func, HOp::Contains, a, b)
}

pub(crate) fn apply_anyuri_starts_with(func: XacmlFunction, a: &EncryptedTypes, b: &EncryptedTypes) -> (r: Result<EncryptedTypes, DispatchError>)
    ensures
        erv(r) == esem_anyuri_op(func, HOp::StartsWith, a.value(), b.value()),
{
    apply_anyuri_op(func, HOp::StartsWith, a, b)
}

pub(crate) fn apply_anyuri_ends_with(func: XacmlFunction, a: &EncryptedTypes, b: &EncryptedTypes) -> (r: Result<EncryptedTypes, DispatchError>)
    ensures
        erv(r) == esem_anyuri_op(func, HOp::EndsWith, a.value(), b.value()),
{
    apply_anyuri_op(func, HOp::EndsWith, a, b)
}

pub(crate) fn apply_rfc822name_eq(func: XacmlFunction, a: &EncryptedTypes, b: &EncryptedTypes) -> (r: Result<EncryptedTypes, DispatchError>)
    ensures
        erv(r) == esem_rfc822name_eq(func, a.value(), b.value()),
{
    match (a, b) {
        (EncryptedTypes::Rfc822Name(x), EncryptedTypes::Rfc822Name(y)) => {
            let local_part_eq = Cipher::binary(HOp::Eq, &x.localpart, &y.localpart);
            let domain_part_eq = Cipher::binary(HOp::Eq, &x.domainpart, &y.domainpart);
            ebool_of(Cipher::Binary(HOp::And, Box::new(local_part_eq), Box::new(domain_part_eq)))
        },
        _ => Err(DispatchError::TypeMismatch {
            func,
            expected: "AnyUri(FheAsciiString), (AnyUri|String)(FheAsciiString)",
            got: egot_pair(a, b),
        }),
    }
}

pub(crate) fn apply_cpu_uint_array_eq(func: XacmlFunction, a: &EncryptedTypes, b: &EncryptedTypes) -> (r: Result<EncryptedTypes, DispatchError>)
    ensures
        erv(r) == esem_array_eq(func, a.value(), b.value()),
{
    match (a, b) {
        (EncryptedTypes::Base64Binary(x), EncryptedTypes::Base64Binary(y)) => ebool_of(Cipher::binary(HOp::ArrayEq, x, y)),
        (EncryptedTypes::HexBinary(x), EncryptedTypes::HexBinary(y)) => ebool_of(Cipher::binary(HOp::ArrayEq, x, y)),
        _ => Err(DispatchError::TypeMismatch {
            func,
            expected: "Base64Binary(CpuFheUint8Array), Base64Binary(CpuFheUint8Array)",
            got: egot_pair(a, b),
        }),
    }
}

/// Whether some entry of `m` has the attribute `k`.
fn econtains_key(m: &HX500Name, k: &String) -> (r: bool)
    ensures
        r == ehas_key(m.entries(), k@),
{
    let ghost mv = m.entries();
    let mut i: usize = 0;
    while i < m.val.len()
        invariant
            mv == m.entries(),
            i <= m.val.len(),
            forall|j: int| 0 <= j < i ==> mv[j].0 != k@,
        decreases m.val.len() - i,
    {
        if m.val[i].0 == *k {
            assert(mv[i as int].0 == k@);
            return true;
        }
        i = i + 1;
    }
    false
}

proof fn lemma_elookup_some(m: Seq<(Seq<char>, Circ)>, k: Seq<char>, i: int, j: int)
    requires
        0 <= i <= j < m.len(),
        m[j].0 == k,
    ensures
        elookup_from(m, k, i) is Some,
    decreases j - i,
{
    if m[i].0 != k {
        lemma_elookup_some(m, k, i + 1, j);
    }
}

/// The value of the first entry of `m` whose attribute is `k`.
fn elookup<'a>(m: &'a HX500Name, k: &String) -> (r: Option<&'a Cipher>)
    ensures
        match r {
            Some(c) => elookup_from(m.entries(), k@, 0) == Some(c.circ()),
            None => elookup_from(m.entries(), k@, 0) is None,
        },
{
    let ghost mv = m.entries();
    let mut i: usize = 0;
    while i < m.val.len()
        invariant
            mv == m.entries(),
            mv.len() == m.val.len(),
            i <= m.val.len(),
            elookup_from(mv, k@, 0) == elookup_from(mv, k@, i as int),
        decreases m.val.len() - i,
    {
        if m.val[i].0 == *k {
            return Some(&m.val[i].1);
        }
        i = i + 1;
    }
    None
}

pub(crate) fn apply_x500name_eq(func: XacmlFunction, a: &EncryptedTypes, b: &EncryptedTypes) -> (r: Result<EncryptedTypes, DispatchError>)
    ensures
        erv(r) == esem_x500name_eq(func, a.value(), b.value()),
{
    match (a, b) {
        (EncryptedTypes::X500Name(x), EncryptedTypes::X500Name(y)) => {
            let ghost xv = x.entries();
            let ghost yv = y.entries();
            if x.val.len() != y.val.len() {
                return Err(DispatchError::X500NameNotAllFieldsSupplied { message: "the set of keys is not equal" });
            }
            let mut i: usize = 0;
            while i < x.val.len()
                invariant
                    xv == x.entries(),
                    yv == y.entries(),
                    xv.len() == x.val.len(),
                    i <= x.val.len(),
                    forall|j: int| 0 <= j < i ==> ehas_key(yv, (#[trigger] xv[j]).0),
                    a.value() == EValue::X500Name(xv),
                    b.value() == EValue::X500Name(yv),
                    xv.len() == yv.len(),
                decreases x.val.len() - i,
            {
                if !econtains_key(y, &x.val[i].0) {
                    assert(!ehas_key(yv, xv[i as int].0));
                    assert(exists|j: int| 0 <= j < xv.len() && !ehas_key(yv, (#[trigger] xv[j]).0));
                    return Err(DispatchError::X500NameNotAllFieldsSupplied {
                        message: "one of the keys is not found in the set of other keys",
                    });
                }
                i = i + 1;
            }
            if x.val.len() == 0 {
                return Err(DispatchError::X500NameNotAllFieldsSupplied {
                    message: "fatal error: could not find key in X500Name type variable, mismatched keys",
                });
            }
            proof {
                assert forall|j: int| 0 <= j < xv.len() implies elookup_from(yv, (#[trigger] xv[j]).0, 0) is Some by {
                    assert(ehas_key(yv, xv[j].0));
                    let w = choose|w: int| 0 <= w < yv.len() && (#[trigger] yv[w]).0 == xv[j].0;
                    lemma_elookup_some(yv, xv[j].0, 0, w);
                }
            }
            let v0 = match elookup(y, &x.val[0].0) {
                Some(c) => c,
                None => {
                    return Err(DispatchError::X500NameNotAllFieldsSupplied {
                        message: "fatal error: could not find key in X500Name type variable, mismatched keys",
                    });
                },
            };
            let mut acc = Cipher::binary(HOp::Eq, v0, &x.val[0].1);
            let mut i: usize = 1;
            while i < x.val.len()
                invariant
                    xv == x.entries(),
                    yv == y.entries(),
                    xv.len() == x.val.len(),
                    1 <= i <= x.val.len(),
                    forall|j: int| 0 <= j < xv.len() ==> elookup_from(yv, (#[trigger] xv[j]).0, 0) is Some,
                    acc.circ() == x500_chain(xv, yv, i as nat),
                decreases x.val.len() - i,
            {
                let vi = match elookup(y, &x.val[i].0) {
                    Some(c) => c,
                    None => {
                        assert(elookup_from(yv, xv[i as int].0, 0) is Some);
                        return Err(DispatchError::X500NameNotAllFieldsSupplied {
                            message: "fatal error: could not find key in X500Name type variable, mismatched keys",
                        });
                    },
                };
                let e = Cipher::binary(HOp::Eq, vi, &x.val[i].1);
                acc = Cipher::Binary(HOp::And, Box::new(acc), Box::new(e));
                i = i + 1;
            }
            ebool_of(acc)
        },
        _ => Err(DispatchError::TypeMismatch {
            func,
            expected: "AnyUri(FheAsciiString), (AnyUri|String)(FheAsciiString)",
            got: egot_pair(a, b),
        }),
    }
}

} // verus!
