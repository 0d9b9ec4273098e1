//! The meaning of the XACML functions over encrypted values: for each
//! function, the dispatch error it reports or the homomorphic computation it
//! builds.

use vstd::prelude::*;
use crate::cipher::{bin, tbool, un, Circ, ClearV, EValue};
use crate::constants::XacmlFunction;
use crate::plain::{BinaryImpl, DispatchError, PlainOp, TernaryImpl, UnaryImpl};
use crate::plain_spec::plain_op;
use crate::cipher::HOp;

verus! {

/// The outcome of evaluating a function over encrypted values.
pub type EOutcome = Result<EValue, DispatchError>;

// ------------------------------------------------------------------
// Type labels
// ------------------------------------------------------------------

/// The label under which an encrypted value's type is reported.
pub open spec fn enc_label(v: EValue) -> &'static str {
    match v {
        EValue::Boolean(_) => "Bool",
        EValue::Integer(_) => "Int64",
        EValue::Double(_) => "Double(HLongINteger)",
        EValue::Time(_) => "Time(HUnsignedSmallInteger)",
        EValue::Date(_) => "Date(HNormalInteger)",
        EValue::DateTime(_) => "DateTime(HNormalInteger)",
        EValue::DayTimeDuration(_) => "DayTimeDuration(HNormalInteger)",
        EValue::YearMonthDuration(_) => "YearMonthDuration(HNormalInteger)",
        EValue::Str(_) => "String(FheAsciiString)",
        EValue::AnyUri(_) => "AnyUri(FheAsciiString)",
        EValue::HexBinary(_) => "HexBinary(CpuFheUint8Array)",
        EValue::Base64Binary(_) => "Base64Binary(CpuFheUint8Array)",
        EValue::Rfc822Name(_, _) => "Rfc822Name(HRfc822Name)",
        EValue::X500Name(_) => "X500Name(HX500Name)",
        EValue::DnsName(_, _, _) => "DnsName(HDnsName)",
        EValue::IpAddress(_) => "IpAddress(FheAsciiString)",
        EValue::Bag(_) => "Bag(EncryptedTypes)",
        EValue::Nothing => "Nothing",
    }
}

/// Values share a code exactly when they share a label.
pub open spec fn enc_code(v: EValue) -> int {
    match v {
        EValue::Boolean(_) => 0,
        EValue::Integer(_) => 1,
        EValue::Double(_) => 2,
        EValue::Time(_) => 3,
        EValue::Date(_) => 4,
        EValue::DateTime(_) => 5,
        EValue::DayTimeDuration(_) => 6,
        EValue::YearMonthDuration(_) => 7,
        EValue::Str(_) => 8,
        EValue::AnyUri(_) => 9,
        EValue::HexBinary(_) => 10,
        EValue::Base64Binary(_) => 11,
        EValue::Rfc822Name(_, _) => 12,
        EValue::X500Name(_) => 13,
        EValue::DnsName(_, _, _) => 14,
        EValue::IpAddress(_) => 15,
        EValue::Bag(_) => 16,
        EValue::Nothing => 17,
    }
}

pub open spec fn enc_pair_label(a: EValue, b: EValue) -> &'static str {
    if enc_code(a) == enc_code(b) {
        enc_label(a)
    } else {
        "Mixed"
    }
}

pub open spec fn enc_triple_label(a: EValue, b: EValue, c: EValue) -> &'static str {
    if enc_code(a) == enc_code(b) && enc_code(b) == enc_code(c) {
        enc_label(a)
    } else {
        "Mixed"
    }
}

pub open spec fn emismatch(f: XacmlFunction, expected: &'static str, got: &'static str) -> EOutcome {
    Err(DispatchError::TypeMismatch { func: f, expected, got })
}

pub open spec fn eunsupported(f: XacmlFunction) -> EOutcome {
    Err(DispatchError::UnsupportedFunction { func: f })
}

pub open spec fn ebool(c: Circ) -> EOutcome {
    Ok(EValue::Boolean(c))
}

// ------------------------------------------------------------------
// Integers and dates
// ------------------------------------------------------------------

pub open spec fn esem_integer_eq(f: XacmlFunction, a: EValue, b: EValue) -> EOutcome {
    match (a, b) {
        (EValue::Integer(x), EValue::Integer(y)) => ebool(bin(HOp::Eq, x, y)),
        (EValue::Date(x), EValue::Date(y)) => ebool(bin(HOp::Eq, x, y)),
        _ => emismatch(f, "Int64, Int64", enc_pair_label(a, b)),
    }
}

/// The comparison that an ordering function performs.
pub open spec fn order_op(f: XacmlFunction) -> Option<HOp> {
    match f {
        XacmlFunction::IntegerGreaterThan => Some(HOp::Gt),
        XacmlFunction::IntegerGreaterThanOrEqual => Some(HOp::Ge),
        XacmlFunction::IntegerLessThan => Some(HOp::Lt),
        XacmlFunction::IntegerLessThanOrEqual => Some(HOp::Le),
        XacmlFunction::DateGreaterThan => Some(HOp::Gt),
        XacmlFunction::DateGreaterThanOrEqual => Some(HOp::Ge),
        XacmlFunction::DateLessThan => Some(HOp::Lt),
        XacmlFunction::DateLessThanOrEqual => Some(HOp::Le),
        XacmlFunction::DoubleGreaterThan => Some(HOp::Gt),
        XacmlFunction::DoubleGreaterThanOrEqual => Some(HOp::Ge),
        XacmlFunction::DoubleLessThan => Some(HOp::Lt),
        XacmlFunction::DoubleLessThanOrEqual => Some(HOp::Le),
        XacmlFunction::TimeGreaterThan => Some(HOp::Gt),
        XacmlFunction::TimeGreaterThanOrEqual => Some(HOp::Ge),
        XacmlFunction::TimeLessThan => Some(HOp::Lt),
        XacmlFunction::TimeLessThanOrEqual => Some(HOp::Le),
        XacmlFunction::DateTimeGreaterThan => Some(HOp::Gt),
        XacmlFunction::DateTimeGreaterThanOrEqual => Some(HOp::Ge),
        XacmlFunction::DateTimeLessThan => Some(HOp::Lt),
        XacmlFunction::DateTimeLessThanOrEqual => Some(HOp::Le),
        _ => None,
    }
}

/// An ordering of one family of functions, selected by `family`.
pub open spec fn order_in_family(f: XacmlFunction, family: int) -> bool {
    match f {
        XacmlFunction::IntegerGreaterThan | XacmlFunction::IntegerGreaterThanOrEqual
        | XacmlFunction::IntegerLessThan | XacmlFunction::IntegerLessThanOrEqual
        | XacmlFunction::DateGreaterThan | XacmlFunction::DateGreaterThanOrEqual
        | XacmlFunction::DateLessThan | XacmlFunction::DateLessThanOrEqual => family == 0,
        XacmlFunction::DoubleGreaterThan | XacmlFunction::DoubleGreaterThanOrEqual
        | XacmlFunction::DoubleLessThan | XacmlFunction::DoubleLessThanOrEqual => family == 1,
        XacmlFunction::TimeGreaterThan | XacmlFunction::TimeGreaterThanOrEqual
        | XacmlFunction::TimeLessThan | XacmlFunction::TimeLessThanOrEqual => family == 2,
        XacmlFunction::DateTimeGreaterThan | XacmlFunction::DateTimeGreaterThanOrEqual
        | XacmlFunction::DateTimeLessThan | XacmlFunction::DateTimeLessThanOrEqual => family == 3,
        _ => false,
    }
}

/// The comparison of `x` and `y` by an ordering function of `family`.
pub open spec fn eorder(f: XacmlFunction, family: int, x: Circ, y: Circ) -> EOutcome {
    if order_in_family(f, family) {
        ebool(bin(order_op(f)->0, x, y))
    } else {
        eunsupported(f)
    }
}

pub open spec fn esem_integer_cmp(f: XacmlFunction, a: EValue, b: EValue) -> EOutcome {
    match (a, b) {
        (EValue::Integer(x), EValue::Integer(y)) => eorder(f, 0, x, y),
        (EValue::Date(x), EValue::Date(y)) => eorder(f, 0, x, y),
        _ => emismatch(f, "Int64, Int64", enc_pair_label(a, b)),
    }
}

pub open spec fn esem_integer_arith(f: XacmlFunction, a: EValue, b: EValue) -> EOutcome {
    match (a, b) {
        (EValue::Integer(x), EValue::Integer(y)) => match f {
            XacmlFunction::IntegerAdd => Ok(EValue::Integer(bin(HOp::Add, x, y))),
            XacmlFunction::IntegerSubtract => Ok(EValue::Integer(bin(HOp::Sub, x, y))),
            XacmlFunction::IntegerMultiply => Ok(EValue::Integer(bin(HOp::Mul, x, y))),
            XacmlFunction::IntegerDivide => Ok(EValue::Integer(bin(HOp::Div, x, y))),
            _ => eunsupported(f),
        },
        _ => emismatch(f, "Int64, Int64", enc_pair_label(a, b)),
    }
}

pub open spec fn esem_integer_abs(f: XacmlFunction, a: EValue) -> EOutcome {
    match a {
        EValue::Integer(x) => Ok(EValue::Integer(un(HOp::Abs, x))),
        _ => emismatch(f, "Int64", enc_label(a)),
    }
}

// ------------------------------------------------------------------
// Booleans
// ------------------------------------------------------------------

pub open spec fn esem_not(f: XacmlFunction, a: EValue) -> EOutcome {
    match a {
        EValue::Boolean(x) => ebool(un(HOp::Not, x)),
        _ => emismatch(f, "Bool", enc_label(a)),
    }
}

pub open spec fn esem_bool_binop(f: XacmlFunction, a: EValue, b: EValue) -> EOutcome {
    match (a, b) {
        (EValue::Boolean(x), EValue::Boolean(y)) => match f {
            XacmlFunction::And => ebool(bin(HOp::And, x, y)),
            XacmlFunction::Or => ebool(bin(HOp::Or, x, y)),
            _ => eunsupported(f),
        },
        (EValue::Nothing, EValue::Boolean(y)) => if f is And || f is Or {
            ebool(y)
        } else {
            eunsupported(f)
        },
        (EValue::Boolean(x), EValue::Nothing) => if f is And || f is Or {
            ebool(x)
        } else {
            eunsupported(f)
        },
        (EValue::Nothing, EValue::Nothing) => Ok(EValue::Nothing),
        _ => emismatch(f, "Bool, Bool", enc_pair_label(a, b)),
    }
}

pub open spec fn esem_bool_eq(f: XacmlFunction, a: EValue, b: EValue) -> EOutcome {
    match (a, b) {
        (EValue::Boolean(x), EValue::Boolean(y)) => ebool(bin(HOp::Eq, x, y)),
        _ => emismatch(f, "Bool, Bool", enc_pair_label(a, b)),
    }
}

pub open spec fn esem_bool_if_else(f: XacmlFunction, a: EValue, b: EValue, c: EValue) -> EOutcome {
    match (a, b, c) {
        (EValue::Boolean(x), EValue::Boolean(y), EValue::Boolean(z)) => ebool(
            Circ::Select(Box::new(x), Box::new(y), Box::new(z)),
        ),
        _ => emismatch(f, "Bool, Bool, Bool", enc_triple_label(a, b, c)),
    }
}

// ------------------------------------------------------------------
// Fixed-point doubles
// ------------------------------------------------------------------

pub open spec fn esem_double_eq(f: XacmlFunction, a: EValue, b: EValue) -> EOutcome {
    match (a, b) {
        (EValue::Double(x), EValue::Double(y)) => ebool(bin(HOp::Eq, x, y)),
        _ => emismatch(f, "Double(HLongINteger), Double(HLongINteger)", enc_pair_label(a, b)),
    }
}

pub open spec fn esem_double_cmp(f: XacmlFunction, a: EValue, b: EValue) -> EOutcome {
    match (a, b) {
        (EValue::Double(x), EValue::Double(y)) => eorder(f, 1, x, y),
        _ => emismatch(f, "Double(HLongINteger), Double(HLongINteger)", enc_pair_label(a, b)),
    }
}

pub open spec fn esem_double_arith(f: XacmlFunction, a: EValue, b: EValue) -> EOutcome {
    match (a, b) {
        (EValue::Double(x), EValue::Double(y)) => match f {
            XacmlFunction::DoubleAdd => Ok(EValue::Double(bin(HOp::Add, x, y))),
            XacmlFunction::DoubleSubtract => Ok(EValue::Double(bin(HOp::Sub, x, y))),
            XacmlFunction::DoubleMultiply => Ok(EValue::Double(bin(HOp::Mul, x, y))),
            XacmlFunction::DoubleDivide => Ok(EValue::Double(bin(HOp::Div, x, y))),
            _ => eunsupported(f),
        },
        _ => emismatch(f, "Double(HLongINteger), Double(HLongINteger)", enc_pair_label(a, b)),
    }
}

pub open spec fn esem_double_abs(f: XacmlFunction, a: EValue) -> EOutcome {
    match a {
        EValue::Double(x) => Ok(EValue::Double(un(HOp::Abs, x))),
        _ => emismatch(f, "Double(HLongINteger)", enc_label(a)),
    }
}

// ------------------------------------------------------------------
// Time, date-time and durations
// ------------------------------------------------------------------

pub open spec fn esem_time_eq(f: XacmlFunction, a: EValue, b: EValue) -> EOutcome {
    match (a, b) {
        (EValue::Time(x), EValue::Time(y)) => ebool(bin(HOp::Eq, x, y)),
        _ => emismatch(f, "Time(HUnsignedSmallInteger), Time(HUnsignedSmallInteger)", enc_pair_label(a, b)),
    }
}

pub open spec fn esem_time_cmp(f: XacmlFunction, a: EValue, b: EValue) -> EOutcome {
    match (a, b) {
        (EValue::Time(x), EValue::Time(y)) => eorder(f, 2, x, y),
        _ => emismatch(f, "Time(HUnsignedSmallInteger), Time(HUnsignedSmallInteger)", enc_pair_label(a, b)),
    }
}

pub open spec fn esem_time_in_range(f: XacmlFunction, t: EValue, s: EValue, e: EValue) -> EOutcome {
    match (t, s, e) {
        (EValue::Time(tt), EValue::Time(ss), EValue::Time(ee)) => ebool(
            bin(HOp::And, bin(HOp::Ge, tt, ss), bin(HOp::Le, tt, ee)),
        ),
        _ => emismatch(
            f,
            "Time(HUnsignedSmallInteger), Time(HUnsignedSmallInteger), Time(HUnsignedSmallInteger)",
            enc_triple_label(t, s, e),
        ),
    }
}

pub open spec fn esem_datetime_eq(f: XacmlFunction, a: EValue, b: EValue) -> EOutcome {
    match (a, b) {
        (EValue::DateTime(x), EValue::DateTime(y)) => ebool(bin(HOp::Eq, x, y)),
        _ => emismatch(f, "DateTime(HNormalInteger), DateTime(HNormalInteger)", enc_pair_label(a, b)),
    }
}

pub open spec fn esem_datetime_cmp(f: XacmlFunction, a: EValue, b: EValue) -> EOutcome {
    match (a, b) {
        (EValue::DateTime(x), EValue::DateTime(y)) => eorder(f, 3, x, y),
        _ => emismatch(f, "DateTime(HNormalInteger), DateTime(HNormalInteger)", enc_pair_label(a, b)),
    }
}

pub open spec fn esem_datetime_addsub_duration(f: XacmlFunction, a: EValue, b: EValue) -> EOutcome {
    match (a, b) {
        (EValue::DateTime(x), EValue::DayTimeDuration(d)) => match f {
            XacmlFunction::DateTimeAddDayTimeDuration => Ok(EValue::DateTime(bin(HOp::Add, x, d))),
            XacmlFunction::DateTimeSubtractDayTimeDuration => Ok(EValue::DateTime(bin(HOp::Sub, x, d))),
            _ => emismatch(f, "DateTime +/\u{2212} DayTimeDuration", "Mismatched duration kind"),
        },
        (EValue::DateTime(x), EValue::YearMonthDuration(d)) => match f {
            XacmlFunction::DateTimeAddYearMonthDuration => Ok(EValue::DateTime(bin(HOp::Add, x, d))),
            XacmlFunction::DateTimeSubtractYearMonthDuration => Ok(EValue::DateTime(bin(HOp::Sub, x, d))),
            _ => emismatch(f, "DateTime +/\u{2212} YearMonthDuration", "Mismatched duration kind"),
        },
        _ => emismatch(
            f,
            "DateTime(HNormalInteger), (DayTimeDuration|YearMonthDuration)(HNormalInteger)",
            enc_pair_label(a, b),
        ),
    }
}

pub open spec fn esem_daytimeduration_eq(f: XacmlFunction, a: EValue, b: EValue) -> EOutcome {
    match (a, b) {
        (EValue::DayTimeDuration(x), EValue::DayTimeDuration(y)) => ebool(bin(HOp::Eq, x, y)),
        _ => emismatch(f, "DayTimeDuration(HNormalInteger), DayTimeDuration(HNormalInteger)", enc_pair_label(a, b)),
    }
}

pub open spec fn esem_yearmonthduration_eq(f: XacmlFunction, a: EValue, b: EValue) -> EOutcome {
    match (a, b) {
        (EValue::YearMonthDuration(x), EValue::YearMonthDuration(y)) => ebool(bin(HOp::Eq, x, y)),
        _ => emismatch(
            f,
            "YearMonthDuration(HNormalInteger), YearMonthDuration(HNormalInteger)",
            enc_pair_label(a, b),
        ),
    }
}

// ------------------------------------------------------------------
// Strings, URIs, byte arrays and names
// ------------------------------------------------------------------

/// A string function of two strings, computed by `op`.
pub open spec fn esem_string_op(f: XacmlFunction, op: HOp, a: EValue, b: EValue) -> EOutcome {
    match (a, b) {
        (EValue::Str(x), EValue::Str(y)) => if op == HOp::Concat {
            Ok(EValue::Str(bin(op, x, y)))
        } else {
            ebool(bin(op, x, y))
        },
        _ => emismatch(f, "String(FheAsciiString), String(FheAsciiString)", enc_pair_label(a, b)),
    }
}

pub open spec fn esem_anyuri_eq(f: XacmlFunction, a: EValue, b: EValue) -> EOutcome {
    match (a, b) {
        (EValue::AnyUri(x), EValue::AnyUri(y)) => ebool(bin(HOp::Eq, x, y)),
        (EValue::AnyUri(x), EValue::Str(y)) => ebool(bin(HOp::Eq, x, y)),
        (EValue::Str(y), EValue::AnyUri(x)) => ebool(bin(HOp::Eq, x, y)),
        _ => emismatch(f, "AnyUri(FheAsciiString), AnyUri(FheAsciiString)", enc_pair_label(a, b)),
    }
}

/// A URI pattern function, computed by `op`.
pub open spec fn esem_anyuri_op(f: XacmlFunction, op: HOp, a: EValue, b: EValue) -> EOutcome {
    match (a, b) {
        (EValue::AnyUri(x), EValue::AnyUri(y)) => ebool(bin(op, x, y)),
        (EValue::AnyUri(x), EValue::Str(y)) => ebool(bin(op, x, y)),
        _ => emismatch(f, "AnyUri(FheAsciiString), (AnyUri|String)(FheAsciiString)", enc_pair_label(a, b)),
    }
}

pub open spec fn esem_array_eq(f: XacmlFunction, a: EValue, b: EValue) -> EOutcome {
    match (a, b) {
        (EValue::Base64Binary(x), EValue::Base64Binary(y)) => ebool(bin(HOp::ArrayEq, x, y)),
        (EValue::HexBinary(x), EValue::HexBinary(y)) => ebool(bin(HOp::ArrayEq, x, y)),
        _ => emismatch(f, "Base64Binary(CpuFheUint8Array), Base64Binary(CpuFheUint8Array)", enc_pair_label(a, b)),
    }
}

pub open spec fn esem_rfc822name_eq(f: XacmlFunction, a: EValue, b: EValue) -> EOutcome {
    match (a, b) {
        (EValue::Rfc822Name(xl, xd), EValue::Rfc822Name(yl, yd)) => ebool(
            bin(HOp::And, bin(HOp::Eq, xl, yl), bin(HOp::Eq, xd, yd)),
        ),
        _ => emismatch(f, "AnyUri(FheAsciiString), (AnyUri|String)(FheAsciiString)", enc_pair_label(a, b)),
    }
}

pub open spec fn ehas_key(m: Seq<(Seq<char>, Circ)>, k: Seq<char>) -> bool {
    exists|i: int| 0 <= i < m.len() && (#[trigger] m[i]).0 == k
}

/// The value of the first entry of `m`, from position `i` on, whose key is `k`.
pub open spec fn elookup_from(m: Seq<(Seq<char>, Circ)>, k: Seq<char>, i: int) -> Option<Circ>
    decreases m.len() - i,
{
    if i < 0 || i >= m.len() {
        None
    } else if m[i].0 == k {
        Some(m[i].1)
    } else {
        elookup_from(m, k, i + 1)
    }
}

/// The equality test of the `i`th entry of `x` against the entry of `y` with the same key.
pub open spec fn x500_entry_eq(x: Seq<(Seq<char>, Circ)>, y: Seq<(Seq<char>, Circ)>, i: int) -> Circ {
    bin(HOp::Eq, elookup_from(y, x[i].0, 0)->0, x[i].1)
}

/// The conjunction of the entry tests of the first `n` entries of `x`, left to right.
pub open spec fn x500_chain(x: Seq<(Seq<char>, Circ)>, y: Seq<(Seq<char>, Circ)>, n: nat) -> Circ
    decreases n,
{
    if n <= 1 {
        x500_entry_eq(x, y, 0)
    } else {
        bin(HOp::And, x500_chain(x, y, (n - 1) as nat), x500_entry_eq(x, y, n - 1))
    }
}

pub open spec fn ex500_error(message: &'static str) -> EOutcome {
    Err(DispatchError::X500NameNotAllFieldsSupplied { message })
}

pub open spec fn esem_x500name_eq(f: XacmlFunction, a: EValue, b: EValue) -> EOutcome {
    match (a, b) {
        (EValue::X500Name(x), EValue::X500Name(y)) => {
            if x.len() != y.len() {
                ex500_error("the set of keys is not equal")
            } else if exists|i: int| 0 <= i < x.len() && !ehas_key(y, (#[trigger] x[i]).0) {
                ex500_error("one of the keys is not found in the set of other keys")
            } else if x.len() == 0 {
                ex500_error("fatal error: could not find key in X500Name type variable, mismatched keys")
            } else {
                ebool(x500_chain(x, y, x.len()))
            }
        },
        _ => emismatch(f, "AnyUri(FheAsciiString), (AnyUri|String)(FheAsciiString)", enc_pair_label(a, b)),
    }
}

// ------------------------------------------------------------------
// Folds of encrypted truth values
// ------------------------------------------------------------------

/// The homomorphic connective of a fold: conjunction or disjunction.
pub open spec fn conn(conj: bool) -> HOp {
    if conj {
        HOp::And
    } else {
        HOp::Or
    }
}

/// Adds `r` to a fold: the first value starts it, each later one is joined
/// on the right.
pub open spec fn ojoin(conj: bool, acc: Option<Circ>, r: Circ) -> Option<Circ> {
    match acc {
        None => Some(r),
        Some(p) => Some(bin(conn(conj), p, r)),
    }
}

/// The result of a fold: a trivially encrypted neutral value when nothing was folded.
pub open spec fn ofinish(conj: bool, acc: Option<Circ>) -> Circ {
    match acc {
        None => tbool(conj),
        Some(c) => c,
    }
}

/// Folds `cs` from position `i` on into `acc`, left to right.
pub open spec fn fold_from(conj: bool, acc: Option<Circ>, cs: Seq<Circ>, i: int) -> Option<Circ>
    decreases cs.len() - i,
{
    if i < 0 || i >= cs.len() {
        acc
    } else {
        fold_from(conj, ojoin(conj, acc, cs[i]), cs, i + 1)
    }
}

/// One level of a balanced reduction by `op`: neighbours are combined
/// pairwise and an odd last element is carried over.
pub open spec fn pair_level(op: HOp, s: Seq<Circ>) -> Seq<Circ> {
    Seq::new(
        ((s.len() + 1) / 2) as nat,
        |k: int| if 2 * k + 1 < s.len() { bin(op, s[2 * k], s[2 * k + 1]) } else { s[s.len() - 1] },
    )
}

/// The balanced reduction of a non-empty sequence by `op`.
pub open spec fn balanced_circ(op: HOp, s: Seq<Circ>) -> Circ
    decreases s.len(),
{
    if s.len() <= 1 {
        s[0]
    } else {
        balanced_circ(op, pair_level(op, s))
    }
}

// ------------------------------------------------------------------
// Bags of strings and variadic functions
// ------------------------------------------------------------------

/// The first element of `s`, from position `i` on, that is not a string.
pub open spec fn first_non_estr_from(s: Seq<EValue>, i: int) -> Option<EValue>
    decreases s.len() - i,
{
    if i < 0 || i >= s.len() {
        None
    } else if !(s[i] is Str) {
        Some(s[i])
    } else {
        first_non_estr_from(s, i + 1)
    }
}

/// The computation held by an encrypted string.
pub open spec fn estr_of(v: EValue) -> Circ {
    match v {
        EValue::Str(c) => c,
        _ => tbool(false),
    }
}

pub open spec fn eindeterminate(f: XacmlFunction, reason: &'static str) -> EOutcome {
    Err(DispatchError::Indeterminate { func: f, reason })
}

pub open spec fn esem_string_one_and_only(f: XacmlFunction, bag: EValue) -> EOutcome {
    match bag {
        EValue::Str(c) => Ok(EValue::Str(c)),
        EValue::Bag(vs) => if vs.len() != 1 {
            eindeterminate(f, "string-one-and-only requires exactly one value in the bag")
        } else {
            match vs[0] {
                EValue::Str(_) => Ok(vs[0]),
                other => emismatch(f, "String(FheAsciiString)", enc_label(other)),
            }
        },
        _ => emismatch(f, "Bag", enc_label(bag)),
    }
}

pub open spec fn esem_string_bag_size(f: XacmlFunction, bag: EValue) -> EOutcome {
    match bag {
        EValue::Bag(vs) => match first_non_estr_from(vs, 0) {
            Some(v) => emismatch(f, "Bag(String)", enc_label(v)),
            None => if vs.len() <= i64::MAX {
                Ok(EValue::Integer(Circ::Trivial(ClearV::Int(vs.len() as i128))))
            } else {
                eindeterminate(f, "bag size does not fit into i64")
            },
        },
        _ => emismatch(f, "Bag", enc_label(bag)),
    }
}

/// The equality tests of `s` against each string of `vs`.
pub open spec fn eq_tests(s: Circ, vs: Seq<EValue>) -> Seq<Circ> {
    vs.map_values(|w: EValue| bin(HOp::Eq, s, estr_of(w)))
}

pub open spec fn esem_string_is_in(f: XacmlFunction, value: EValue, bag: EValue) -> EOutcome {
    match value {
        EValue::Str(s) => match bag {
            EValue::Bag(vs) => match first_non_estr_from(vs, 0) {
                Some(v) => emismatch(f, "Bag(String)", enc_label(v)),
                None => ebool(ofinish(false, fold_from(false, None, eq_tests(s, vs), 0))),
            },
            _ => emismatch(f, "Bag", enc_label(bag)),
        },
        _ => emismatch(f, "String(FheAsciiString)", enc_label(value)),
    }
}

/// The strings of `args` from position `i` on, or the error for the first
/// argument that is missing or not a string.
pub open spec fn ebag_args_from(f: XacmlFunction, args: Seq<Option<EValue>>, i: int) -> Result<Seq<EValue>, DispatchError>
    decreases args.len() - i,
{
    if i < 0 || i >= args.len() {
        Ok(Seq::empty())
    } else {
        match args[i] {
            None => Err(DispatchError::Indeterminate { func: f, reason: "missing argument in string-bag" }),
            Some(v) => if v is Str {
                match ebag_args_from(f, args, i + 1) {
                    Ok(rest) => Ok(seq![v] + rest),
                    Err(e) => Err(e),
                }
            } else {
                Err(DispatchError::TypeMismatch { func: f, expected: "String(FheAsciiString)", got: enc_label(v) })
            },
        }
    }
}

pub open spec fn esem_string_bag(f: XacmlFunction, args: Seq<Option<EValue>>) -> EOutcome {
    match ebag_args_from(f, args, 0) {
        Ok(vs) => Ok(EValue::Bag(vs)),
        Err(e) => Err(e),
    }
}

/// The encrypted strings held by a string or a bag of strings.
pub open spec fn estring_values(f: XacmlFunction, v: EValue) -> Result<Seq<Circ>, DispatchError> {
    match v {
        EValue::Str(c) => Ok(seq![c]),
        EValue::Bag(vs) => match first_non_estr_from(vs, 0) {
            Some(w) => Err(
                DispatchError::TypeMismatch {
                    func: f,
                    expected: "String(FheAsciiString) or Bag(String)",
                    got: enc_label(w),
                },
            ),
            None => Ok(vs.map_values(|w: EValue| estr_of(w))),
        },
        _ => Err(
            DispatchError::TypeMismatch { func: f, expected: "String(FheAsciiString) or Bag(String)", got: enc_label(v) },
        ),
    }
}

/// The equality tests of `l` against each of `rs`.
pub open spec fn row_tests(l: Circ, rs: Seq<Circ>) -> Seq<Circ> {
    rs.map_values(|r: Circ| bin(HOp::Eq, l, r))
}

/// The disjunction of the equality tests of each of `ls` (from position `i`
/// on) against each of `rs`, in row order, folded into `acc`.
pub open spec fn pairs_fold(ls: Seq<Circ>, rs: Seq<Circ>, i: int, acc: Option<Circ>) -> Option<Circ>
    decreases ls.len() - i,
{
    if i < 0 || i >= ls.len() {
        acc
    } else {
        pairs_fold(ls, rs, i + 1, fold_from(false, acc, row_tests(ls[i], rs), 0))
    }
}

pub open spec fn esem_string_at_least_one_member_of(f: XacmlFunction, l: EValue, r: EValue) -> EOutcome {
    match estring_values(f, l) {
        Err(e) => Err(e),
        Ok(ls) => match estring_values(f, r) {
            Err(e) => Err(e),
            Ok(rs) => ebool(ofinish(false, pairs_fold(ls, rs, 0, None))),
        },
    }
}

/// The encrypted truth values of `args` from position `i` on (absent values
/// skipped), or the error for the first argument that is missing or not a
/// truth value.
pub open spec fn ebool_args_from(f: XacmlFunction, args: Seq<Option<EValue>>, i: int) -> Result<Seq<Circ>, DispatchError>
    decreases args.len() - i,
{
    if i < 0 || i >= args.len() {
        Ok(Seq::empty())
    } else {
        match args[i] {
            None => Err(
                DispatchError::Indeterminate { func: f, reason: "missing argument in boolean vector operation" },
            ),
            Some(EValue::Boolean(c)) => match ebool_args_from(f, args, i + 1) {
                Ok(rest) => Ok(seq![c] + rest),
                Err(e) => Err(e),
            },
            Some(EValue::Nothing) => ebool_args_from(f, args, i + 1),
            Some(v) => Err(DispatchError::TypeMismatch { func: f, expected: "Bool", got: enc_label(v) }),
        }
    }
}

pub open spec fn esem_bool_vec(f: XacmlFunction, args: Seq<Option<EValue>>) -> EOutcome {
    if args.len() == 0 {
        Err(DispatchError::ArityMismatch { func: f, expected: 1, got: 0 })
    } else {
        match ebool_args_from(f, args, 0) {
            Err(e) => Err(e),
            Ok(cs) => if cs.len() == 0 {
                Ok(EValue::Nothing)
            } else {
                match f {
                    XacmlFunction::And => ebool(balanced_circ(HOp::And, cs)),
                    XacmlFunction::Or => ebool(balanced_circ(HOp::Or, cs)),
                    _ => eunsupported(f),
                }
            },
        }
    }
}

// ------------------------------------------------------------------
// Dispatch
// ------------------------------------------------------------------

/// The arity of a function served over encrypted values, with its implementation.
#[derive(Debug, PartialEq, Eq, Clone, Copy)]
pub enum TfheOp {
    Unary(UnaryImpl),
    Binary(BinaryImpl),
    Ternary(TernaryImpl),
}

/// The implementation that serves each function over encrypted values: the
/// plain table, without integer-mod.
pub open spec fn tfhe_op(f: XacmlFunction) -> Result<TfheOp, DispatchError> {
    if f is IntegerMod {
        Err(DispatchError::UnsupportedFunction { func: f })
    } else {
        match plain_op(f) {
            Ok(PlainOp::Unary(k)) => Ok(TfheOp::Unary(k)),
            Ok(PlainOp::Binary(k)) => Ok(TfheOp::Binary(k)),
            Ok(PlainOp::Ternary(k)) => Ok(TfheOp::Ternary(k)),
            Err(e) => Err(e),
        }
    }
}

pub open spec fn esem_unary_impl(k: UnaryImpl, f: XacmlFunction, a: EValue) -> EOutcome {
    match k {
        UnaryImpl::IntegerAbs => esem_integer_abs(f, a),
        UnaryImpl::Not => esem_not(f, a),
        UnaryImpl::DoubleAbs => esem_double_abs(f, a),
        UnaryImpl::StringOneAndOnly => esem_string_one_and_only(f, a),
        UnaryImpl::StringBagSize => esem_string_bag_size(f, a),
    }
}

pub open spec fn esem_ternary_impl(k: TernaryImpl, f: XacmlFunction, a: EValue, b: EValue, c: EValue) -> EOutcome {
    match k {
        TernaryImpl::BoolIfElse => esem_bool_if_else(f, a, b, c),
        TernaryImpl::TimeInRange => esem_time_in_range(f, a, b, c),
    }
}

pub open spec fn esem_unary(f: XacmlFunction, a: EValue) -> EOutcome {
    match tfhe_op(f) {
        Ok(TfheOp::Unary(k)) => esem_unary_impl(k, f, a),
        Ok(_) => Err(DispatchError::ArityMismatch { func: f, expected: 1, got: 1 }),
        Err(e) => Err(e),
    }
}

pub open spec fn esem_ternary(f: XacmlFunction, a: EValue, b: EValue, c: EValue) -> EOutcome {
    match tfhe_op(f) {
        Ok(TfheOp::Ternary(k)) => esem_ternary_impl(k, f, a, b, c),
        Ok(_) => Err(DispatchError::ArityMismatch { func: f, expected: 3, got: 3 }),
        Err(e) => Err(e),
    }
}

/// A predicate's outcome read as an encrypted truth value.
pub open spec fn epred_outcome(p: XacmlFunction, o: EOutcome) -> Result<Circ, DispatchError> {
    match o {
        Err(e) => Err(e),
        Ok(EValue::Boolean(c)) => Ok(c),
        Ok(v) => Err(DispatchError::TypeMismatch { func: p, expected: "Bool", got: enc_label(v) }),
    }
}

/// The inner predicate of a quantified function, applied to `a` and `b`.
pub open spec fn epred(f: XacmlFunction, a: EValue, b: EValue) -> Result<Circ, DispatchError>
    decreases f, 0int, 0int,
{
    match f {
        XacmlFunction::AnyOf(Some(p)) => epred_outcome(*p, esem_binary(*p, a, b)),
        XacmlFunction::AllOf(Some(p)) => epred_outcome(*p, esem_binary(*p, a, b)),
        XacmlFunction::AnyOfAny(Some(p)) => epred_outcome(*p, esem_binary(*p, a, b)),
        XacmlFunction::AllOfAny(Some(p)) => epred_outcome(*p, esem_binary(*p, a, b)),
        XacmlFunction::AnyOfAll(Some(p)) => epred_outcome(*p, esem_binary(*p, a, b)),
        XacmlFunction::AllOfAll(Some(p)) => epred_outcome(*p, esem_binary(*p, a, b)),
        _ => Ok(tbool(false)),
    }
}

/// The predicate applied between `fixed` and each of `elems` from position
/// `i` on (with `fixed` first or second), folded into `acc`; the first error
/// met ends the fold.
pub open spec fn erow(
    f: XacmlFunction,
    fixed: EValue,
    elems: Seq<EValue>,
    i: int,
    fixed_first: bool,
    conj: bool,
    acc: Option<Circ>,
) -> Result<Option<Circ>, DispatchError>
    decreases f, 1int, elems.len() - i,
{
    if i < 0 || i >= elems.len() {
        Ok(acc)
    } else {
        let p = if fixed_first {
            epred(f, fixed, elems[i])
        } else {
            epred(f, elems[i], fixed)
        };
        match p {
            Err(e) => Err(e),
            Ok(r) => erow(f, fixed, elems, i + 1, fixed_first, conj, ojoin(conj, acc, r)),
        }
    }
}

/// One fold over all pairs of the two bags, row by row, from row `i` on.
pub open spec fn egrid_flat(
    f: XacmlFunction,
    b1: Seq<EValue>,
    b2: Seq<EValue>,
    i: int,
    conj: bool,
    acc: Option<Circ>,
) -> Result<Option<Circ>, DispatchError>
    decreases f, 2int, b1.len() - i,
{
    if i < 0 || i >= b1.len() {
        Ok(acc)
    } else {
        match erow(f, b1[i], b2, 0, true, conj, acc) {
            Err(e) => Err(e),
            Ok(a) => egrid_flat(f, b1, b2, i + 1, conj, a),
        }
    }
}

/// A fold of its own for each element of `outer` (from position `i` on),
/// whose results are folded again into `acc`.
pub open spec fn egrid_nested(
    f: XacmlFunction,
    outer: Seq<EValue>,
    inner: Seq<EValue>,
    i: int,
    outer_first: bool,
    outer_conj: bool,
    inner_conj: bool,
    acc: Option<Circ>,
) -> Result<Option<Circ>, DispatchError>
    decreases f, 2int, outer.len() - i,
{
    if i < 0 || i >= outer.len() {
        Ok(acc)
    } else {
        match erow(f, outer[i], inner, 0, outer_first, inner_conj, None) {
            Err(e) => Err(e),
            Ok(a) => egrid_nested(
                f,
                outer,
                inner,
                i + 1,
                outer_first,
                outer_conj,
                inner_conj,
                ojoin(outer_conj, acc, ofinish(inner_conj, a)),
            ),
        }
    }
}

pub open spec fn efinish(conj: bool, r: Result<Option<Circ>, DispatchError>) -> EOutcome {
    match r {
        Err(e) => Err(e),
        Ok(a) => ebool(ofinish(conj, a)),
    }
}

pub open spec fn eabsent(message: &'static str) -> EOutcome {
    Err(DispatchError::AbsentInnerFunction { message })
}

pub open spec fn esem_any_of(f: XacmlFunction, value: EValue, bag: EValue) -> EOutcome
    decreases f, 3int, 0int,
{
    match (bag, f) {
        (EValue::Bag(b), XacmlFunction::AnyOf(None)) => eabsent("no inner function found in all-of function evaluation"),
        (EValue::Bag(b), XacmlFunction::AnyOf(Some(_))) => efinish(false, erow(f, value, b, 0, true, false, None)),
        _ => emismatch(f, "Bag", enc_label(bag)),
    }
}

pub open spec fn esem_all_of(f: XacmlFunction, value: EValue, bag: EValue) -> EOutcome
    decreases f, 3int, 0int,
{
    match (bag, f) {
        (EValue::Bag(b), XacmlFunction::AllOf(None)) => eabsent("no inner function found in all-of function evaluation"),
        (EValue::Bag(b), XacmlFunction::AllOf(Some(_))) => efinish(true, erow(f, value, b, 0, true, true, None)),
        _ => emismatch(f, "Bag", enc_label(bag)),
    }
}

pub open spec fn esem_any_of_any(f: XacmlFunction, a: EValue, b: EValue) -> EOutcome
    decreases f, 3int, 0int,
{
    match (a, b, f) {
        (EValue::Bag(b1), EValue::Bag(b2), XacmlFunction::AnyOfAny(None)) => eabsent(
            "no inner function found in all-of-all function evaluation",
        ),
        (EValue::Bag(b1), EValue::Bag(b2), XacmlFunction::AnyOfAny(Some(_))) => efinish(
            false,
            egrid_flat(f, b1, b2, 0, false, None),
        ),
        _ => emismatch(f, "Bag, Bag", enc_pair_label(a, b)),
    }
}

pub open spec fn esem_all_of_any(f: XacmlFunction, a: EValue, b: EValue) -> EOutcome
    decreases f, 3int, 0int,
{
    match (a, b, f) {
        (EValue::Bag(b1), EValue::Bag(b2), XacmlFunction::AllOfAny(None)) => eabsent(
            "no inner function found in all-of-any function evaluation",
        ),
        (EValue::Bag(b1), EValue::Bag(b2), XacmlFunction::AllOfAny(Some(_))) => efinish(
            true,
            egrid_nested(f, b1, b2, 0, true, true, false, None),
        ),
        _ => emismatch(f, "Bag, Bag", enc_pair_label(a, b)),
    }
}

pub open spec fn esem_any_of_all(f: XacmlFunction, a: EValue, b: EValue) -> EOutcome
    decreases f, 3int, 0int,
{
    match (a, b, f) {
        (EValue::Bag(b1), EValue::Bag(b2), XacmlFunction::AnyOfAll(None)) => eabsent(
            "no inner function found in any-of-all function evaluation",
        ),
        (EValue::Bag(b1), EValue::Bag(b2), XacmlFunction::AnyOfAll(Some(_))) => efinish(
            true,
            egrid_nested(f, b2, b1, 0, false, true, false, None),
        ),
        _ => emismatch(f, "Bag, Bag", enc_pair_label(a, b)),
    }
}

pub open spec fn esem_all_of_all(f: XacmlFunction, a: EValue, b: EValue) -> EOutcome
    decreases f, 3int, 0int,
{
    match (a, b, f) {
        (EValue::Bag(b1), EValue::Bag(b2), XacmlFunction::AllOfAll(None)) => eabsent(
            "no inner function found in all-of-all function evaluation",
        ),
        (EValue::Bag(b1), EValue::Bag(b2), XacmlFunction::AllOfAll(Some(_))) => efinish(
            true,
            egrid_flat(f, b1, b2, 0, true, None),
        ),
        _ => emismatch(f, "Bag, Bag", enc_pair_label(a, b)),
    }
}

pub open spec fn esem_binary_impl(k: BinaryImpl, f: XacmlFunction, a: EValue, b: EValue) -> EOutcome
    decreases f, 4int, 0int,
{
    match k {
        BinaryImpl::IntegerEq => esem_integer_eq(f, a, b),
        BinaryImpl::IntegerCmp => esem_integer_cmp(f, a, b),
        BinaryImpl::IntegerArith => esem_integer_arith(f, a, b),
        BinaryImpl::BoolBinop => esem_bool_binop(f, a, b),
        BinaryImpl::BoolEq => esem_bool_eq(f, a, b),
        BinaryImpl::DoubleEq => esem_double_eq(f, a, b),
        BinaryImpl::DoubleCmp => esem_double_cmp(f, a, b),
        BinaryImpl::DoubleArith => esem_double_arith(f, a, b),
        BinaryImpl::TimeEq => esem_time_eq(f, a, b),
        BinaryImpl::TimeCmp => esem_time_cmp(f, a, b),
        BinaryImpl::DateTimeEq => esem_datetime_eq(f, a, b),
        BinaryImpl::DateTimeCmp => esem_datetime_cmp(f, a, b),
        BinaryImpl::DateTimeAddSubDuration => esem_datetime_addsub_duration(f, a, b),
        BinaryImpl::DayTimeDurationEq => esem_daytimeduration_eq(f, a, b),
        BinaryImpl::YearMonthDurationEq => esem_yearmonthduration_eq(f, a, b),
        BinaryImpl::AnyUriEq => esem_anyuri_eq(f, a, b),
        BinaryImpl::StringEq => esem_string_op(f, HOp::Eq, a, b),
        BinaryImpl::StringEqIgnoreCase => esem_string_op(f, HOp::EqIgnoreCase, a, b),
        BinaryImpl::StringConcat => esem_string_op(f, HOp::Concat, a, b),
        BinaryImpl::StringContains => esem_string_op(f, HOp::Contains, a, b),
        BinaryImpl::StringStartsWith => esem_string_op(f, HOp::StartsWith, a, b),
        BinaryImpl::StringEndsWith => esem_string_op(f, HOp::EndsWith, a, b),
        BinaryImpl::AnyUriContains => esem_anyuri_op(f, HOp::Contains, a, b),
        BinaryImpl::AnyUriStartsWith => esem_anyuri_op(f, HOp::StartsWith, a, b),
        BinaryImpl::AnyUriEndsWith => esem_anyuri_op(f, HOp::EndsWith, a, b),
        BinaryImpl::Rfc822NameEq => esem_rfc822name_eq(f, a, b),
        BinaryImpl::X500NameEq => esem_x500name_eq(f, a, b),
        BinaryImpl::VecEq => esem_array_eq(f, a, b),
        BinaryImpl::AllOf => esem_all_of(f, a, b),
        BinaryImpl::AnyOf => esem_any_of(f, a, b),
        BinaryImpl::AnyOfAny => esem_any_of_any(f, a, b),
        BinaryImpl::AnyOfAll => esem_any_of_all(f, a, b),
        BinaryImpl::AllOfAny => esem_all_of_any(f, a, b),
        BinaryImpl::AllOfAll => esem_all_of_all(f, a, b),
        BinaryImpl::StringIsIn => esem_string_is_in(f, a, b),
        BinaryImpl::StringAtLeastOneMemberOf => esem_string_at_least_one_member_of(f, a, b),
    }
}

/// The outcome of applying a two-argument function over encrypted values.
pub open spec fn esem_binary(f: XacmlFunction, a: EValue, b: EValue) -> EOutcome
    decreases f, 5int, 0int,
{
    match tfhe_op(f) {
        Ok(TfheOp::Binary(k)) => esem_binary_impl(k, f, a, b),
        Ok(_) => Err(DispatchError::ArityMismatch { func: f, expected: 2, got: 2 }),
        Err(e) => Err(e),
    }
}

/// Whether the arguments fit the arity that `f` is served with.
pub open spec fn eargs_fit(f: XacmlFunction, args: Seq<Option<EValue>>) -> bool {
    match tfhe_op(f) {
        Ok(TfheOp::Unary(_)) => args.len() == 1 && args[0] is Some,
        Ok(TfheOp::Binary(_)) => args.len() == 2 && args[0] is Some && args[1] is Some,
        Ok(TfheOp::Ternary(_)) => args.len() == 3 && args[0] is Some && args[1] is Some && args[2] is Some,
        Err(_) => true,
    }
}

/// The outcome of calling `f` over encrypted arguments that fit its arity.
pub open spec fn esem_call(f: XacmlFunction, args: Seq<Option<EValue>>) -> EOutcome {
    if f is StringBag {
        esem_string_bag(f, args)
    } else if f is And || f is Or {
        esem_bool_vec(f, args)
    } else {
        match tfhe_op(f) {
            Err(e) => Err(e),
            Ok(TfheOp::Unary(_)) => esem_unary(f, args[0]->0),
            Ok(TfheOp::Binary(_)) => esem_binary(f, args[0]->0, args[1]->0),
            Ok(TfheOp::Ternary(_)) => esem_ternary(f, args[0]->0, args[1]->0, args[2]->0),
        }
    }
}

/// Whether a quantified function carries its inner predicate.
pub open spec fn has_einner(f: XacmlFunction) -> bool {
    match f {
        XacmlFunction::AnyOf(Some(_)) => true,
        XacmlFunction::AllOf(Some(_)) => true,
        XacmlFunction::AnyOfAny(Some(_)) => true,
        XacmlFunction::AllOfAny(Some(_)) => true,
        XacmlFunction::AnyOfAll(Some(_)) => true,
        XacmlFunction::AllOfAll(Some(_)) => true,
        _ => false,
    }
}

} // verus!
