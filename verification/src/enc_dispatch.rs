//! Dispatch of XACML functions over encrypted attribute values, including the
//! quantified (higher-order) bag functions.

use vstd::prelude::*;
use crate::cipher::{Cipher, Circ, EValue, EncryptedTypes, ocirc};
use crate::constants::{opt_view, XacmlFunction};
use crate::enc::{apply_anyuri_contains, apply_anyuri_ends_with, apply_anyuri_eq, apply_anyuri_starts_with, apply_bool_binop, apply_bool_eq, apply_bool_if_else, apply_cpu_uint_array_eq, apply_datetime_addsub_duration, apply_datetime_cmp, apply_datetime_eq, apply_daytimeduration_eq, apply_double_abs, apply_double_arith, apply_double_cmp, apply_double_eq, apply_integer_abs, apply_integer_arith, apply_integer_cmp, apply_integer_eq, apply_not, apply_rfc822name_eq, apply_string_concat, apply_string_contains, apply_string_ends_with, apply_string_eq, apply_string_eq_ignore_case, apply_string_starts_with, apply_time_cmp, apply_time_eq, apply_time_in_range, apply_x500name_eq, apply_yearmonthduration_eq, egot_pair, erv};
use crate::enc_bags::{apply_bool_vec_op_from_borrowed_args, apply_bool_vec_op_from_owned_args, apply_string_at_least_one_member_of, apply_string_bag_from_borrowed_args, apply_string_bag_from_owned_args, apply_string_bag_size, apply_string_is_in, apply_string_one_and_only, borrowed_eargs, finish, join, owned_eargs};
use crate::enc_spec::{TfheOp, eargs_fit, efinish, egrid_flat, egrid_nested, epred, epred_outcome, erow, esem_all_of, esem_all_of_all, esem_all_of_any, esem_any_of, esem_any_of_all, esem_any_of_any, esem_binary, esem_binary_impl, esem_call, esem_ternary, esem_ternary_impl, esem_unary, esem_unary_impl, has_einner, tfhe_op};
use crate::plain::{BinaryImpl, DispatchError, TernaryImpl, UnaryImpl};

verus! {

/// The implementation that serves `func` over encrypted values, or the
/// error for a function that has none.
pub fn resolve_tfhe_op(func: &XacmlFunction) -> (r: Result<TfheOp, DispatchError>)
    ensures
        r == tfhe_op(*func),
{
    match func {
        XacmlFunction::IntegerEqual => Ok(TfheOp::Binary(BinaryImpl::IntegerEq)),
        XacmlFunction::DateEqual => Ok(TfheOp::Binary(BinaryImpl::IntegerEq)),
        XacmlFunction::IntegerGreaterThan => Ok(TfheOp::Binary(BinaryImpl::IntegerCmp)),
        XacmlFunction::IntegerGreaterThanOrEqual => Ok(TfheOp::Binary(BinaryImpl::IntegerCmp)),
        XacmlFunction::IntegerLessThan => Ok(TfheOp::Binary(BinaryImpl::IntegerCmp)),
        XacmlFunction::IntegerLessThanOrEqual => Ok(TfheOp::Binary(BinaryImpl::IntegerCmp)),
        XacmlFunction::DateLessThanOrEqual => Ok(TfheOp::Binary(BinaryImpl::IntegerCmp)),
        XacmlFunction::DateLessThan => Ok(TfheOp::Binary(BinaryImpl::IntegerCmp)),
        XacmlFunction::DateGreaterThan => Ok(TfheOp::Binary(BinaryImpl::IntegerCmp)),
        XacmlFunction::DateGreaterThanOrEqual => Ok(TfheOp::Binary(BinaryImpl::IntegerCmp)),
        XacmlFunction::IntegerAdd => Ok(TfheOp::Binary(BinaryImpl::IntegerArith)),
        XacmlFunction::IntegerSubtract => Ok(TfheOp::Binary(BinaryImpl::IntegerArith)),
        XacmlFunction::IntegerMultiply => Ok(TfheOp::Binary(BinaryImpl::IntegerArith)),
        XacmlFunction::IntegerDivide => Ok(TfheOp::Binary(BinaryImpl::IntegerArith)),
        XacmlFunction::IntegerAbs => Ok(TfheOp::Unary(UnaryImpl::IntegerAbs)),
        XacmlFunction::Not => Ok(TfheOp::Unary(UnaryImpl::Not)),
        XacmlFunction::And => Ok(TfheOp::Binary(BinaryImpl::BoolBinop)),
        XacmlFunction::Or => Ok(TfheOp::Binary(BinaryImpl::BoolBinop)),
        XacmlFunction::BooleanEqual => Ok(TfheOp::Binary(BinaryImpl::BoolEq)),
        XacmlFunction::IfElse => Ok(TfheOp::Ternary(TernaryImpl::BoolIfElse)),
        XacmlFunction::DoubleEqual => Ok(TfheOp::Binary(BinaryImpl::DoubleEq)),
        XacmlFunction::DoubleGreaterThan => Ok(TfheOp::Binary(BinaryImpl::DoubleCmp)),
        XacmlFunction::DoubleGreaterThanOrEqual => Ok(TfheOp::Binary(BinaryImpl::DoubleCmp)),
        XacmlFunction::DoubleLessThan => Ok(TfheOp::Binary(BinaryImpl::DoubleCmp)),
        XacmlFunction::DoubleLessThanOrEqual => Ok(TfheOp::Binary(BinaryImpl::DoubleCmp)),
        XacmlFunction::DoubleAdd => Ok(TfheOp::Binary(BinaryImpl::DoubleArith)),
        XacmlFunction::DoubleSubtract => Ok(TfheOp::Binary(BinaryImpl::DoubleArith)),
        XacmlFunction::DoubleMultiply => Ok(TfheOp::Binary(BinaryImpl::DoubleArith)),
        XacmlFunction::DoubleDivide => Ok(TfheOp::Binary(BinaryImpl::DoubleArith)),
        XacmlFunction::DoubleAbs => Ok(TfheOp::Unary(UnaryImpl::DoubleAbs)),
        XacmlFunction::Round | XacmlFunction::Floor => Err(DispatchError::UnsupportedFunction { func: func.copy() }),
        XacmlFunction::TimeEqual => Ok(TfheOp::Binary(BinaryImpl::TimeEq)),
        XacmlFunction::TimeGreaterThan => Ok(TfheOp::Binary(BinaryImpl::TimeCmp)),
        XacmlFunction::TimeGreaterThanOrEqual => Ok(TfheOp::Binary(BinaryImpl::TimeCmp)),
        XacmlFunction::TimeLessThan => Ok(TfheOp::Binary(BinaryImpl::TimeCmp)),
        XacmlFunction::TimeLessThanOrEqual => Ok(TfheOp::Binary(BinaryImpl::TimeCmp)),
        XacmlFunction::TimeInRange => Ok(TfheOp::Ternary(TernaryImpl::TimeInRange)),
        XacmlFunction::DateTimeEqual => Ok(TfheOp::Binary(BinaryImpl::DateTimeEq)),
        XacmlFunction::DateTimeGreaterThan => Ok(TfheOp::Binary(BinaryImpl::DateTimeCmp)),
        XacmlFunction::DateTimeGreaterThanOrEqual => Ok(TfheOp::Binary(BinaryImpl::DateTimeCmp)),
        XacmlFunction::DateTimeLessThan => Ok(TfheOp::Binary(BinaryImpl::DateTimeCmp)),
        XacmlFunction::DateTimeLessThanOrEqual => Ok(TfheOp::Binary(BinaryImpl::DateTimeCmp)),
        XacmlFunction::DateTimeAddDayTimeDuration => Ok(TfheOp::Binary(BinaryImpl::DateTimeAddSubDuration)),
        XacmlFunction::DateTimeAddYearMonthDuration => Ok(TfheOp::Binary(BinaryImpl::DateTimeAddSubDuration)),
        XacmlFunction::DateTimeSubtractDayTimeDuration => Ok(TfheOp::Binary(BinaryImpl::DateTimeAddSubDuration)),
        XacmlFunction::DateTimeSubtractYearMonthDuration => Ok(TfheOp::Binary(BinaryImpl::DateTimeAddSubDuration)),
        XacmlFunction::DayTimeDurationEqual => Ok(TfheOp::Binary(BinaryImpl::DayTimeDurationEq)),
        XacmlFunction::YearMonthDurationEqual => Ok(TfheOp::Binary(BinaryImpl::YearMonthDurationEq)),
        XacmlFunction::AnyUriEqual => Ok(TfheOp::Binary(BinaryImpl::AnyUriEq)),
        XacmlFunction::StringEqual => Ok(TfheOp::Binary(BinaryImpl::StringEq)),
        XacmlFunction::StringEqualIgnoreCase => Ok(TfheOp::Binary(BinaryImpl::StringEqIgnoreCase)),
        XacmlFunction::StringConcatenate => Ok(TfheOp::Binary(BinaryImpl::StringConcat)),
        XacmlFunction::StringContains => Ok(TfheOp::Binary(BinaryImpl::StringContains)),
        XacmlFunction::StringStartsWith => Ok(TfheOp::Binary(BinaryImpl::StringStartsWith)),
        XacmlFunction::StringEndsWith => Ok(TfheOp::Binary(BinaryImpl::StringEndsWith)),
        XacmlFunction::AnyUriContains => Ok(TfheOp::Binary(BinaryImpl::AnyUriContains)),
        XacmlFunction::AnyUriStartsWith => Ok(TfheOp::Binary(BinaryImpl::AnyUriStartsWith)),
        XacmlFunction::AnyUriEndsWith => Ok(TfheOp::Binary(BinaryImpl::AnyUriEndsWith)),
        XacmlFunction::Rfc822NameEqual => Ok(TfheOp::Binary(BinaryImpl::Rfc822NameEq)),
        XacmlFunction::Rfc822NameFromString | XacmlFunction::StringFromRfc822Name => Err(DispatchError::UnsupportedFunction { func: func.copy() }),
        XacmlFunction::X500NameEqual => Ok(TfheOp::Binary(BinaryImpl::X500NameEq)),
        XacmlFunction::X500NameFromString | XacmlFunction::StringFromX500Name => Err(DispatchError::UnsupportedFunction { func: func.copy() }),
        XacmlFunction::Base64BinaryEqual => Ok(TfheOp::Binary(BinaryImpl::VecEq)),
        XacmlFunction::HexBinaryEqual => Ok(TfheOp::Binary(BinaryImpl::VecEq)),
        XacmlFunction::AllOf(_) => Ok(TfheOp::Binary(BinaryImpl::AllOf)),
        XacmlFunction::AnyOf(_) => Ok(TfheOp::Binary(BinaryImpl::AnyOf)),
        XacmlFunction::AnyOfAny(_) => Ok(TfheOp::Binary(BinaryImpl::AnyOfAny)),
        XacmlFunction::AnyOfAll(_) => Ok(TfheOp::Binary(BinaryImpl::AnyOfAll)),
        XacmlFunction::AllOfAny(_) => Ok(TfheOp::Binary(BinaryImpl::AllOfAny)),
        XacmlFunction::AllOfAll(_) => Ok(TfheOp::Binary(BinaryImpl::AllOfAll)),
        XacmlFunction::StringOneAndOnly => Ok(TfheOp::Unary(UnaryImpl::StringOneAndOnly)),
        XacmlFunction::StringBagSize => Ok(TfheOp::Unary(UnaryImpl::StringBagSize)),
        XacmlFunction::StringIsIn => Ok(TfheOp::Binary(BinaryImpl::StringIsIn)),
        XacmlFunction::StringAtLeastOneMemberOf => Ok(TfheOp::Binary(BinaryImpl::StringAtLeastOneMemberOf)),
        _ => Err(DispatchError::UnsupportedFunction { func: func.copy() }),
    }
}

fn apply_unary_impl(k: UnaryImpl, func: XacmlFunction, a: &EncryptedTypes) -> (r: Result<EncryptedTypes, DispatchError>)
    ensures
        erv(r) == esem_unary_impl(k, func, a.value()),
{
    match k {
        UnaryImpl::IntegerAbs => apply_integer_abs(func, a),
        UnaryImpl::Not => apply_not(func, a),
        UnaryImpl::DoubleAbs => apply_double_abs(func, a),
        UnaryImpl::StringOneAndOnly => apply_string_one_and_only(func, a),
        UnaryImpl::StringBagSize => apply_string_bag_size(func, a),
    }
}

fn apply_ternary_impl(
    k: TernaryImpl,
    func: XacmlFunction,
    a: &EncryptedTypes,
    b: &EncryptedTypes,
    c: &EncryptedTypes,
) -> (r: Result<EncryptedTypes, DispatchError>)
    ensures
        erv(r) == esem_ternary_impl(k, func, a.value(), b.value(), c.value()),
{
    match k {
        TernaryImpl::BoolIfElse => apply_bool_if_else(func, a, b, c),
        TernaryImpl::TimeInRange => apply_time_in_range(func, a, b, c),
    }
}

/// Evaluates a one-argument function over an encrypted value.
pub fn eval_unary(func: XacmlFunction, a: &EncryptedTypes) -> (r: Result<EncryptedTypes, DispatchError>)
    ensures
        erv(r) == esem_unary(func, a.value()),
{
    let op = match resolve_tfhe_op(&func) {
        Ok(op) => op,
        Err(e) => return Err(e),
    };
    match op {
        TfheOp::Unary(k) => apply_unary_impl(k, func, a),
        _ => Err(DispatchError::ArityMismatch { func, expected: 1, got: 1 }),
    }
}

/// Evaluates a three-argument function over encrypted values.
pub fn eval_ternary(
    func: XacmlFunction,
    a: &EncryptedTypes,
    b: &EncryptedTypes,
    c: &EncryptedTypes,
) -> (r: Result<EncryptedTypes, DispatchError>)
    ensures
        erv(r) == esem_ternary(func, a.value(), b.value(), c.value()),
{
    let op = match resolve_tfhe_op(&func) {
        Ok(op) => op,
        Err(e) => return Err(e),
    };
    match op {
        TfheOp::Ternary(k) => apply_ternary_impl(k, func, a, b, c),
        _ => Err(DispatchError::ArityMismatch { func, expected: 3, got: 3 }),
    }
}

/// Evaluates a two-argument function over encrypted values.
pub fn eval_binary(func: XacmlFunction, a: &EncryptedTypes, b: &EncryptedTypes) -> (r: Result<EncryptedTypes, DispatchError>)
    ensures
        erv(r) == esem_binary(func, a.value(), b.value()),
    decreases func, 5int,
{
    let op = match resolve_tfhe_op(&func) {
        Ok(op) => op,
        Err(e) => return Err(e),
    };
    match op {
        TfheOp::Binary(k) => apply_binary_impl(k, func, a, b),
        _ => Err(DispatchError::ArityMismatch { func, expected: 2, got: 2 }),
    }
}

fn apply_binary_impl(k: BinaryImpl, func: XacmlFunction, a: &EncryptedTypes, b: &EncryptedTypes) -> (r: Result<EncryptedTypes, DispatchError>)
    ensures
        erv(r) == esem_binary_impl(k, func, a.value(), b.value()),
    decreases func, 4int,
{
    match k {
        BinaryImpl::IntegerEq => apply_integer_eq(func, a, b),
        BinaryImpl::IntegerCmp => apply_integer_cmp(func, a, b),
        BinaryImpl::IntegerArith => apply_integer_arith(func, a, b),
        BinaryImpl::BoolBinop => apply_bool_binop(func, a, b),
        BinaryImpl::BoolEq => apply_bool_eq(func, a, b),
        BinaryImpl::DoubleEq => apply_double_eq(func, a, b),
        BinaryImpl::DoubleCmp => apply_double_cmp(func, a, b),
        BinaryImpl::DoubleArith => apply_double_arith(func, a, b),
        BinaryImpl::TimeEq => apply_time_eq(func, a, b),
        BinaryImpl::TimeCmp => apply_time_cmp(func, a, b),
        BinaryImpl::DateTimeEq => apply_datetime_eq(func, a, b),
        BinaryImpl::DateTimeCmp => apply_datetime_cmp(func, a, b),
        BinaryImpl::DateTimeAddSubDuration => apply_datetime_addsub_duration(func, a, b),
        BinaryImpl::DayTimeDurationEq => apply_daytimeduration_eq(func, a, b),
        BinaryImpl::YearMonthDurationEq => apply_yearmonthduration_eq(func, a, b),
        BinaryImpl::AnyUriEq => apply_anyuri_eq(func, a, b),
        BinaryImpl::StringEq => apply_string_eq(func, a, b),
        BinaryImpl::StringEqIgnoreCase => apply_string_eq_ignore_case(func, a, b),
        BinaryImpl::StringConcat => apply_string_concat(func, a, b),
        BinaryImpl::StringContains => apply_string_contains(func, a, b),
        BinaryImpl::StringStartsWith => apply_string_starts_with(func, a, b),
        BinaryImpl::StringEndsWith => apply_string_ends_with(func, a, b),
        BinaryImpl::AnyUriContains => apply_anyuri_contains(func, a, b),
        BinaryImpl::AnyUriStartsWith => apply_anyuri_starts_with(func, a, b),
        BinaryImpl::AnyUriEndsWith => apply_anyuri_ends_with(func, a, b),
        BinaryImpl::Rfc822NameEq => apply_rfc822name_eq(func, a, b),
        BinaryImpl::X500NameEq => apply_x500name_eq(func, a, b),
        BinaryImpl::VecEq => apply_cpu_uint_array_eq(func, a, b),
        BinaryImpl::AllOf => apply_all_of(func, a, b),
        BinaryImpl::AnyOf => apply_any_of(func, a, b),
        BinaryImpl::AnyOfAny => apply_any_of_any(func, a, b),
        BinaryImpl::AnyOfAll => apply_any_of_all(func, a, b),
        BinaryImpl::AllOfAny => apply_all_of_any(func, a, b),
        BinaryImpl::AllOfAll => apply_all_of_all(func, a, b),
        BinaryImpl::StringIsIn => apply_string_is_in(func, a, b),
        BinaryImpl::StringAtLeastOneMemberOf => apply_string_at_least_one_member_of(func, a, b),
    }
}

/// Evaluates the predicate `pred` and reads its result as an encrypted truth value.
fn eval_binary_predicate_bool(pred: &XacmlFunction, a: &EncryptedTypes, b: &EncryptedTypes) -> (r: Result<Cipher, DispatchError>)
    ensures
        match r {
            Ok(c) => epred_outcome(*pred, esem_binary(*pred, a.value(), b.value())) == Ok::<Circ, DispatchError>(c.circ()),
            Err(e) => epred_outcome(*pred, esem_binary(*pred, a.value(), b.value())) == Err::<Circ, DispatchError>(e),
        },
    decreases *pred, 6int,
{
    let out = match eval_binary(pred.copy(), a, b) {
        Ok(v) => v,
        Err(e) => return Err(e),
    };
    match out {
        EncryptedTypes::Boolean(c) => Ok(c),
        other => Err(DispatchError::TypeMismatch { func: pred.copy(), expected: "Bool", got: other.ty() }),
    }
}

/// The model of a fold's outcome.
pub open spec fn ofold(r: Result<Option<Cipher>, DispatchError>) -> Result<Option<Circ>, DispatchError> {
    match r {
        Ok(a) => Ok(ocirc(a)),
        Err(e) => Err(e),
    }
}

/// The predicate of a quantified function applied between `fixed` and each
/// element of `elems`, folded into `acc`.
fn erow_fold(
    f: &XacmlFunction,
    fixed: &EncryptedTypes,
    elems: &Vec<EncryptedTypes>,
    fixed_first: bool,
    conj: bool,
    init: Option<Cipher>,
) -> (r: Result<Option<Cipher>, DispatchError>)
    requires
        has_einner(*f),
    ensures
        ofold(r) == erow(*f, fixed.value(), EncryptedTypes::values_of(elems@), 0, fixed_first, conj, ocirc(init)),
    decreases *f, 1int,
{
    let p: &XacmlFunction = match f {
        XacmlFunction::AnyOf(Some(p)) => p,
        XacmlFunction::AllOf(Some(p)) => p,
        XacmlFunction::AnyOfAny(Some(p)) => p,
        XacmlFunction::AllOfAny(Some(p)) => p,
        XacmlFunction::AnyOfAll(Some(p)) => p,
        XacmlFunction::AllOfAll(Some(p)) => p,
        _ => vstd::pervasive::unreached(),
    };
    assert(decreases_to!(*f => *p));
    let ghost es = EncryptedTypes::values_of(elems@);
    let ghost fv = fixed.value();
    let ghost start = ocirc(init);
    let mut acc = init;
    let mut i: usize = 0;
    while i < elems.len()
        invariant
            i <= elems.len(),
            es == EncryptedTypes::values_of(elems@),
            es.len() == elems.len(),
            fv == fixed.value(),
            start == ocirc(init),
            decreases_to!(*f => *p),
            forall|a: EValue, b: EValue| epred(*f, a, b) == epred_outcome(*p, esem_binary(*p, a, b)),
            erow(*f, fv, es, 0, fixed_first, conj, start) == erow(*f, fv, es, i as int, fixed_first, conj, ocirc(acc)),
        decreases elems.len() - i,
    {
        assert(es[i as int] == elems@[i as int].value());
        let x = if fixed_first {
            eval_binary_predicate_bool(p, fixed, &elems[i])
        } else {
            eval_binary_predicate_bool(p, &elems[i], fixed)
        };
        let ghost pv = if fixed_first { epred(*f, fv, es[i as int]) } else { epred(*f, es[i as int], fv) };
        let x = match x {
            Ok(x) => x,
            Err(e) => {
                assert(pv == Err::<Circ, DispatchError>(e));
                assert(erow(*f, fv, es, i as int, fixed_first, conj, ocirc(acc)) == Err::<Option<Circ>, DispatchError>(e));
                return Err(e);
            },
        };
        assert(pv == Ok::<Circ, DispatchError>(x.circ()));
        acc = join(conj, acc, x);
        i = i + 1;
    }
    Ok(acc)
}

/// One fold over all pairs drawn from the two bags, row by row.
fn egrid_flat_fold(
    f: &XacmlFunction,
    b1: &Vec<EncryptedTypes>,
    b2: &Vec<EncryptedTypes>,
    conj: bool,
) -> (r: Result<Option<Cipher>, DispatchError>)
    requires
        has_einner(*f),
    ensures
        ofold(r) == egrid_flat(*f, EncryptedTypes::values_of(b1@), EncryptedTypes::values_of(b2@), 0, conj, None),
    decreases *f, 2int,
{
    let ghost v1 = EncryptedTypes::values_of(b1@);
    let ghost v2 = EncryptedTypes::values_of(b2@);
    let mut acc: Option<Cipher> = None;
    let mut i: usize = 0;
    while i < b1.len()
        invariant
            i <= b1.len(),
            has_einner(*f),
            v1 == EncryptedTypes::values_of(b1@),
            v1.len() == b1.len(),
            v2 == EncryptedTypes::values_of(b2@),
            egrid_flat(*f, v1, v2, 0, conj, None) == egrid_flat(*f, v1, v2, i as int, conj, ocirc(acc)),
        decreases b1.len() - i,
    {
        assert(v1[i as int] == b1@[i as int].value());
        acc = match erow_fold(f, &b1[i], b2, true, conj, acc) {
            Ok(a) => a,
            Err(e) => return Err(e),
        };
        i = i + 1;
    }
    Ok(acc)
}

/// A fold of its own for each element of `outer`, whose results are folded again.
fn egrid_nested_fold(
    f: &XacmlFunction,
    outer: &Vec<EncryptedTypes>,
    inner: &Vec<EncryptedTypes>,
    outer_first: bool,
    outer_conj: bool,
    inner_conj: bool,
) -> (r: Result<Option<Cipher>, DispatchError>)
    requires
        has_einner(*f),
    ensures
        ofold(r) == egrid_nested(
            *f,
            EncryptedTypes::values_of(outer@),
            EncryptedTypes::values_of(inner@),
            0,
            outer_first,
            outer_conj,
            inner_conj,
            None,
        ),
    decreases *f, 2int,
{
    let ghost vo = EncryptedTypes::values_of(outer@);
    let ghost vi = EncryptedTypes::values_of(inner@);
    let mut acc: Option<Cipher> = None;
    let mut i: usize = 0;
    while i < outer.len()
        invariant
            i <= outer.len(),
            has_einner(*f),
            vo == EncryptedTypes::values_of(outer@),
            vo.len() == outer.len(),
            vi == EncryptedTypes::values_of(inner@),
            egrid_nested(*f, vo, vi, 0, outer_first, outer_conj, inner_conj, None) == egrid_nested(
                *f,
                vo,
                vi,
                i as int,
                outer_first,
                outer_conj,
                inner_conj,
                ocirc(acc),
            ),
        decreases outer.len() - i,
    {
        assert(vo[i as int] == outer@[i as int].value());
        let row = match erow_fold(f, &outer[i], inner, outer_first, inner_conj, None) {
            Ok(a) => a,
            Err(e) => return Err(e),
        };
        acc = join(outer_conj, acc, finish(inner_conj, row));
        i = i + 1;
    }
    Ok(acc)
}

fn efinish_fold(conj: bool, r: Result<Option<Cipher>, DispatchError>) -> (out: Result<EncryptedTypes, DispatchError>)
    ensures
        erv(out) == efinish(conj, ofold(r)),
{
    match r {
        Ok(a) => Ok(EncryptedTypes::Boolean(finish(conj, a))),
        Err(e) => Err(e),
    }
}

/// any-of: the inner predicate between `value` and each
/// element of `bag`, folded homomorphically by disjunction.
pub fn apply_any_of(func: XacmlFunction, value: &EncryptedTypes, bag: &EncryptedTypes) -> (r: Result<EncryptedTypes, DispatchError>)
    ensures
        erv(r) == esem_any_of(func, value.value(), bag.value()),
    decreases func, 3int,
{
    match bag {
        EncryptedTypes::Bag(b) => {
            match &func {
                XacmlFunction::AnyOf(None) => Err(DispatchError::AbsentInnerFunction {
                    message: "no inner function found in all-of function evaluation",
                }),
                XacmlFunction::AnyOf(Some(_)) => efinish_fold(false, erow_fold(&func, value, b, true, false, None)),
                _ => Err(DispatchError::TypeMismatch { func, expected: "Bag", got: bag.ty() }),
            }
        },
        other => Err(DispatchError::TypeMismatch { func, expected: "Bag", got: other.ty() }),
    }
}

/// all-of: the inner predicate between `value` and each
/// element of `bag`, folded homomorphically by conjunction.
pub fn apply_all_of(func: XacmlFunction, value: &EncryptedTypes, bag: &EncryptedTypes) -> (r: Result<EncryptedTypes, DispatchError>)
    ensures
        erv(r) == esem_all_of(func, value.value(), bag.value()),
    decreases func, 3int,
{
    match bag {
        EncryptedTypes::Bag(b) => {
            match &func {
                XacmlFunction::AllOf(None) => Err(DispatchError::AbsentInnerFunction {
                    message: "no inner function found in all-of function evaluation",
                }),
                XacmlFunction::AllOf(Some(_)) => efinish_fold(true, erow_fold(&func, value, b, true, true, None)),
                _ => Err(DispatchError::TypeMismatch { func, expected: "Bag", got: bag.ty() }),
            }
        },
        other => Err(DispatchError::TypeMismatch { func, expected: "Bag", got: other.ty() }),
    }
}

/// any-of-any over two bags, folded homomorphically.
pub fn apply_any_of_any(func: XacmlFunction, bag1: &EncryptedTypes, bag2: &EncryptedTypes) -> (r: Result<EncryptedTypes, DispatchError>)
    ensures
        erv(r) == esem_any_of_any(func, bag1.value(), bag2.value()),
    decreases func, 3int,
{
    match (bag1, bag2) {
        (EncryptedTypes::Bag(b1), EncryptedTypes::Bag(b2)) => {
            match &func {
                XacmlFunction::AnyOfAny(None) => Err(DispatchError::AbsentInnerFunction {
                    message: "no inner function found in all-of-all function evaluation",
                }),
                XacmlFunction::AnyOfAny(Some(_)) => efinish_fold(false, egrid_flat_fold(&func, b1, b2, false)),
                _ => Err(DispatchError::TypeMismatch { func, expected: "Bag, Bag", got: egot_pair(bag1, bag2) }),
            }
        },
        _ => Err(DispatchError::TypeMismatch { func, expected: "Bag, Bag", got: egot_pair(bag1, bag2) }),
    }
}

/// all-of-any over two bags, folded homomorphically.
pub fn apply_all_of_any(func: XacmlFunction, bag1: &EncryptedTypes, bag2: &EncryptedTypes) -> (r: Result<EncryptedTypes, DispatchError>)
    ensures
        erv(r) == esem_all_of_any(func, bag1.value(), bag2.value()),
    decreases func, 3int,
{
    match (bag1, bag2) {
        (EncryptedTypes::Bag(b1), EncryptedTypes::Bag(b2)) => {
            match &func {
                XacmlFunction::AllOfAny(None) => Err(DispatchError::AbsentInnerFunction {
                    message: "no inner function found in all-of-any function evaluation",
                }),
                XacmlFunction::AllOfAny(Some(_)) => efinish_fold(true, egrid_nested_fold(&func, b1, b2, true, true, false)),
                _ => Err(DispatchError::TypeMismatch { func, expected: "Bag, Bag", got: egot_pair(bag1, bag2) }),
            }
        },
        _ => Err(DispatchError::TypeMismatch { func, expected: "Bag, Bag", got: egot_pair(bag1, bag2) }),
    }
}

/// any-of-all over two bags, folded homomorphically.
pub fn apply_any_of_all(func: XacmlFunction, bag1: &EncryptedTypes, bag2: &EncryptedTypes) -> (r: Result<EncryptedTypes, DispatchError>)
    ensures
        erv(r) == esem_any_of_all(func, bag1.value(), bag2.value()),
    decreases func, 3int,
{
    match (bag1, bag2) {
        (EncryptedTypes::Bag(b1), EncryptedTypes::Bag(b2)) => {
            match &func {
                XacmlFunction::AnyOfAll(None) => Err(DispatchError::AbsentInnerFunction {
                    message: "no inner function found in any-of-all function evaluation",
                }),
                XacmlFunction::AnyOfAll(Some(_)) => efinish_fold(true, egrid_nested_fold(&func, b2, b1, false, true, false)),
                _ => Err(DispatchError::TypeMismatch { func, expected: "Bag, Bag", got: egot_pair(bag1, bag2) }),
            }
        },
        _ => Err(DispatchError::TypeMismatch { func, expected: "Bag, Bag", got: egot_pair(bag1, bag2) }),
    }
}

/// all-of-all over two bags, folded homomorphically.
pub fn apply_all_of_all(func: XacmlFunction, bag1: &EncryptedTypes, bag2: &EncryptedTypes) -> (r: Result<EncryptedTypes, DispatchError>)
    ensures
        erv(r) == esem_all_of_all(func, bag1.value(), bag2.value()),
    decreases func, 3int,
{
    match (bag1, bag2) {
        (EncryptedTypes::Bag(b1), EncryptedTypes::Bag(b2)) => {
            match &func {
                XacmlFunction::AllOfAll(None) => Err(DispatchError::AbsentInnerFunction {
                    message: "no inner function found in all-of-all function evaluation",
                }),
                XacmlFunction::AllOfAll(Some(_)) => efinish_fold(true, egrid_flat_fold(&func, b1, b2, true)),
                _ => Err(DispatchError::TypeMismatch { func, expected: "Bag, Bag", got: egot_pair(bag1, bag2) }),
            }
        },
        _ => Err(DispatchError::TypeMismatch { func, expected: "Bag, Bag", got: egot_pair(bag1, bag2) }),
    }
}


/// Evaluates over borrowed encrypted arguments the function named by `urn`
/// (with `urn2` naming the inner predicate of a quantified function).
pub fn evaluate_function(urn: &str, urn2: Option<&str>, arguments: Vec<Option<&EncryptedTypes>>) -> (r: Result<EncryptedTypes, DispatchError>)
    requires
        XacmlFunction::urn_accepted(urn@, opt_view(urn2)),
        match XacmlFunction::spec_from_urn(urn@, opt_view(urn2)) {
            Some(f) => !(f is StringBag || f is And || f is Or) ==> eargs_fit(f, borrowed_eargs(arguments@))
                    && !(tfhe_op(f) matches Ok(TfheOp::Ternary(_))),
            None => true,
        },
    ensures
        match XacmlFunction::spec_from_urn(urn@, opt_view(urn2)) {
            Some(f) => erv(r) == esem_call(f, borrowed_eargs(arguments@)),
            None => r matches Err(DispatchError::NotFoundOperatorFromUrn { message, not_found })
                && message == "Did not find the operator from the URN " && not_found@ == urn@,
        },
{
    let func = match XacmlFunction::from_urn(urn, urn2) {
        Some(f) => f,
        None => {
            return Err(DispatchError::NotFoundOperatorFromUrn {
                message: "Did not find the operator from the URN ",
                not_found: urn.to_owned(),
            });
        },
    };
    let ghost sa = borrowed_eargs(arguments@);
    match func {
        XacmlFunction::StringBag => {
            return apply_string_bag_from_borrowed_args(func, arguments);
        },
        XacmlFunction::And | XacmlFunction::Or => {
            return apply_bool_vec_op_from_borrowed_args(func, arguments);
        },
        _ => {},
    }
    let op = match resolve_tfhe_op(&func) {
        Ok(op) => op,
        Err(e) => return Err(e),
    };
    proof {
        assert(sa.len() == arguments.len());
        assert(forall|k: int| 0 <= k < sa.len() ==> (#[trigger] sa[k] is Some) == (arguments@[k] is Some));
    }
    match op {
        TfheOp::Unary(_) => {
            let a0 = arguments[0].unwrap();
            eval_unary(func, a0)
        },
        TfheOp::Binary(_) => {
            let a0 = arguments[0].unwrap();
            let a1 = arguments[1].unwrap();
            eval_binary(func, a0, a1)
        },
        TfheOp::Ternary(_) => vstd::pervasive::unreached(),
    }
}

/// Evaluates over owned encrypted arguments the function named by `urn`
/// (with `urn2` naming the inner predicate of a quantified function).
pub fn evaluate_function_consume(urn: &str, urn2: Option<&str>, arguments: Vec<Option<EncryptedTypes>>) -> (r: Result<EncryptedTypes, DispatchError>)
    requires
        XacmlFunction::urn_accepted(urn@, opt_view(urn2)),
        match XacmlFunction::spec_from_urn(urn@, opt_view(urn2)) {
            Some(f) => !(f is StringBag || f is And || f is Or) ==> eargs_fit(f, owned_eargs(arguments@)),
            None => true,
        },
    ensures
        match XacmlFunction::spec_from_urn(urn@, opt_view(urn2)) {
            Some(f) => erv(r) == esem_call(f, owned_eargs(arguments@)),
            None => r matches Err(DispatchError::NotFoundOperatorFromUrn { message, not_found })
                && message == "Did not find the operator from the URN " && not_found@ == urn@,
        },
{
    let func = match XacmlFunction::from_urn(urn, urn2) {
        Some(f) => f,
        None => {
            return Err(DispatchError::NotFoundOperatorFromUrn {
                message: "Did not find the operator from the URN ",
                not_found: urn.to_owned(),
            });
        },
    };
    let ghost sa = owned_eargs(arguments@);
    match func {
        XacmlFunction::StringBag => {
            return apply_string_bag_from_owned_args(func, arguments);
        },
        XacmlFunction::And | XacmlFunction::Or => {
            return apply_bool_vec_op_from_owned_args(func, arguments);
        },
        _ => {},
    }
    let op = match resolve_tfhe_op(&func) {
        Ok(op) => op,
        Err(e) => return Err(e),
    };
    proof {
        assert(sa.len() == arguments.len());
        assert(forall|k: int| 0 <= k < sa.len() ==> (#[trigger] sa[k] is Some) == (arguments@[k] is Some));
    }
    match op {
        TfheOp::Unary(_) => {
            let a0 = arguments[0].as_ref().unwrap();
            eval_unary(func, a0)
        },
        TfheOp::Binary(_) => {
            let a0 = arguments[0].as_ref().unwrap();
            let a1 = arguments[1].as_ref().unwrap();
            eval_binary(func, a0, a1)
        },
        TfheOp::Ternary(_) => {
            let a0 = arguments[0].as_ref().unwrap();
            let a1 = arguments[1].as_ref().unwrap();
            let a2 = arguments[2].as_ref().unwrap();
            eval_ternary(func, a0, a1, a2)
        },
    }
}


/// `borrowed` refers, place by place, to the arguments `owned`.
pub open spec fn same_encrypted_arguments(owned: Seq<Option<EncryptedTypes>>, borrowed: Seq<Option<&EncryptedTypes>>) -> bool {
    owned.len() == borrowed.len() && forall|i: int|
        0 <= i < owned.len() ==> match (#[trigger] owned[i], borrowed[i]) {
            (Some(a), Some(b)) => a == *b,
            (None, None) => true,
            _ => false,
        }
}

/// Evaluating on owned arguments and on references to the same arguments
/// gives the same outcome: `evaluate_function_consume` and `evaluate_function` both state their result
/// over the models of their arguments, and these models coincide.
pub proof fn lemma_owned_and_borrowed_encrypted_calls_agree(owned: Seq<Option<EncryptedTypes>>, borrowed: Seq<Option<&EncryptedTypes>>)
    requires
        same_encrypted_arguments(owned, borrowed),
    ensures
        owned_eargs(owned) == borrowed_eargs(borrowed),
{
    assert forall|i: int| 0 <= i < owned.len() implies #[trigger] owned_eargs(owned)[i] == borrowed_eargs(borrowed)[i] by {
        assert(match (owned[i], borrowed[i]) {
            (Some(a), Some(b)) => a == *b,
            (None, None) => true,
            _ => false,
        });
    }
    assert(owned_eargs(owned) =~= borrowed_eargs(borrowed));
}

} // verus!
