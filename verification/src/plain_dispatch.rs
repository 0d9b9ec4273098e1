//! Dispatch of XACML functions over plain attribute values, including the
//! quantified (higher-order) bag functions.

use vstd::prelude::*;
use crate::constants::{opt_view, XacmlFunction};
use crate::intermediate::{IntermediateTypes, Value};
use crate::plain::{BinaryImpl, DispatchError, PlainOp, TernaryImpl, UnaryImpl, apply_plain_anyuri_contains, apply_plain_anyuri_ends_with, apply_plain_anyuri_eq, apply_plain_anyuri_starts_with, apply_plain_bool_binop, apply_plain_bool_eq, apply_plain_bool_if_else, apply_plain_datetime_addsub_duration, apply_plain_datetime_cmp, apply_plain_datetime_eq, apply_plain_daytimeduration_eq, apply_plain_double_abs, apply_plain_double_arith, apply_plain_double_cmp, apply_plain_double_eq, apply_plain_integer_abs, apply_plain_integer_arith, apply_plain_integer_cmp, apply_plain_integer_eq, apply_plain_not, apply_plain_rfc822name_eq, apply_plain_string_concat, apply_plain_string_contains, apply_plain_string_ends_with, apply_plain_string_eq, apply_plain_string_eq_ignore_case, apply_plain_string_starts_with, apply_plain_time_cmp, apply_plain_time_eq, apply_plain_time_in_range, apply_plain_vec_eq, apply_plain_x500name_eq, apply_plain_yearmonthduration_eq, got_pair, rv};
use crate::plain_bags::{apply_plain_bool_vec_op_from_borrowed_args, apply_plain_bool_vec_op_from_owned_args, apply_plain_string_at_least_one_member_of, apply_plain_string_bag_from_borrowed_args, apply_plain_string_bag_from_owned_args, apply_plain_string_bag_size, apply_plain_string_is_in, apply_plain_string_one_and_only, borrowed_args, owned_args};
use crate::plain_spec::{fold_step, has_inner, plain_op, pred_outcome, sem_all_of, sem_all_of_all, sem_all_of_any, sem_any_of, sem_any_of_all, sem_any_of_any, sem_binary, sem_binary_impl, sem_call, sem_grid, sem_pred, sem_row, sem_ternary, sem_ternary_impl, sem_unary, sem_unary_impl};

verus! {

/// The implementation that serves `func`, or the error for a function that
/// has none.
pub fn resolve_plain_op(func: &XacmlFunction) -> (r: Result<PlainOp, DispatchError>)
    ensures
        r == plain_op(*func),
{
    match func {
        XacmlFunction::IntegerEqual => Ok(PlainOp::Binary(BinaryImpl::IntegerEq)),
        XacmlFunction::DateEqual => Ok(PlainOp::Binary(BinaryImpl::IntegerEq)),
        XacmlFunction::IntegerGreaterThan => Ok(PlainOp::Binary(BinaryImpl::IntegerCmp)),
        XacmlFunction::IntegerGreaterThanOrEqual => Ok(PlainOp::Binary(BinaryImpl::IntegerCmp)),
        XacmlFunction::IntegerLessThan => Ok(PlainOp::Binary(BinaryImpl::IntegerCmp)),
        XacmlFunction::IntegerLessThanOrEqual => Ok(PlainOp::Binary(BinaryImpl::IntegerCmp)),
        XacmlFunction::DateLessThanOrEqual => Ok(PlainOp::Binary(BinaryImpl::IntegerCmp)),
        XacmlFunction::DateLessThan => Ok(PlainOp::Binary(BinaryImpl::IntegerCmp)),
        XacmlFunction::DateGreaterThan => Ok(PlainOp::Binary(BinaryImpl::IntegerCmp)),
        XacmlFunction::DateGreaterThanOrEqual => Ok(PlainOp::Binary(BinaryImpl::IntegerCmp)),
        XacmlFunction::IntegerAdd => Ok(PlainOp::Binary(BinaryImpl::IntegerArith)),
        XacmlFunction::IntegerSubtract => Ok(PlainOp::Binary(BinaryImpl::IntegerArith)),
        XacmlFunction::IntegerMultiply => Ok(PlainOp::Binary(BinaryImpl::IntegerArith)),
        XacmlFunction::IntegerDivide => Ok(PlainOp::Binary(BinaryImpl::IntegerArith)),
        XacmlFunction::IntegerMod => Ok(PlainOp::Binary(BinaryImpl::IntegerArith)),
        XacmlFunction::IntegerAbs => Ok(PlainOp::Unary(UnaryImpl::IntegerAbs)),
        XacmlFunction::Not => Ok(PlainOp::Unary(UnaryImpl::Not)),
        XacmlFunction::And => Ok(PlainOp::Binary(BinaryImpl::BoolBinop)),
        XacmlFunction::Or => Ok(PlainOp::Binary(BinaryImpl::BoolBinop)),
        XacmlFunction::BooleanEqual => Ok(PlainOp::Binary(BinaryImpl::BoolEq)),
        XacmlFunction::IfElse => Ok(PlainOp::Ternary(TernaryImpl::BoolIfElse)),
        XacmlFunction::DoubleEqual => Ok(PlainOp::Binary(BinaryImpl::DoubleEq)),
        XacmlFunction::DoubleGreaterThan => Ok(PlainOp::Binary(BinaryImpl::DoubleCmp)),
        XacmlFunction::DoubleGreaterThanOrEqual => Ok(PlainOp::Binary(BinaryImpl::DoubleCmp)),
        XacmlFunction::DoubleLessThan => Ok(PlainOp::Binary(BinaryImpl::DoubleCmp)),
        XacmlFunction::DoubleLessThanOrEqual => Ok(PlainOp::Binary(BinaryImpl::DoubleCmp)),
        XacmlFunction::DoubleAdd => Ok(PlainOp::Binary(BinaryImpl::DoubleArith)),
        XacmlFunction::DoubleSubtract => Ok(PlainOp::Binary(BinaryImpl::DoubleArith)),
        XacmlFunction::DoubleMultiply => Ok(PlainOp::Binary(BinaryImpl::DoubleArith)),
        XacmlFunction::DoubleDivide => Ok(PlainOp::Binary(BinaryImpl::DoubleArith)),
        XacmlFunction::DoubleAbs => Ok(PlainOp::Unary(UnaryImpl::DoubleAbs)),
        XacmlFunction::TimeEqual => Ok(PlainOp::Binary(BinaryImpl::TimeEq)),
        XacmlFunction::TimeGreaterThan => Ok(PlainOp::Binary(BinaryImpl::TimeCmp)),
        XacmlFunction::TimeGreaterThanOrEqual => Ok(PlainOp::Binary(BinaryImpl::TimeCmp)),
        XacmlFunction::TimeLessThan => Ok(PlainOp::Binary(BinaryImpl::TimeCmp)),
        XacmlFunction::TimeLessThanOrEqual => Ok(PlainOp::Binary(BinaryImpl::TimeCmp)),
        XacmlFunction::TimeInRange => Ok(PlainOp::Ternary(TernaryImpl::TimeInRange)),
        XacmlFunction::DateTimeEqual => Ok(PlainOp::Binary(BinaryImpl::DateTimeEq)),
        XacmlFunction::DateTimeGreaterThan => Ok(PlainOp::Binary(BinaryImpl::DateTimeCmp)),
        XacmlFunction::DateTimeGreaterThanOrEqual => Ok(PlainOp::Binary(BinaryImpl::DateTimeCmp)),
        XacmlFunction::DateTimeLessThan => Ok(PlainOp::Binary(BinaryImpl::DateTimeCmp)),
        XacmlFunction::DateTimeLessThanOrEqual => Ok(PlainOp::Binary(BinaryImpl::DateTimeCmp)),
        XacmlFunction::DateTimeAddDayTimeDuration => Ok(PlainOp::Binary(BinaryImpl::DateTimeAddSubDuration)),
        XacmlFunction::DateTimeAddYearMonthDuration => Ok(PlainOp::Binary(BinaryImpl::DateTimeAddSubDuration)),
        XacmlFunction::DateTimeSubtractDayTimeDuration => Ok(PlainOp::Binary(BinaryImpl::DateTimeAddSubDuration)),
        XacmlFunction::DateTimeSubtractYearMonthDuration => Ok(PlainOp::Binary(BinaryImpl::DateTimeAddSubDuration)),
        XacmlFunction::DayTimeDurationEqual => Ok(PlainOp::Binary(BinaryImpl::DayTimeDurationEq)),
        XacmlFunction::YearMonthDurationEqual => Ok(PlainOp::Binary(BinaryImpl::YearMonthDurationEq)),
        XacmlFunction::AnyUriEqual => Ok(PlainOp::Binary(BinaryImpl::AnyUriEq)),
        XacmlFunction::StringEqual => Ok(PlainOp::Binary(BinaryImpl::StringEq)),
        XacmlFunction::StringEqualIgnoreCase => Ok(PlainOp::Binary(BinaryImpl::StringEqIgnoreCase)),
        XacmlFunction::StringConcatenate => Ok(PlainOp::Binary(BinaryImpl::StringConcat)),
        XacmlFunction::StringContains => Ok(PlainOp::Binary(BinaryImpl::StringContains)),
        XacmlFunction::StringStartsWith => Ok(PlainOp::Binary(BinaryImpl::StringStartsWith)),
        XacmlFunction::StringEndsWith => Ok(PlainOp::Binary(BinaryImpl::StringEndsWith)),
        XacmlFunction::AnyUriContains => Ok(PlainOp::Binary(BinaryImpl::AnyUriContains)),
        XacmlFunction::AnyUriStartsWith => Ok(PlainOp::Binary(BinaryImpl::AnyUriStartsWith)),
        XacmlFunction::AnyUriEndsWith => Ok(PlainOp::Binary(BinaryImpl::AnyUriEndsWith)),
        XacmlFunction::Rfc822NameEqual => Ok(PlainOp::Binary(BinaryImpl::Rfc822NameEq)),
        XacmlFunction::X500NameEqual => Ok(PlainOp::Binary(BinaryImpl::X500NameEq)),
        XacmlFunction::Base64BinaryEqual => Ok(PlainOp::Binary(BinaryImpl::VecEq)),
        XacmlFunction::HexBinaryEqual => Ok(PlainOp::Binary(BinaryImpl::VecEq)),
        XacmlFunction::AllOf(_) => Ok(PlainOp::Binary(BinaryImpl::AllOf)),
        XacmlFunction::AnyOf(_) => Ok(PlainOp::Binary(BinaryImpl::AnyOf)),
        XacmlFunction::AnyOfAny(_) => Ok(PlainOp::Binary(BinaryImpl::AnyOfAny)),
        XacmlFunction::AnyOfAll(_) => Ok(PlainOp::Binary(BinaryImpl::AnyOfAll)),
        XacmlFunction::AllOfAny(_) => Ok(PlainOp::Binary(BinaryImpl::AllOfAny)),
        XacmlFunction::AllOfAll(_) => Ok(PlainOp::Binary(BinaryImpl::AllOfAll)),
        XacmlFunction::StringOneAndOnly => Ok(PlainOp::Unary(UnaryImpl::StringOneAndOnly)),
        XacmlFunction::StringBagSize => Ok(PlainOp::Unary(UnaryImpl::StringBagSize)),
        XacmlFunction::StringIsIn => Ok(PlainOp::Binary(BinaryImpl::StringIsIn)),
        XacmlFunction::StringAtLeastOneMemberOf => Ok(PlainOp::Binary(BinaryImpl::StringAtLeastOneMemberOf)),
        _ => Err(DispatchError::UnsupportedFunction { func: func.copy() }),
    }
}

fn apply_plain_unary_impl(k: UnaryImpl, func: XacmlFunction, a: &IntermediateTypes) -> (r: Result<IntermediateTypes, DispatchError>)
    requires
        sem_unary_impl(k, func, a.value()) is Some,
    ensures
        Some(rv(r)) == sem_unary_impl(k, func, a.value()),
{
    match k {
        UnaryImpl::IntegerAbs => apply_plain_integer_abs(func, a),
        UnaryImpl::Not => apply_plain_not(func, a),
        UnaryImpl::DoubleAbs => apply_plain_double_abs(func, a),
        UnaryImpl::StringOneAndOnly => apply_plain_string_one_and_only(func, a),
        UnaryImpl::StringBagSize => apply_plain_string_bag_size(func, a),
    }
}

fn apply_plain_ternary_impl(
    k: TernaryImpl,
    func: XacmlFunction,
    a: &IntermediateTypes,
    b: &IntermediateTypes,
    c: &IntermediateTypes,
) -> (r: Result<IntermediateTypes, DispatchError>)
    ensures
        Some(rv(r)) == sem_ternary_impl(k, func, a.value(), b.value(), c.value()),
{
    match k {
        TernaryImpl::BoolIfElse => apply_plain_bool_if_else(func, a, b, c),
        TernaryImpl::TimeInRange => apply_plain_time_in_range(func, a, b, c),
    }
}

/// Evaluates a one-argument function.
pub fn eval_plain_unary(func: XacmlFunction, a: &IntermediateTypes) -> (r: Result<IntermediateTypes, DispatchError>)
    requires
        sem_unary(func, a.value()) is Some,
    ensures
        Some(rv(r)) == sem_unary(func, a.value()),
{
    let op = match resolve_plain_op(&func) {
        Ok(op) => op,
        Err(e) => return Err(e),
    };
    match op {
        PlainOp::Unary(k) => apply_plain_unary_impl(k, func, a),
        _ => Err(DispatchError::ArityMismatch { func, expected: 1, got: 1 }),
    }
}

/// Evaluates a three-argument function.
pub fn eval_plain_ternary(
    func: XacmlFunction,
    a: &IntermediateTypes,
    b: &IntermediateTypes,
    c: &IntermediateTypes,
) -> (r: Result<IntermediateTypes, DispatchError>)
    ensures
        Some(rv(r)) == sem_ternary(func, a.value(), b.value(), c.value()),
{
    let op = match resolve_plain_op(&func) {
        Ok(op) => op,
        Err(e) => return Err(e),
    };
    match op {
        PlainOp::Ternary(k) => apply_plain_ternary_impl(k, func, a, b, c),
        _ => Err(DispatchError::ArityMismatch { func, expected: 3, got: 3 }),
    }
}

/// Evaluates a two-argument function.
pub fn eval_plain_binary(func: XacmlFunction, a: &IntermediateTypes, b: &IntermediateTypes) -> (r: Result<IntermediateTypes, DispatchError>)
    requires
        sem_binary(func, a.value(), b.value()) is Some,
    ensures
        Some(rv(r)) == sem_binary(func, a.value(), b.value()),
    decreases func, 5int,
{
    let op = match resolve_plain_op(&func) {
        Ok(op) => op,
        Err(e) => return Err(e),
    };
    match op {
        PlainOp::Binary(k) => apply_plain_binary_impl(k, func, a, b),
        _ => Err(DispatchError::ArityMismatch { func, expected: 2, got: 2 }),
    }
}

fn apply_plain_binary_impl(k: BinaryImpl, func: XacmlFunction, a: &IntermediateTypes, b: &IntermediateTypes) -> (r: Result<IntermediateTypes, DispatchError>)
    requires
        sem_binary_impl(k, func, a.value(), b.value()) is Some,
    ensures
        Some(rv(r)) == sem_binary_impl(k, func, a.value(), b.value()),
    decreases func, 4int,
{
    match k {
        BinaryImpl::IntegerEq => apply_plain_integer_eq(func, a, b),
        BinaryImpl::IntegerCmp => apply_plain_integer_cmp(func, a, b),
        BinaryImpl::IntegerArith => apply_plain_integer_arith(func, a, b),
        BinaryImpl::BoolBinop => apply_plain_bool_binop(func, a, b),
        BinaryImpl::BoolEq => apply_plain_bool_eq(func, a, b),
        BinaryImpl::DoubleEq => apply_plain_double_eq(func, a, b),
        BinaryImpl::DoubleCmp => apply_plain_double_cmp(func, a, b),
        BinaryImpl::DoubleArith => apply_plain_double_arith(func, a, b),
        BinaryImpl::TimeEq => apply_plain_time_eq(func, a, b),
        BinaryImpl::TimeCmp => apply_plain_time_cmp(func, a, b),
        BinaryImpl::DateTimeEq => apply_plain_datetime_eq(func, a, b),
        BinaryImpl::DateTimeCmp => apply_plain_datetime_cmp(func, a, b),
        BinaryImpl::DateTimeAddSubDuration => apply_plain_datetime_addsub_duration(func, a, b),
        BinaryImpl::DayTimeDurationEq => apply_plain_daytimeduration_eq(func, a, b),
        BinaryImpl::YearMonthDurationEq => apply_plain_yearmonthduration_eq(func, a, b),
        BinaryImpl::AnyUriEq => apply_plain_anyuri_eq(func, a, b),
        BinaryImpl::StringEq => apply_plain_string_eq(func, a, b),
        BinaryImpl::StringEqIgnoreCase => apply_plain_string_eq_ignore_case(func, a, b),
        BinaryImpl::StringConcat => apply_plain_string_concat(func, a, b),
        BinaryImpl::StringContains => apply_plain_string_contains(func, a, b),
        BinaryImpl::StringStartsWith => apply_plain_string_starts_with(func, a, b),
        BinaryImpl::StringEndsWith => apply_plain_string_ends_with(func, a, b),
        BinaryImpl::AnyUriContains => apply_plain_anyuri_contains(func, a, b),
        BinaryImpl::AnyUriStartsWith => apply_plain_anyuri_starts_with(func, a, b),
        BinaryImpl::AnyUriEndsWith => apply_plain_anyuri_ends_with(func, a, b),
        BinaryImpl::Rfc822NameEq => apply_plain_rfc822name_eq(func, a, b),
        BinaryImpl::X500NameEq => apply_plain_x500name_eq(func, a, b),
        BinaryImpl::VecEq => apply_plain_vec_eq(func, a, b),
        BinaryImpl::AllOf => apply_plain_all_of(func, a, b),
        BinaryImpl::AnyOf => apply_plain_any_of(func, a, b),
        BinaryImpl::AnyOfAny => apply_plain_any_of_any(func, a, b),
        BinaryImpl::AnyOfAll => apply_plain_any_of_all(func, a, b),
        BinaryImpl::AllOfAny => apply_plain_all_of_any(func, a, b),
        BinaryImpl::AllOfAll => apply_plain_all_of_all(func, a, b),
        BinaryImpl::StringIsIn => apply_plain_string_is_in(func, a, b),
        BinaryImpl::StringAtLeastOneMemberOf => apply_plain_string_at_least_one_member_of(func, a, b),
    }
}

/// Evaluates the predicate `pred` and reads its result as a truth value.
fn eval_plain_binary_predicate_bool(pred: &XacmlFunction, a: &IntermediateTypes, b: &IntermediateTypes) -> (r: Result<bool, DispatchError>)
    requires
        pred_outcome(*pred, sem_binary(*pred, a.value(), b.value())) is Some,
    ensures
        Some(r) == pred_outcome(*pred, sem_binary(*pred, a.value(), b.value())),
    decreases *pred, 6int,
{
    let out = match eval_plain_binary(pred.copy(), a, b) {
        Ok(v) => v,
        Err(e) => return Err(e),
    };
    match out {
        IntermediateTypes::Boolean(x) => Ok(x),
        other => Err(DispatchError::TypeMismatch { func: pred.copy(), expected: "Bool", got: other.ty() }),
    }
}

/// The predicate of a quantified function applied between `fixed` and each
/// element of `elems`, folded by conjunction (`conj`) or disjunction.
fn plain_row(
    f: &XacmlFunction,
    fixed: &IntermediateTypes,
    elems: &Vec<IntermediateTypes>,
    fixed_first: bool,
    conj: bool,
) -> (r: Result<bool, DispatchError>)
    requires
        has_inner(*f),
        sem_row(*f, fixed.value(), IntermediateTypes::values_of(elems@), 0, fixed_first, conj) is Some,
    ensures
        Some(r) == sem_row(*f, fixed.value(), IntermediateTypes::values_of(elems@), 0, fixed_first, conj),
    decreases *f, 1int,
{
    let p: &XacmlFunction = match f {
        XacmlFunction::AnyOf(Some(p)) => p,
        XacmlFunction::AllOf(Some(p)) => p,
        XacmlFunction::AnyOfAny(Some(p)) => p,
        XacmlFunction::AllOfAny(Some(p)) => p,
        XacmlFunction::AnyOfAll(Some(p)) => p,
        XacmlFunction::AllOfAll(Some(p)) => p,
        _ => vstd::pervasive::unreached(),
    };
    assert(decreases_to!(*f => *p));
    let ghost es = IntermediateTypes::values_of(elems@);
    let ghost fv = fixed.value();
    let mut acc = conj;
    let mut i: usize = 0;
    while i < elems.len()
        invariant
            i <= elems.len(),
            es == IntermediateTypes::values_of(elems@),
            es.len() == elems.len(),
            fv == fixed.value(),
            decreases_to!(*f => *p),
            forall|a: Value, b: Value| sem_pred(*f, a, b) == pred_outcome(*p, sem_binary(*p, a, b)),
            sem_row(*f, fv, es, 0, fixed_first, conj) == fold_step(conj, acc, sem_row(*f, fv, es, i as int, fixed_first, conj)),
            sem_row(*f, fv, es, 0, fixed_first, conj) is Some,
        decreases elems.len() - i,
    {
        assert(es[i as int] == elems@[i as int].value());
        proof {
            let rest = sem_row(*f, fv, es, i as int, fixed_first, conj);
            assert(rest is Some);
            let pv = if fixed_first { sem_pred(*f, fv, es[i as int]) } else { sem_pred(*f, es[i as int], fv) };
            assert(pv is Some);
        }
        let x = if fixed_first {
            eval_plain_binary_predicate_bool(p, fixed, &elems[i])
        } else {
            eval_plain_binary_predicate_bool(p, &elems[i], fixed)
        };
        let x = match x {
            Ok(x) => x,
            Err(e) => return Err(e),
        };
        acc = if conj { acc && x } else { acc || x };
        i = i + 1;
    }
    Ok(acc)
}

/// A row fold for each element of `outer`, folded again.
fn plain_grid(
    f: &XacmlFunction,
    outer: &Vec<IntermediateTypes>,
    inner: &Vec<IntermediateTypes>,
    outer_first: bool,
    outer_conj: bool,
    inner_conj: bool,
) -> (r: Result<bool, DispatchError>)
    requires
        has_inner(*f),
        sem_grid(*f, IntermediateTypes::values_of(outer@), IntermediateTypes::values_of(inner@), 0, outer_first, outer_conj, inner_conj) is Some,
    ensures
        Some(r) == sem_grid(*f, IntermediateTypes::values_of(outer@), IntermediateTypes::values_of(inner@), 0, outer_first, outer_conj, inner_conj),
    decreases *f, 2int,
{
    let ghost os = IntermediateTypes::values_of(outer@);
    let ghost is = IntermediateTypes::values_of(inner@);
    let mut acc = outer_conj;
    let mut i: usize = 0;
    while i < outer.len()
        invariant
            i <= outer.len(),
            has_inner(*f),
            os == IntermediateTypes::values_of(outer@),
            os.len() == outer.len(),
            is == IntermediateTypes::values_of(inner@),
            sem_grid(*f, os, is, 0, outer_first, outer_conj, inner_conj) == fold_step(
                outer_conj,
                acc,
                sem_grid(*f, os, is, i as int, outer_first, outer_conj, inner_conj),
            ),
            sem_grid(*f, os, is, 0, outer_first, outer_conj, inner_conj) is Some,
        decreases outer.len() - i,
    {
        assert(os[i as int] == outer@[i as int].value());
        let x = match plain_row(f, &outer[i], inner, outer_first, inner_conj) {
            Ok(x) => x,
            Err(e) => return Err(e),
        };
        acc = if outer_conj { acc && x } else { acc || x };
        i = i + 1;
    }
    Ok(acc)
}

/// any-of: the inner predicate between `value` and the elements of `bag`,
/// folded by disjunction.
pub fn apply_plain_any_of(func: XacmlFunction, value: &IntermediateTypes, bag: &IntermediateTypes) -> (r: Result<IntermediateTypes, DispatchError>)
    requires
        sem_any_of(func, value.value(), bag.value()) is Some,
    ensures
        Some(rv(r)) == sem_any_of(func, value.value(), bag.value()),
    decreases func, 3int,
{
    match bag {
        IntermediateTypes::Bag(b) => {
            match &func {
                XacmlFunction::AnyOf(None) => Err(DispatchError::AbsentInnerFunction {
                    message: "no inner function found in any-of function evaluation",
                }),
                XacmlFunction::AnyOf(Some(_)) => match plain_row(&func, value, b, true, false) {
                    Ok(x) => Ok(IntermediateTypes::Boolean(x)),
                    Err(e) => Err(e),
                },
                _ => Err(DispatchError::TypeMismatch { func, expected: "Bag", got: bag.ty() }),
            }
        },
        other => Err(DispatchError::TypeMismatch { func, expected: "Bag", got: other.ty() }),
    }
}

/// all-of: the inner predicate between `value` and the elements of `bag`,
/// folded by conjunction.
pub fn apply_plain_all_of(func: XacmlFunction, value: &IntermediateTypes, bag: &IntermediateTypes) -> (r: Result<IntermediateTypes, DispatchError>)
    requires
        sem_all_of(func, value.value(), bag.value()) is Some,
    ensures
        Some(rv(r)) == sem_all_of(func, value.value(), bag.value()),
    decreases func, 3int,
{
    match bag {
        IntermediateTypes::Bag(b) => {
            match &func {
                XacmlFunction::AllOf(None) => Err(DispatchError::AbsentInnerFunction {
                    message: "no inner function found in all-of function evaluation",
                }),
                XacmlFunction::AllOf(Some(_)) => match plain_row(&func, value, b, true, true) {
                    Ok(x) => Ok(IntermediateTypes::Boolean(x)),
                    Err(e) => Err(e),
                },
                _ => Err(DispatchError::TypeMismatch { func, expected: "Bag", got: bag.ty() }),
            }
        },
        other => Err(DispatchError::TypeMismatch { func, expected: "Bag", got: other.ty() }),
    }
}

/// any-of-any: whether some pair drawn from the two bags satisfies the inner predicate.
pub fn apply_plain_any_of_any(func: XacmlFunction, bag1: &IntermediateTypes, bag2: &IntermediateTypes) -> (r: Result<IntermediateTypes, DispatchError>)
    requires
        sem_any_of_any(func, bag1.value(), bag2.value()) is Some,
    ensures
        Some(rv(r)) == sem_any_of_any(func, bag1.value(), bag2.value()),
    decreases func, 3int,
{
    match (bag1, bag2) {
        (IntermediateTypes::Bag(b1), IntermediateTypes::Bag(b2)) => {
            match &func {
                XacmlFunction::AnyOfAny(None) => Err(DispatchError::AbsentInnerFunction {
                    message: "no inner function found in any-of-any function evaluation",
                }),
                XacmlFunction::AnyOfAny(Some(_)) => match plain_grid(&func, b1, b2, true, false, false) {
                    Ok(x) => Ok(IntermediateTypes::Boolean(x)),
                    Err(e) => Err(e),
                },
                _ => Err(DispatchError::TypeMismatch { func, expected: "Bag, Bag", got: got_pair(bag1, bag2) }),
            }
        },
        _ => Err(DispatchError::TypeMismatch { func, expected: "Bag, Bag", got: got_pair(bag1, bag2) }),
    }
}

/// all-of-any: whether every element of the first bag satisfies the inner predicate with some element of the second.
pub fn apply_plain_all_of_any(func: XacmlFunction, bag1: &IntermediateTypes, bag2: &IntermediateTypes) -> (r: Result<IntermediateTypes, DispatchError>)
    requires
        sem_all_of_any(func, bag1.value(), bag2.value()) is Some,
    ensures
        Some(rv(r)) == sem_all_of_any(func, bag1.value(), bag2.value()),
    decreases func, 3int,
{
    match (bag1, bag2) {
        (IntermediateTypes::Bag(b1), IntermediateTypes::Bag(b2)) => {
            match &func {
                XacmlFunction::AllOfAny(None) => Err(DispatchError::AbsentInnerFunction {
                    message: "no inner function found in all-of-any function evaluation",
                }),
                XacmlFunction::AllOfAny(Some(_)) => match plain_grid(&func, b1, b2, true, true, false) {
                    Ok(x) => Ok(IntermediateTypes::Boolean(x)),
                    Err(e) => Err(e),
                },
                _ => Err(DispatchError::TypeMismatch { func, expected: "Bag, Bag", got: got_pair(bag1, bag2) }),
            }
        },
        _ => Err(DispatchError::TypeMismatch { func, expected: "Bag, Bag", got: got_pair(bag1, bag2) }),
    }
}

/// any-of-all: whether every element of the second bag is related to by some element of the first.
pub fn apply_plain_any_of_all(func: XacmlFunction, bag1: &IntermediateTypes, bag2: &IntermediateTypes) -> (r: Result<IntermediateTypes, DispatchError>)
    requires
        sem_any_of_all(func, bag1.value(), bag2.value()) is Some,
    ensures
        Some(rv(r)) == sem_any_of_all(func, bag1.value(), bag2.value()),
    decreases func, 3int,
{
    match (bag1, bag2) {
        (IntermediateTypes::Bag(b1), IntermediateTypes::Bag(b2)) => {
            match &func {
                XacmlFunction::AnyOfAll(None) => Err(DispatchError::AbsentInnerFunction {
                    message: "no inner function found in any-of-all function evaluation",
                }),
                XacmlFunction::AnyOfAll(Some(_)) => match plain_grid(&func, b2, b1, false, true, false) {
                    Ok(x) => Ok(IntermediateTypes::Boolean(x)),
                    Err(e) => Err(e),
                },
                _ => Err(DispatchError::TypeMismatch { func, expected: "Bag, Bag", got: got_pair(bag1, bag2) }),
            }
        },
        _ => Err(DispatchError::TypeMismatch { func, expected: "Bag, Bag", got: got_pair(bag1, bag2) }),
    }
}

/// all-of-all: whether every pair drawn from the two bags satisfies the inner predicate.
pub fn apply_plain_all_of_all(func: XacmlFunction, bag1: &IntermediateTypes, bag2: &IntermediateTypes) -> (r: Result<IntermediateTypes, DispatchError>)
    requires
        sem_all_of_all(func, bag1.value(), bag2.value()) is Some,
    ensures
        Some(rv(r)) == sem_all_of_all(func, bag1.value(), bag2.value()),
    decreases func, 3int,
{
    match (bag1, bag2) {
        (IntermediateTypes::Bag(b1), IntermediateTypes::Bag(b2)) => {
            match &func {
                XacmlFunction::AllOfAll(None) => Err(DispatchError::AbsentInnerFunction {
                    message: "no inner function found in all-of-all function evaluation",
                }),
                XacmlFunction::AllOfAll(Some(_)) => match plain_grid(&func, b1, b2, true, true, true) {
                    Ok(x) => Ok(IntermediateTypes::Boolean(x)),
                    Err(e) => Err(e),
                },
                _ => Err(DispatchError::TypeMismatch { func, expected: "Bag, Bag", got: got_pair(bag1, bag2) }),
            }
        },
        _ => Err(DispatchError::TypeMismatch { func, expected: "Bag, Bag", got: got_pair(bag1, bag2) }),
    }
}


/// Evaluates the function named by `urn` (with `urn2` naming the inner
/// predicate of a quantified function) on borrowed arguments.
pub fn evaluate_function_plain(urn: &str, urn2: Option<&str>, arguments: Vec<Option<&IntermediateTypes>>) -> (r: Result<IntermediateTypes, DispatchError>)
    requires
        XacmlFunction::urn_accepted(urn@, opt_view(urn2)),
        match XacmlFunction::spec_from_urn(urn@, opt_view(urn2)) {
            Some(f) => sem_call(f, borrowed_args(arguments@)) is Some,
            None => true,
        },
    ensures
        match XacmlFunction::spec_from_urn(urn@, opt_view(urn2)) {
            Some(f) => Some(rv(r)) == sem_call(f, borrowed_args(arguments@)),
            None => r matches Err(DispatchError::NotFoundOperatorFromUrn { message, not_found })
                && message == "Did not find the operator from the URN " && not_found@ == urn@,
        },
{
    let func = match XacmlFunction::from_urn(urn, urn2) {
        Some(f) => f,
        None => {
            return Err(DispatchError::NotFoundOperatorFromUrn {
                message: "Did not find the operator from the URN ",
                not_found: urn.to_owned(),
            });
        },
    };
    let ghost sa = borrowed_args(arguments@);
    match func {
        XacmlFunction::StringBag => {
            return apply_plain_string_bag_from_borrowed_args(func, arguments);
        },
        XacmlFunction::And | XacmlFunction::Or => {
            return apply_plain_bool_vec_op_from_borrowed_args(func, arguments);
        },
        _ => {},
    }
    let op = match resolve_plain_op(&func) {
        Ok(op) => op,
        Err(e) => return Err(e),
    };
    match op {
        PlainOp::Unary(_) => {
            if arguments.len() != 1 {
                return Err(DispatchError::ArityMismatch { func, expected: 1, got: arguments.len() });
            }
            let a0 = match arguments[0] {
                Some(v) => v,
                None => return Err(DispatchError::Indeterminate { func, reason: "missing unary argument" }),
            };
            eval_plain_unary(func, a0)
        },
        PlainOp::Binary(_) => {
            if arguments.len() != 2 {
                return Err(DispatchError::ArityMismatch { func, expected: 2, got: arguments.len() });
            }
            let a0 = match arguments[0] {
                Some(v) => v,
                None => return Err(DispatchError::Indeterminate { func, reason: "missing first binary argument" }),
            };
            let a1 = match arguments[1] {
                Some(v) => v,
                None => return Err(DispatchError::Indeterminate { func, reason: "missing second binary argument" }),
            };
            eval_plain_binary(func, a0, a1)
        },
        PlainOp::Ternary(_) => {
            if arguments.len() != 3 {
                return Err(DispatchError::ArityMismatch { func, expected: 3, got: arguments.len() });
            }
            let a0 = match arguments[0] {
                Some(v) => v,
                None => return Err(DispatchError::Indeterminate { func, reason: "missing first ternary argument" }),
            };
            let a1 = match arguments[1] {
                Some(v) => v,
                None => return Err(DispatchError::Indeterminate { func, reason: "missing second ternary argument" }),
            };
            let a2 = match arguments[2] {
                Some(v) => v,
                None => return Err(DispatchError::Indeterminate { func, reason: "missing third ternary argument" }),
            };
            eval_plain_ternary(func, a0, a1, a2)
        },
    }
}

/// Evaluates the function named by `urn` (with `urn2` naming the inner
/// predicate of a quantified function) on owned arguments.
pub fn evaluate_function_plain_consume(urn: &str, urn2: Option<&str>, arguments: Vec<Option<IntermediateTypes>>) -> (r: Result<IntermediateTypes, DispatchError>)
    requires
        XacmlFunction::urn_accepted(urn@, opt_view(urn2)),
        match XacmlFunction::spec_from_urn(urn@, opt_view(urn2)) {
            Some(f) => sem_call(f, owned_args(arguments@)) is Some,
            None => true,
        },
    ensures
        match XacmlFunction::spec_from_urn(urn@, opt_view(urn2)) {
            Some(f) => Some(rv(r)) == sem_call(f, owned_args(arguments@)),
            None => r matches Err(DispatchError::NotFoundOperatorFromUrn { message, not_found })
                && message == "Did not find the operator from the URN " && not_found@ == urn@,
        },
{
    let func = match XacmlFunction::from_urn(urn, urn2) {
        Some(f) => f,
        None => {
            return Err(DispatchError::NotFoundOperatorFromUrn {
                message: "Did not find the operator from the URN ",
                not_found: urn.to_owned(),
            });
        },
    };
    let ghost sa = owned_args(arguments@);
    match func {
        XacmlFunction::StringBag => {
            return apply_plain_string_bag_from_owned_args(func, arguments);
        },
        XacmlFunction::And | XacmlFunction::Or => {
            return apply_plain_bool_vec_op_from_owned_args(func, arguments);
        },
        _ => {},
    }
    let op = match resolve_plain_op(&func) {
        Ok(op) => op,
        Err(e) => return Err(e),
    };
    match op {
        PlainOp::Unary(_) => {
            if arguments.len() != 1 {
                return Err(DispatchError::ArityMismatch { func, expected: 1, got: arguments.len() });
            }
            let a0 = match &arguments[0] {
                Some(v) => v,
                None => return Err(DispatchError::Indeterminate { func, reason: "missing unary argument" }),
            };
            eval_plain_unary(func, a0)
        },
        PlainOp::Binary(_) => {
            if arguments.len() != 2 {
                return Err(DispatchError::ArityMismatch { func, expected: 2, got: arguments.len() });
            }
            let a0 = match &arguments[0] {
                Some(v) => v,
                None => return Err(DispatchError::Indeterminate { func, reason: "missing first binary argument" }),
            };
            let a1 = match &arguments[1] {
                Some(v) => v,
                None => return Err(DispatchError::Indeterminate { func, reason: "missing second binary argument" }),
            };
            eval_plain_binary(func, a0, a1)
        },
        PlainOp::Ternary(_) => {
            if arguments.len() != 3 {
                return Err(DispatchError::ArityMismatch { func, expected: 3, got: arguments.len() });
            }
            let a0 = match &arguments[0] {
                Some(v) => v,
                None => return Err(DispatchError::Indeterminate { func, reason: "missing first ternary argument" }),
            };
            let a1 = match &arguments[1] {
                Some(v) => v,
                None => return Err(DispatchError::Indeterminate { func, reason: "missing second ternary argument" }),
            };
            let a2 = match &arguments[2] {
                Some(v) => v,
                None => return Err(DispatchError::Indeterminate { func, reason: "missing third ternary argument" }),
            };
            eval_plain_ternary(func, a0, a1, a2)
        },
    }
}


/// `borrowed` refers, place by place, to the arguments `owned`.
pub open spec fn same_arguments(owned: Seq<Option<IntermediateTypes>>, borrowed: Seq<Option<&IntermediateTypes>>) -> bool {
    owned.len() == borrowed.len() && forall|i: int|
        0 <= i < owned.len() ==> match (#[trigger] owned[i], borrowed[i]) {
            (Some(a), Some(b)) => a == *b,
            (None, None) => true,
            _ => false,
        }
}

/// Evaluating on owned arguments and on references to the same arguments
/// gives the same outcome: `evaluate_function_plain_consume` and `evaluate_function_plain` both state their result
/// over the models of their arguments, and these models coincide.
pub proof fn lemma_owned_and_borrowed_plain_calls_agree(owned: Seq<Option<IntermediateTypes>>, borrowed: Seq<Option<&IntermediateTypes>>)
    requires
        same_arguments(owned, borrowed),
    ensures
        owned_args(owned) == borrowed_args(borrowed),
{
    assert forall|i: int| 0 <= i < owned.len() implies #[trigger] owned_args(owned)[i] == borrowed_args(borrowed)[i] by {
        assert(match (owned[i], borrowed[i]) {
            (Some(a), Some(b)) => a == *b,
            (None, None) => true,
            _ => false,
        });
    }
    assert(owned_args(owned) =~= borrowed_args(borrowed));
}

} // verus!
