//! The orderings of the XACML comparison functions, stated over the
//! numbers that the compared values hold: equal, greater than, greater than
//! or equal, less than, less than or equal, over plain values and over
//! encryptions of them.

use vstd::prelude::*;
use crate::agreement::decrypt;
use crate::cipher::{Circ, ClearV, EValue};
use crate::constants::XacmlFunction;
use crate::enc_spec::{EOutcome, esem_binary};
use crate::intermediate::Value;
use crate::plain::DispatchError;
use crate::plain_spec::{Outcome, sem_binary};

verus! {

/// The outcome of a plain comparison that yields the truth value `b`.
pub open spec fn yields(b: bool) -> Outcome {
    Some(Ok::<Value, DispatchError>(Value::Boolean(b)))
}

/// An encrypted comparison that yields an encrypted truth value decrypting,
/// under the plaintexts `env`, to `b`.
pub open spec fn yields_encrypted(r: EOutcome, env: Map<u64, ClearV>, b: bool) -> bool {
    r matches Ok(EValue::Boolean(c)) && decrypt(c, env) == ClearV::Bool(b)
}

/// The comparisons of integers compare the numbers they hold: for every pair,
/// equal, greater than, greater than or equal, less than and less than or
/// equal hold exactly when they do of the two numbers (so the non-strict
/// ones hold of equal values, and the strict ones do not).
pub proof fn lemma_integer_orderings(x: i64, y: i64)
    ensures
        sem_binary(XacmlFunction::IntegerEqual, Value::Integer(x), Value::Integer(y)) == yields(x == y),
        sem_binary(XacmlFunction::IntegerGreaterThan, Value::Integer(x), Value::Integer(y)) == yields(x > y),
        sem_binary(XacmlFunction::IntegerGreaterThanOrEqual, Value::Integer(x), Value::Integer(y)) == yields(x >= y),
        sem_binary(XacmlFunction::IntegerLessThan, Value::Integer(x), Value::Integer(y)) == yields(x < y),
        sem_binary(XacmlFunction::IntegerLessThanOrEqual, Value::Integer(x), Value::Integer(y)) == yields(x <= y),
{
}

/// The comparisons of encrypted integers yield encrypted truth values that
/// decrypt to the comparison of the numbers the arguments decrypt to.
pub proof fn lemma_encrypted_integer_orderings(cx: Circ, cy: Circ, env: Map<u64, ClearV>, a: i128, b: i128)
    requires
        decrypt(cx, env) == ClearV::Int(a),
        decrypt(cy, env) == ClearV::Int(b),
    ensures
        yields_encrypted(esem_binary(XacmlFunction::IntegerEqual, EValue::Integer(cx), EValue::Integer(cy)), env, a == b),
        yields_encrypted(esem_binary(XacmlFunction::IntegerGreaterThan, EValue::Integer(cx), EValue::Integer(cy)), env, a > b),
        yields_encrypted(esem_binary(XacmlFunction::IntegerGreaterThanOrEqual, EValue::Integer(cx), EValue::Integer(cy)), env, a >= b),
        yields_encrypted(esem_binary(XacmlFunction::IntegerLessThan, EValue::Integer(cx), EValue::Integer(cy)), env, a < b),
        yields_encrypted(esem_binary(XacmlFunction::IntegerLessThanOrEqual, EValue::Integer(cx), EValue::Integer(cy)), env, a <= b),
{
}

/// The comparisons of dates compare the numbers they hold: for every pair,
/// equal, greater than, greater than or equal, less than and less than or
/// equal hold exactly when they do of the two numbers (so the non-strict
/// ones hold of equal values, and the strict ones do not).
pub proof fn lemma_date_orderings(x: i64, y: i64)
    ensures
        sem_binary(XacmlFunction::DateEqual, Value::Date(x), Value::Date(y)) == yields(x == y),
        sem_binary(XacmlFunction::DateGreaterThan, Value::Date(x), Value::Date(y)) == yields(x > y),
        sem_binary(XacmlFunction::DateGreaterThanOrEqual, Value::Date(x), Value::Date(y)) == yields(x >= y),
        sem_binary(XacmlFunction::DateLessThan, Value::Date(x), Value::Date(y)) == yields(x < y),
        sem_binary(XacmlFunction::DateLessThanOrEqual, Value::Date(x), Value::Date(y)) == yields(x <= y),
{
}

/// The comparisons of encrypted dates yield encrypted truth values that
/// decrypt to the comparison of the numbers the arguments decrypt to.
pub proof fn lemma_encrypted_date_orderings(cx: Circ, cy: Circ, env: Map<u64, ClearV>, a: i128, b: i128)
    requires
        decrypt(cx, env) == ClearV::Int(a),
        decrypt(cy, env) == ClearV::Int(b),
    ensures
        yields_encrypted(esem_binary(XacmlFunction::DateEqual, EValue::Date(cx), EValue::Date(cy)), env, a == b),
        yields_encrypted(esem_binary(XacmlFunction::DateGreaterThan, EValue::Date(cx), EValue::Date(cy)), env, a > b),
        yields_encrypted(esem_binary(XacmlFunction::DateGreaterThanOrEqual, EValue::Date(cx), EValue::Date(cy)), env, a >= b),
        yields_encrypted(esem_binary(XacmlFunction::DateLessThan, EValue::Date(cx), EValue::Date(cy)), env, a < b),
        yields_encrypted(esem_binary(XacmlFunction::DateLessThanOrEqual, EValue::Date(cx), EValue::Date(cy)), env, a <= b),
{
}

/// The comparisons of doubles compare the numbers they hold: for every pair,
/// equal, greater than, greater than or equal, less than and less than or
/// equal hold exactly when they do of the two numbers (so the non-strict
/// ones hold of equal values, and the strict ones do not).
pub proof fn lemma_double_orderings(x: i128, y: i128)
    ensures
        sem_binary(XacmlFunction::DoubleEqual, Value::Double(x), Value::Double(y)) == yields(x == y),
        sem_binary(XacmlFunction::DoubleGreaterThan, Value::Double(x), Value::Double(y)) == yields(x > y),
        sem_binary(XacmlFunction::DoubleGreaterThanOrEqual, Value::Double(x), Value::Double(y)) == yields(x >= y),
        sem_binary(XacmlFunction::DoubleLessThan, Value::Double(x), Value::Double(y)) == yields(x < y),
        sem_binary(XacmlFunction::DoubleLessThanOrEqual, Value::Double(x), Value::Double(y)) == yields(x <= y),
{
}

/// The comparisons of encrypted doubles yield encrypted truth values that
/// decrypt to the comparison of the numbers the arguments decrypt to.
pub proof fn lemma_encrypted_double_orderings(cx: Circ, cy: Circ, env: Map<u64, ClearV>, a: i128, b: i128)
    requires
        decrypt(cx, env) == ClearV::Int(a),
        decrypt(cy, env) == ClearV::Int(b),
    ensures
        yields_encrypted(esem_binary(XacmlFunction::DoubleEqual, EValue::Double(cx), EValue::Double(cy)), env, a == b),
        yields_encrypted(esem_binary(XacmlFunction::DoubleGreaterThan, EValue::Double(cx), EValue::Double(cy)), env, a > b),
        yields_encrypted(esem_binary(XacmlFunction::DoubleGreaterThanOrEqual, EValue::Double(cx), EValue::Double(cy)), env, a >= b),
        yields_encrypted(esem_binary(XacmlFunction::DoubleLessThan, EValue::Double(cx), EValue::Double(cy)), env, a < b),
        yields_encrypted(esem_binary(XacmlFunction::DoubleLessThanOrEqual, EValue::Double(cx), EValue::Double(cy)), env, a <= b),
{
}

/// The comparisons of times compare the numbers they hold: for every pair,
/// equal, greater than, greater than or equal, less than and less than or
/// equal hold exactly when they do of the two numbers (so the non-strict
/// ones hold of equal values, and the strict ones do not).
pub proof fn lemma_time_orderings(x: u32, y: u32)
    ensures
        sem_binary(XacmlFunction::TimeEqual, Value::Time(x), Value::Time(y)) == yields(x == y),
        sem_binary(XacmlFunction::TimeGreaterThan, Value::Time(x), Value::Time(y)) == yields(x > y),
        sem_binary(XacmlFunction::TimeGreaterThanOrEqual, Value::Time(x), Value::Time(y)) == yields(x >= y),
        sem_binary(XacmlFunction::TimeLessThan, Value::Time(x), Value::Time(y)) == yields(x < y),
        sem_binary(XacmlFunction::TimeLessThanOrEqual, Value::Time(x), Value::Time(y)) == yields(x <= y),
{
}

/// The comparisons of encrypted times yield encrypted truth values that
/// decrypt to the comparison of the numbers the arguments decrypt to.
pub proof fn lemma_encrypted_time_orderings(cx: Circ, cy: Circ, env: Map<u64, ClearV>, a: i128, b: i128)
    requires
        decrypt(cx, env) == ClearV::Int(a),
        decrypt(cy, env) == ClearV::Int(b),
    ensures
        yields_encrypted(esem_binary(XacmlFunction::TimeEqual, EValue::Time(cx), EValue::Time(cy)), env, a == b),
        yields_encrypted(esem_binary(XacmlFunction::TimeGreaterThan, EValue::Time(cx), EValue::Time(cy)), env, a > b),
        yields_encrypted(esem_binary(XacmlFunction::TimeGreaterThanOrEqual, EValue::Time(cx), EValue::Time(cy)), env, a >= b),
        yields_encrypted(esem_binary(XacmlFunction::TimeLessThan, EValue::Time(cx), EValue::Time(cy)), env, a < b),
        yields_encrypted(esem_binary(XacmlFunction::TimeLessThanOrEqual, EValue::Time(cx), EValue::Time(cy)), env, a <= b),
{
}

/// The comparisons of date-times compare the numbers they hold: for every pair,
/// equal, greater than, greater than or equal, less than and less than or
/// equal hold exactly when they do of the two numbers (so the non-strict
/// ones hold of equal values, and the strict ones do not).
pub proof fn lemma_date_time_orderings(x: i64, y: i64)
    ensures
        sem_binary(XacmlFunction::DateTimeEqual, Value::DateTime(x), Value::DateTime(y)) == yields(x == y),
        sem_binary(XacmlFunction::DateTimeGreaterThan, Value::DateTime(x), Value::DateTime(y)) == yields(x > y),
        sem_binary(XacmlFunction::DateTimeGreaterThanOrEqual, Value::DateTime(x), Value::DateTime(y)) == yields(x >= y),
        sem_binary(XacmlFunction::DateTimeLessThan, Value::DateTime(x), Value::DateTime(y)) == yields(x < y),
        sem_binary(XacmlFunction::DateTimeLessThanOrEqual, Value::DateTime(x), Value::DateTime(y)) == yields(x <= y),
{
}

/// The comparisons of encrypted date-times yield encrypted truth values that
/// decrypt to the comparison of the numbers the arguments decrypt to.
pub proof fn lemma_encrypted_date_time_orderings(cx: Circ, cy: Circ, env: Map<u64, ClearV>, a: i128, b: i128)
    requires
        decrypt(cx, env) == ClearV::Int(a),
        decrypt(cy, env) == ClearV::Int(b),
    ensures
        yields_encrypted(esem_binary(XacmlFunction::DateTimeEqual, EValue::DateTime(cx), EValue::DateTime(cy)), env, a == b),
        yields_encrypted(esem_binary(XacmlFunction::DateTimeGreaterThan, EValue::DateTime(cx), EValue::DateTime(cy)), env, a > b),
        yields_encrypted(esem_binary(XacmlFunction::DateTimeGreaterThanOrEqual, EValue::DateTime(cx), EValue::DateTime(cy)), env, a >= b),
        yields_encrypted(esem_binary(XacmlFunction::DateTimeLessThan, EValue::DateTime(cx), EValue::DateTime(cy)), env, a < b),
        yields_encrypted(esem_binary(XacmlFunction::DateTimeLessThanOrEqual, EValue::DateTime(cx), EValue::DateTime(cy)), env, a <= b),
{
}

} // verus!
