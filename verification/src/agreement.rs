//! What an encrypted evaluation means once decrypted, and its agreement with
//! the plain evaluation of the same function.

use vstd::prelude::*;
use crate::cipher::{Circ, ClearV, EValue, HOp, bin, trivial, trivial_value};
use crate::constants::XacmlFunction;
use crate::enc_spec::{TfheOp, balanced_circ, conn, eargs_fit, ebag_args_from, ehas_key, ebool_args_from, egrid_flat, egrid_nested, elookup_from, epred, eq_tests, erow, esem_binary, esem_bool_vec, esem_call, esem_string_bag, esem_ternary, esem_unary, estring_values, first_non_estr_from, fold_from, ofinish, ojoin, pair_level, pairs_fold, row_tests, tfhe_op, x500_chain, x500_entry_eq};
use crate::intermediate::Value;
use crate::plain::{BinaryImpl, DispatchError, PlainOp};
use crate::plain_spec::{arity, bag_args_from, bool_args_from, eq_ignore_ascii_case, first_non_str_from, has_inner, has_key, iabs, plain_op, sem_binary, sem_bool_vec, sem_call, sem_grid, sem_pred, sem_row, sem_string_bag, sem_ternary, sem_unary, seq_contains, seq_ends_with, seq_starts_with, str_of, string_values, trunc_div, unicode_lowercase, value_at, value_at_from};

verus! {

/// The plaintext of a one-argument homomorphic operation.
pub open spec fn apply1(op: HOp, x: ClearV) -> ClearV {
    match (op, x) {
        (HOp::Abs, ClearV::Int(a)) => ClearV::Int(iabs(a as int) as i128),
        (HOp::Not, ClearV::Bool(b)) => ClearV::Bool(!b),
        _ => x,
    }
}

/// The plaintext of a two-argument homomorphic operation.
pub open spec fn apply2(op: HOp, x: ClearV, y: ClearV) -> ClearV {
    match (x, y) {
        (ClearV::Int(a), ClearV::Int(b)) => match op {
            HOp::Eq => ClearV::Bool(a == b),
            HOp::Gt => ClearV::Bool(a > b),
            HOp::Ge => ClearV::Bool(a >= b),
            HOp::Lt => ClearV::Bool(a < b),
            HOp::Le => ClearV::Bool(a <= b),
            HOp::Add => ClearV::Int((a + b) as i128),
            HOp::Sub => ClearV::Int((a - b) as i128),
            HOp::Mul => ClearV::Int((a * b) as i128),
            HOp::Div => ClearV::Int(trunc_div(a as int, b as int) as i128),
            _ => ClearV::Bool(false),
        },
        (ClearV::Bool(a), ClearV::Bool(b)) => match op {
            HOp::Eq => ClearV::Bool(a == b),
            HOp::And => ClearV::Bool(a && b),
            HOp::Or => ClearV::Bool(a || b),
            _ => ClearV::Bool(false),
        },
        (ClearV::Str(s), ClearV::Str(t)) => match op {
            HOp::Eq => ClearV::Bool(s == t),
            HOp::EqIgnoreCase => ClearV::Bool(eq_ignore_ascii_case(s, t)),
            HOp::Concat => ClearV::Str(s + t),
            HOp::Contains => ClearV::Bool(seq_contains(s, t)),
            HOp::StartsWith => ClearV::Bool(seq_starts_with(s, t)),
            HOp::EndsWith => ClearV::Bool(seq_ends_with(s, t)),
            _ => ClearV::Bool(false),
        },
        (ClearV::Bytes(s), ClearV::Bytes(t)) => match op {
            HOp::ArrayEq => ClearV::Bool(s == t),
            _ => ClearV::Bool(false),
        },
        _ => ClearV::Bool(false),
    }
}

/// The plaintext that a homomorphic computation yields, given the
/// plaintexts `env` of the caller's ciphertexts.
pub open spec fn decrypt(c: Circ, env: Map<u64, ClearV>) -> ClearV
    decreases c,
{
    match c {
        Circ::Input(h) => env[h],
        Circ::Trivial(v) => v,
        Circ::Unary(op, a) => apply1(op, decrypt(*a, env)),
        Circ::Binary(op, a, b) => apply2(op, decrypt(*a, env), decrypt(*b, env)),
        Circ::Select(c, a, b) => if decrypt(*c, env) == ClearV::Bool(true) {
            decrypt(*a, env)
        } else {
            decrypt(*b, env)
        },
    }
}

/// `e` is an encryption of `v`: it has the same shape, and each of its
/// computations decrypts to the corresponding plain scalar.
pub open spec fn encrypts(e: EValue, env: Map<u64, ClearV>, v: Value) -> bool
    decreases v,
{
    match (e, v) {
        (EValue::Integer(c), Value::Integer(x)) => decrypt(c, env) == ClearV::Int(x as i128),
        (EValue::Double(c), Value::Double(x)) => decrypt(c, env) == ClearV::Int(x),
        (EValue::Str(c), Value::Str(s)) => decrypt(c, env) == ClearV::Str(s),
        (EValue::Boolean(c), Value::Boolean(b)) => decrypt(c, env) == ClearV::Bool(b),
        (EValue::Time(c), Value::Time(t)) => decrypt(c, env) == ClearV::Int(t as i128),
        (EValue::Date(c), Value::Date(x)) => decrypt(c, env) == ClearV::Int(x as i128),
        (EValue::DateTime(c), Value::DateTime(x)) => decrypt(c, env) == ClearV::Int(x as i128),
        (EValue::DayTimeDuration(c), Value::DayTimeDuration(x)) => decrypt(c, env) == ClearV::Int(x as i128),
        (EValue::YearMonthDuration(c), Value::YearMonthDuration(x)) => decrypt(c, env) == ClearV::Int(x as i128),
        (EValue::AnyUri(c), Value::AnyUri(s)) => decrypt(c, env) == ClearV::Str(s),
        (EValue::HexBinary(c), Value::HexBinary(b)) => decrypt(c, env) == ClearV::Bytes(b),
        (EValue::Base64Binary(c), Value::Base64Binary(b)) => decrypt(c, env) == ClearV::Bytes(b),
        (EValue::Rfc822Name(cl, cd), Value::Rfc822Name(l, d)) => decrypt(cl, env) == ClearV::Str(l) && decrypt(
            cd,
            env,
        ) == ClearV::Str(d),
        (EValue::X500Name(m), Value::X500Name(n)) => m.len() == n.len() && forall|i: int|
            0 <= i < m.len() ==> (#[trigger] m[i]).0 == n[i].0 && decrypt(m[i].1, env) == ClearV::Str(n[i].1),
        (EValue::DnsName(ch, cs, ce), Value::DnsName(h, s, t)) => decrypt(ch, env) == ClearV::Str(h) && decrypt(
            cs,
            env,
        ) == ClearV::Int(s as i128) && decrypt(ce, env) == ClearV::Int(t as i128),
        (EValue::IpAddress(c), Value::IpAddress(s)) => decrypt(c, env) == ClearV::Str(s),
        (EValue::Bag(es), Value::Bag(vs)) => es.len() == vs.len() && forall|i: int|
            0 <= i < es.len() ==> encrypts(#[trigger] es[i], env, vs[i]),
        (EValue::Nothing, Value::Nothing) => true,
        _ => false,
    }
}

/// Where the plain evaluation of `f` on `(a, b)` succeeds, the evaluation on
/// encryptions `(ea, eb)` succeeds too, and its result is an encryption of
/// the plain one.
pub open spec fn agrees(f: XacmlFunction, env: Map<u64, ClearV>, ea: EValue, eb: EValue, a: Value, b: Value) -> bool {
    encrypts(ea, env, a) && encrypts(eb, env, b) ==> match (sem_binary(f, a, b), esem_binary(f, ea, eb)) {
        (Some(Ok(v)), r) => r is Ok && encrypts(r->Ok_0, env, v),
        _ => true,
    }
}

/// `f` agrees on every pair of arguments.
pub open spec fn agrees_everywhere(f: XacmlFunction, env: Map<u64, ClearV>) -> bool {
    forall|ea: EValue, eb: EValue, a: Value, b: Value| #[trigger] agrees(f, env, ea, eb, a, b)
}

/// Both tables serve `f` with the two-argument implementation `k`.
pub open spec fn served_by(f: XacmlFunction, k: BinaryImpl) -> bool {
    plain_op(f) == Ok::<PlainOp, crate::plain::DispatchError>(PlainOp::Binary(k)) && tfhe_op(f) == Ok::<
        TfheOp,
        crate::plain::DispatchError,
    >(TfheOp::Binary(k))
}

proof fn lemma_agree_integer_eq(f: XacmlFunction, env: Map<u64, ClearV>, ea: EValue, eb: EValue, a: Value, b: Value)
    requires
        served_by(f, BinaryImpl::IntegerEq),
    ensures
        agrees(f, env, ea, eb, a, b),
{
}

proof fn lemma_agree_integer_cmp(f: XacmlFunction, env: Map<u64, ClearV>, ea: EValue, eb: EValue, a: Value, b: Value)
    requires
        served_by(f, BinaryImpl::IntegerCmp),
    ensures
        agrees(f, env, ea, eb, a, b),
{
}

proof fn lemma_agree_integer_arith(f: XacmlFunction, env: Map<u64, ClearV>, ea: EValue, eb: EValue, a: Value, b: Value)
    requires
        served_by(f, BinaryImpl::IntegerArith),
    ensures
        agrees(f, env, ea, eb, a, b),
{
}

proof fn lemma_agree_bool_binop(f: XacmlFunction, env: Map<u64, ClearV>, ea: EValue, eb: EValue, a: Value, b: Value)
    requires
        served_by(f, BinaryImpl::BoolBinop),
    ensures
        agrees(f, env, ea, eb, a, b),
{
}

proof fn lemma_agree_bool_eq(f: XacmlFunction, env: Map<u64, ClearV>, ea: EValue, eb: EValue, a: Value, b: Value)
    requires
        served_by(f, BinaryImpl::BoolEq),
    ensures
        agrees(f, env, ea, eb, a, b),
{
}

proof fn lemma_agree_double_eq(f: XacmlFunction, env: Map<u64, ClearV>, ea: EValue, eb: EValue, a: Value, b: Value)
    requires
        served_by(f, BinaryImpl::DoubleEq),
    ensures
        agrees(f, env, ea, eb, a, b),
{
}

proof fn lemma_agree_double_cmp(f: XacmlFunction, env: Map<u64, ClearV>, ea: EValue, eb: EValue, a: Value, b: Value)
    requires
        served_by(f, BinaryImpl::DoubleCmp),
    ensures
        agrees(f, env, ea, eb, a, b),
{
}

proof fn lemma_agree_double_arith(f: XacmlFunction, env: Map<u64, ClearV>, ea: EValue, eb: EValue, a: Value, b: Value)
    requires
        served_by(f, BinaryImpl::DoubleArith),
    ensures
        agrees(f, env, ea, eb, a, b),
{
}

proof fn lemma_agree_time_eq(f: XacmlFunction, env: Map<u64, ClearV>, ea: EValue, eb: EValue, a: Value, b: Value)
    requires
        served_by(f, BinaryImpl::TimeEq),
    ensures
        agrees(f, env, ea, eb, a, b),
{
}

proof fn lemma_agree_time_cmp(f: XacmlFunction, env: Map<u64, ClearV>, ea: EValue, eb: EValue, a: Value, b: Value)
    requires
        served_by(f, BinaryImpl::TimeCmp),
    ensures
        agrees(f, env, ea, eb, a, b),
{
}

proof fn lemma_agree_date_time_eq(f: XacmlFunction, env: Map<u64, ClearV>, ea: EValue, eb: EValue, a: Value, b: Value)
    requires
        served_by(f, BinaryImpl::DateTimeEq),
    ensures
        agrees(f, env, ea, eb, a, b),
{
}

proof fn lemma_agree_date_time_cmp(f: XacmlFunction, env: Map<u64, ClearV>, ea: EValue, eb: EValue, a: Value, b: Value)
    requires
        served_by(f, BinaryImpl::DateTimeCmp),
    ensures
        agrees(f, env, ea, eb, a, b),
{
}

proof fn lemma_agree_date_time_add_sub_duration(f: XacmlFunction, env: Map<u64, ClearV>, ea: EValue, eb: EValue, a: Value, b: Value)
    requires
        served_by(f, BinaryImpl::DateTimeAddSubDuration),
    ensures
        agrees(f, env, ea, eb, a, b),
{
}

proof fn lemma_agree_day_time_duration_eq(f: XacmlFunction, env: Map<u64, ClearV>, ea: EValue, eb: EValue, a: Value, b: Value)
    requires
        served_by(f, BinaryImpl::DayTimeDurationEq),
    ensures
        agrees(f, env, ea, eb, a, b),
{
}

proof fn lemma_agree_year_month_duration_eq(f: XacmlFunction, env: Map<u64, ClearV>, ea: EValue, eb: EValue, a: Value, b: Value)
    requires
        served_by(f, BinaryImpl::YearMonthDurationEq),
    ensures
        agrees(f, env, ea, eb, a, b),
{
}

proof fn lemma_agree_any_uri_eq(f: XacmlFunction, env: Map<u64, ClearV>, ea: EValue, eb: EValue, a: Value, b: Value)
    requires
        served_by(f, BinaryImpl::AnyUriEq),
    ensures
        agrees(f, env, ea, eb, a, b),
{
}

proof fn lemma_agree_string_eq(f: XacmlFunction, env: Map<u64, ClearV>, ea: EValue, eb: EValue, a: Value, b: Value)
    requires
        served_by(f, BinaryImpl::StringEq),
    ensures
        agrees(f, env, ea, eb, a, b),
{
}

proof fn lemma_agree_string_eq_ignore_case(f: XacmlFunction, env: Map<u64, ClearV>, ea: EValue, eb: EValue, a: Value, b: Value)
    requires
        served_by(f, BinaryImpl::StringEqIgnoreCase),
    ensures
        agrees(f, env, ea, eb, a, b),
{
}

proof fn lemma_agree_string_concat(f: XacmlFunction, env: Map<u64, ClearV>, ea: EValue, eb: EValue, a: Value, b: Value)
    requires
        served_by(f, BinaryImpl::StringConcat),
    ensures
        agrees(f, env, ea, eb, a, b),
{
}

proof fn lemma_agree_string_contains(f: XacmlFunction, env: Map<u64, ClearV>, ea: EValue, eb: EValue, a: Value, b: Value)
    requires
        served_by(f, BinaryImpl::StringContains),
    ensures
        agrees(f, env, ea, eb, a, b),
{
}

proof fn lemma_agree_string_starts_with(f: XacmlFunction, env: Map<u64, ClearV>, ea: EValue, eb: EValue, a: Value, b: Value)
    requires
        served_by(f, BinaryImpl::StringStartsWith),
    ensures
        agrees(f, env, ea, eb, a, b),
{
}

proof fn lemma_agree_string_ends_with(f: XacmlFunction, env: Map<u64, ClearV>, ea: EValue, eb: EValue, a: Value, b: Value)
    requires
        served_by(f, BinaryImpl::StringEndsWith),
    ensures
        agrees(f, env, ea, eb, a, b),
{
}

proof fn lemma_agree_any_uri_contains(f: XacmlFunction, env: Map<u64, ClearV>, ea: EValue, eb: EValue, a: Value, b: Value)
    requires
        served_by(f, BinaryImpl::AnyUriContains),
    ensures
        agrees(f, env, ea, eb, a, b),
{
}

proof fn lemma_agree_any_uri_starts_with(f: XacmlFunction, env: Map<u64, ClearV>, ea: EValue, eb: EValue, a: Value, b: Value)
    requires
        served_by(f, BinaryImpl::AnyUriStartsWith),
    ensures
        agrees(f, env, ea, eb, a, b),
{
}

proof fn lemma_agree_any_uri_ends_with(f: XacmlFunction, env: Map<u64, ClearV>, ea: EValue, eb: EValue, a: Value, b: Value)
    requires
        served_by(f, BinaryImpl::AnyUriEndsWith),
    ensures
        agrees(f, env, ea, eb, a, b),
{
}

proof fn lemma_agree_vec_eq(f: XacmlFunction, env: Map<u64, ClearV>, ea: EValue, eb: EValue, a: Value, b: Value)
    requires
        served_by(f, BinaryImpl::VecEq),
    ensures
        agrees(f, env, ea, eb, a, b),
{
}

proof fn lemma_lookup_decrypts(
    em: Seq<(Seq<char>, Circ)>,
    m: Seq<(Seq<char>, Seq<char>)>,
    env: Map<u64, ClearV>,
    k: Seq<char>,
    i: int,
    w: int,
)
    requires
        em.len() == m.len(),
        forall|j: int| 0 <= j < em.len() ==> (#[trigger] em[j]).0 == m[j].0 && decrypt(em[j].1, env) == ClearV::Str(m[j].1),
        0 <= i <= w < m.len(),
        m[w].0 == k,
    ensures
        elookup_from(em, k, i) is Some,
        decrypt(elookup_from(em, k, i)->0, env) == ClearV::Str(value_at_from(m, k, i)),
    decreases w - i,
{
    if m[i].0 != k {
        lemma_lookup_decrypts(em, m, env, k, i + 1, w);
    }
}

proof fn lemma_x500_chain(
    ex: Seq<(Seq<char>, Circ)>,
    ey: Seq<(Seq<char>, Circ)>,
    x: Seq<(Seq<char>, Seq<char>)>,
    y: Seq<(Seq<char>, Seq<char>)>,
    env: Map<u64, ClearV>,
    n: nat,
)
    requires
        ex.len() == x.len(),
        ey.len() == y.len(),
        forall|j: int| 0 <= j < ex.len() ==> (#[trigger] ex[j]).0 == x[j].0 && decrypt(ex[j].1, env) == ClearV::Str(x[j].1),
        forall|j: int| 0 <= j < ey.len() ==> (#[trigger] ey[j]).0 == y[j].0 && decrypt(ey[j].1, env) == ClearV::Str(y[j].1),
        forall|j: int| 0 <= j < x.len() ==> has_key(y, (#[trigger] x[j]).0),
        1 <= n <= x.len(),
    ensures
        decrypt(x500_chain(ex, ey, n), env) == ClearV::Bool(
            forall|j: int| 0 <= j < n ==> value_at(y, (#[trigger] x[j]).0) == x[j].1,
        ),
    decreases n,
{
    assert forall|j: int| 0 <= j < n implies decrypt(x500_entry_eq(ex, ey, j), env) == ClearV::Bool(
        value_at(y, (#[trigger] x[j]).0) == x[j].1,
    ) by {
        assert(has_key(y, x[j].0));
        let w = choose|w: int| 0 <= w < y.len() && (#[trigger] y[w]).0 == x[j].0;
        lemma_lookup_decrypts(ey, y, env, x[j].0, 0, w);
    }
    if n > 1 {
        lemma_x500_chain(ex, ey, x, y, env, (n - 1) as nat);
        let last = n - 1;
        assert(decrypt(x500_entry_eq(ex, ey, last), env) == ClearV::Bool(value_at(y, x[last].0) == x[last].1));
    } else {
        assert(decrypt(x500_entry_eq(ex, ey, 0), env) == ClearV::Bool(value_at(y, x[0].0) == x[0].1));
    }
}

proof fn lemma_agree_x500_name_eq(f: XacmlFunction, env: Map<u64, ClearV>, ea: EValue, eb: EValue, a: Value, b: Value)
    requires
        served_by(f, BinaryImpl::X500NameEq),
    ensures
        agrees(f, env, ea, eb, a, b),
{
    if encrypts(ea, env, a) && encrypts(eb, env, b) {
        match (ea, eb, a, b) {
            (EValue::X500Name(ex), EValue::X500Name(ey), Value::X500Name(x), Value::X500Name(y)) => {
                if sem_binary(f, a, b) is Some && sem_binary(f, a, b)->0 is Ok {
                    assert(x.len() == y.len() && x.len() > 0);
                    assert(forall|j: int| 0 <= j < x.len() ==> has_key(y, (#[trigger] x[j]).0));
                    assert forall|j: int| 0 <= j < ex.len() implies ehas_key(ey, (#[trigger] ex[j]).0) by {
                        assert(has_key(y, x[j].0));
                        let w = choose|w: int| 0 <= w < y.len() && (#[trigger] y[w]).0 == x[j].0;
                        assert(ey[w].0 == y[w].0);
                    }
                    lemma_x500_chain(ex, ey, x, y, env, x.len());
                }
            },
            _ => {},
        }
    }
}

/// A disjointness hypothesis of the e-mail equality: the encrypted test
/// compares domain parts exactly where the plain one ignores their case.
pub open spec fn rfc822_domains_comparable(a: Value, b: Value) -> bool {
    match (a, b) {
        (Value::Rfc822Name(_, x2), Value::Rfc822Name(_, y2)) => x2 == y2 || unicode_lowercase(x2) != unicode_lowercase(y2),
        _ => true,
    }
}

/// E-mail name equality agrees between the two evaluations on every pair of
/// names whose domain parts are equal or differ even when lower-cased (the
/// plain test ignores the case of the domain part, the encrypted one does not).
pub proof fn lemma_agree_rfc822_name_eq(f: XacmlFunction, env: Map<u64, ClearV>, ea: EValue, eb: EValue, a: Value, b: Value)
    requires
        served_by(f, BinaryImpl::Rfc822NameEq),
        rfc822_domains_comparable(a, b),
    ensures
        agrees(f, env, ea, eb, a, b),
{
    if encrypts(ea, env, a) && encrypts(eb, env, b) {
        match (ea, eb, a, b) {
            (EValue::Rfc822Name(xl, xd), EValue::Rfc822Name(yl, yd), Value::Rfc822Name(x1, x2), Value::Rfc822Name(y1, y2)) => {
                assert(decrypt(bin(HOp::Eq, xl, yl), env) == ClearV::Bool(x1 == y1));
                assert(decrypt(bin(HOp::Eq, xd, yd), env) == ClearV::Bool(x2 == y2));
                assert((x2 == y2) == (unicode_lowercase(x2) == unicode_lowercase(y2)));
            },
            _ => {},
        }
    }
}

/// Every truth value of `bs` from position `i` on holds.
pub open spec fn all_from(bs: Seq<bool>, i: int) -> bool {
    forall|j: int| i <= j < bs.len() ==> #[trigger] bs[j]
}

/// Some truth value of `bs` from position `i` on holds.
pub open spec fn any_from(bs: Seq<bool>, i: int) -> bool {
    exists|j: int| i <= j < bs.len() && #[trigger] bs[j]
}

/// `x` combined with the truth values of `bs` from position `i` on.
pub open spec fn comb(conj: bool, x: bool, bs: Seq<bool>, i: int) -> bool {
    if conj {
        x && all_from(bs, i)
    } else {
        x || any_from(bs, i)
    }
}

/// The state of a fold stands for the truth value `x`: a computation that
/// decrypts to it, or nothing yet and `x` neutral.
pub open spec fn acc_stands_for(conj: bool, acc: Option<Circ>, env: Map<u64, ClearV>, x: bool) -> bool {
    match acc {
        Some(c) => decrypt(c, env) == ClearV::Bool(x),
        None => x == conj,
    }
}

/// Each computation of `cs` decrypts to the truth value at its place in `bs`.
pub open spec fn decrypts_to_bools(cs: Seq<Circ>, env: Map<u64, ClearV>, bs: Seq<bool>) -> bool {
    cs.len() == bs.len() && forall|j: int| 0 <= j < cs.len() ==> decrypt(#[trigger] cs[j], env) == ClearV::Bool(bs[j])
}

proof fn lemma_acc_finish(conj: bool, acc: Option<Circ>, env: Map<u64, ClearV>, x: bool)
    requires
        acc_stands_for(conj, acc, env, x),
    ensures
        decrypt(ofinish(conj, acc), env) == ClearV::Bool(x),
{
}

proof fn lemma_acc_join(conj: bool, acc: Option<Circ>, env: Map<u64, ClearV>, x: bool, c: Circ, y: bool)
    requires
        acc_stands_for(conj, acc, env, x),
        decrypt(c, env) == ClearV::Bool(y),
    ensures
        acc_stands_for(conj, ojoin(conj, acc, c), env, if conj { x && y } else { x || y }),
{
}

/// A homomorphic fold decrypts to the fold of the truth values.
proof fn lemma_fold_from(
    conj: bool,
    acc: Option<Circ>,
    x: bool,
    cs: Seq<Circ>,
    bs: Seq<bool>,
    env: Map<u64, ClearV>,
    i: int,
)
    requires
        decrypts_to_bools(cs, env, bs),
        0 <= i <= cs.len(),
        acc_stands_for(conj, acc, env, x),
    ensures
        acc_stands_for(conj, fold_from(conj, acc, cs, i), env, comb(conj, x, bs, i)),
    decreases cs.len() - i,
{
    if i < cs.len() {
        lemma_acc_join(conj, acc, env, x, cs[i], bs[i]);
        let y = if conj { x && bs[i] } else { x || bs[i] };
        lemma_fold_from(conj, ojoin(conj, acc, cs[i]), y, cs, bs, env, i + 1);
        if conj {
            assert(all_from(bs, i) == (bs[i] && all_from(bs, i + 1)));
        } else {
            assert(any_from(bs, i) == (bs[i] || any_from(bs, i + 1)));
        }
    }
}

proof fn lemma_all_str(vs: Seq<Value>, i: int)
    requires
        0 <= i,
        first_non_str_from(vs, i) is None,
    ensures
        forall|j: int| i <= j < vs.len() ==> (#[trigger] vs[j]) is Str,
    decreases vs.len() - i,
{
    if i < vs.len() {
        lemma_all_str(vs, i + 1);
    }
}

/// Pointwise encryption of two sequences of values.
pub open spec fn encrypts_all(es: Seq<EValue>, env: Map<u64, ClearV>, vs: Seq<Value>) -> bool {
    es.len() == vs.len() && forall|i: int| 0 <= i < es.len() ==> #[trigger] encrypts(es[i], env, vs[i])
}

proof fn lemma_agree_string_is_in(f: XacmlFunction, env: Map<u64, ClearV>, ea: EValue, eb: EValue, a: Value, b: Value)
    requires
        served_by(f, BinaryImpl::StringIsIn),
    ensures
        agrees(f, env, ea, eb, a, b),
{
    if encrypts(ea, env, a) && encrypts(eb, env, b) {
        match (ea, eb, a, b) {
            (EValue::Str(sc), EValue::Bag(evs), Value::Str(s), Value::Bag(vs)) => {
                if first_non_str_from(vs, 0) is None {
                    lemma_all_str(vs, 0);
                    assert(evs.len() == vs.len());
                    lemma_all_estr(vs, evs, env);
                    let cs = eq_tests(sc, evs);
                    let bs = Seq::new(vs.len(), |i: int| str_of(vs[i]) == s);
                    assert forall|i: int| 0 <= i < cs.len() implies decrypt(#[trigger] cs[i], env) == ClearV::Bool(bs[i]) by {
                        assert(encrypts(evs[i], env, vs[i]));
                        assert(vs[i] is Str);
                    }
                    lemma_fold_from(false, None, false, cs, bs, env, 0);
                    assert(any_from(bs, 0) == (exists|i: int| 0 <= i < vs.len() && str_of(#[trigger] vs[i]) == s)) by {
                        if any_from(bs, 0) {
                            let w = choose|w: int| 0 <= w < bs.len() && #[trigger] bs[w];
                            assert(str_of(vs[w]) == s);
                        }
                        if exists|i: int| 0 <= i < vs.len() && str_of(#[trigger] vs[i]) == s {
                            let w = choose|w: int| 0 <= w < vs.len() && str_of(#[trigger] vs[w]) == s;
                            assert(bs[w]);
                        }
                    }
                }
            },
            _ => {},
        }
    }
}

/// Each computation of `cs` decrypts to the string at its place in `ss`.
pub open spec fn decrypts_to_strs(cs: Seq<Circ>, env: Map<u64, ClearV>, ss: Seq<Seq<char>>) -> bool {
    cs.len() == ss.len() && forall|j: int| 0 <= j < cs.len() ==> decrypt(#[trigger] cs[j], env) == ClearV::Str(ss[j])
}

proof fn lemma_pairs_fold(
    els: Seq<Circ>,
    ers: Seq<Circ>,
    ls: Seq<Seq<char>>,
    rs: Seq<Seq<char>>,
    env: Map<u64, ClearV>,
    i: int,
    acc: Option<Circ>,
    x: bool,
)
    requires
        decrypts_to_strs(els, env, ls),
        decrypts_to_strs(ers, env, rs),
        0 <= i <= els.len(),
        acc_stands_for(false, acc, env, x),
    ensures
        acc_stands_for(
            false,
            pairs_fold(els, ers, i, acc),
            env,
            x || exists|a: int, b: int| i <= a < ls.len() && 0 <= b < rs.len() && #[trigger] ls[a] == #[trigger] rs[b],
        ),
    decreases els.len() - i,
{
    if i < els.len() {
        let row = row_tests(els[i], ers);
        let bs = Seq::new(rs.len(), |b: int| ls[i] == rs[b]);
        lemma_fold_from(false, acc, x, row, bs, env, 0);
        let y = x || any_from(bs, 0);
        lemma_pairs_fold(els, ers, ls, rs, env, i + 1, fold_from(false, acc, row, 0), y);
        let here = exists|a: int, b: int| i <= a < ls.len() && 0 <= b < rs.len() && #[trigger] ls[a] == #[trigger] rs[b];
        let later = exists|a: int, b: int| i + 1 <= a < ls.len() && 0 <= b < rs.len() && #[trigger] ls[a] == #[trigger] rs[b];
        assert(here == (any_from(bs, 0) || later)) by {
            if here {
                let (a, b) = choose|a: int, b: int| i <= a < ls.len() && 0 <= b < rs.len() && #[trigger] ls[a] == #[trigger] rs[b];
                if a == i {
                    assert(bs[b]);
                }
            }
            if any_from(bs, 0) {
                let b = choose|b: int| 0 <= b < bs.len() && #[trigger] bs[b];
                assert(ls[i] == rs[b]);
            }
        }
    }
}

proof fn lemma_string_values_decrypt(f: XacmlFunction, env: Map<u64, ClearV>, ea: EValue, a: Value)
    requires
        encrypts(ea, env, a),
        string_values(f, a) is Ok,
        estring_values(f, ea) is Ok,
    ensures
        decrypts_to_strs(estring_values(f, ea)->Ok_0, env, string_values(f, a)->Ok_0),
{
    match (ea, a) {
        (EValue::Bag(evs), Value::Bag(vs)) => {
            lemma_all_str(vs, 0);
            let cs = estring_values(f, ea)->Ok_0;
            let ss = string_values(f, a)->Ok_0;
            assert forall|j: int| 0 <= j < cs.len() implies decrypt(#[trigger] cs[j], env) == ClearV::Str(ss[j]) by {
                assert(encrypts(evs[j], env, vs[j]));
                assert(vs[j] is Str);
            }
        },
        _ => {},
    }
}

proof fn lemma_estring_values_ok(f: XacmlFunction, env: Map<u64, ClearV>, ea: EValue, a: Value)
    requires
        encrypts(ea, env, a),
        string_values(f, a) is Ok,
    ensures
        estring_values(f, ea) is Ok,
{
    match (ea, a) {
        (EValue::Bag(evs), Value::Bag(vs)) => {
            lemma_all_str(vs, 0);
            lemma_all_estr(vs, evs, env);
        },
        _ => {},
    }
}

proof fn lemma_agree_string_at_least_one_member_of(
    f: XacmlFunction,
    env: Map<u64, ClearV>,
    ea: EValue,
    eb: EValue,
    a: Value,
    b: Value,
)
    requires
        served_by(f, BinaryImpl::StringAtLeastOneMemberOf),
    ensures
        agrees(f, env, ea, eb, a, b),
{
    if encrypts(ea, env, a) && encrypts(eb, env, b) {
        if string_values(f, a) is Ok && string_values(f, b) is Ok {
            lemma_estring_values_ok(f, env, ea, a);
            lemma_estring_values_ok(f, env, eb, b);
            lemma_string_values_decrypt(f, env, ea, a);
            lemma_string_values_decrypt(f, env, eb, b);
            let ls = string_values(f, a)->Ok_0;
            let rs = string_values(f, b)->Ok_0;
            lemma_pairs_fold(estring_values(f, ea)->Ok_0, estring_values(f, eb)->Ok_0, ls, rs, env, 0, None, false);
        }
    }
}

/// The inner predicate of a quantified function.
pub open spec fn inner_of(f: XacmlFunction) -> XacmlFunction {
    match f {
        XacmlFunction::AnyOf(Some(p)) => *p,
        XacmlFunction::AllOf(Some(p)) => *p,
        XacmlFunction::AnyOfAny(Some(p)) => *p,
        XacmlFunction::AllOfAny(Some(p)) => *p,
        XacmlFunction::AnyOfAll(Some(p)) => *p,
        XacmlFunction::AllOfAll(Some(p)) => *p,
        _ => f,
    }
}

pub open spec fn op_bool(conj: bool, x: bool, y: bool) -> bool {
    if conj {
        x && y
    } else {
        x || y
    }
}

proof fn lemma_pred(f: XacmlFunction, env: Map<u64, ClearV>, ea: EValue, eb: EValue, a: Value, b: Value)
    requires
        has_inner(f),
        agrees_everywhere(inner_of(f), env),
        encrypts(ea, env, a),
        encrypts(eb, env, b),
        sem_pred(f, a, b) matches Some(Ok(_)),
    ensures
        epred(f, ea, eb) is Ok,
        decrypt(epred(f, ea, eb)->Ok_0, env) == ClearV::Bool(sem_pred(f, a, b)->0->Ok_0),
{
    assert(agrees(inner_of(f), env, ea, eb, a, b));
}

proof fn lemma_row(
    f: XacmlFunction,
    env: Map<u64, ClearV>,
    efixed: EValue,
    fixed: Value,
    ees: Seq<EValue>,
    es: Seq<Value>,
    i: int,
    fixed_first: bool,
    conj: bool,
    acc: Option<Circ>,
    x: bool,
)
    requires
        has_inner(f),
        agrees_everywhere(inner_of(f), env),
        encrypts(efixed, env, fixed),
        encrypts_all(ees, env, es),
        0 <= i <= es.len(),
        acc_stands_for(conj, acc, env, x),
        sem_row(f, fixed, es, i, fixed_first, conj) matches Some(Ok(_)),
    ensures
        erow(f, efixed, ees, i, fixed_first, conj, acc) is Ok,
        acc_stands_for(
            conj,
            erow(f, efixed, ees, i, fixed_first, conj, acc)->Ok_0,
            env,
            op_bool(conj, x, sem_row(f, fixed, es, i, fixed_first, conj)->0->Ok_0),
        ),
    decreases es.len() - i,
{
    if i < es.len() {
        assert(encrypts(ees[i], env, es[i]));
        if fixed_first {
            lemma_pred(f, env, efixed, ees[i], fixed, es[i]);
        } else {
            lemma_pred(f, env, ees[i], efixed, es[i], fixed);
        }
        let c = if fixed_first { epred(f, efixed, ees[i])->Ok_0 } else { epred(f, ees[i], efixed)->Ok_0 };
        let z = if fixed_first { sem_pred(f, fixed, es[i])->0->Ok_0 } else { sem_pred(f, es[i], fixed)->0->Ok_0 };
        lemma_acc_join(conj, acc, env, x, c, z);
        lemma_row(f, env, efixed, fixed, ees, es, i + 1, fixed_first, conj, ojoin(conj, acc, c), op_bool(conj, x, z));
    }
}

proof fn lemma_grid_flat(
    f: XacmlFunction,
    env: Map<u64, ClearV>,
    e1: Seq<EValue>,
    b1: Seq<Value>,
    e2: Seq<EValue>,
    b2: Seq<Value>,
    i: int,
    conj: bool,
    acc: Option<Circ>,
    x: bool,
)
    requires
        has_inner(f),
        agrees_everywhere(inner_of(f), env),
        encrypts_all(e1, env, b1),
        encrypts_all(e2, env, b2),
        0 <= i <= b1.len(),
        acc_stands_for(conj, acc, env, x),
        sem_grid(f, b1, b2, i, true, conj, conj) matches Some(Ok(_)),
    ensures
        egrid_flat(f, e1, e2, i, conj, acc) is Ok,
        acc_stands_for(
            conj,
            egrid_flat(f, e1, e2, i, conj, acc)->Ok_0,
            env,
            op_bool(conj, x, sem_grid(f, b1, b2, i, true, conj, conj)->0->Ok_0),
        ),
    decreases b1.len() - i,
{
    if i < b1.len() {
        assert(encrypts(e1[i], env, b1[i]));
        lemma_row(f, env, e1[i], b1[i], e2, b2, 0, true, conj, acc, x);
        let a = erow(f, e1[i], e2, 0, true, conj, acc)->Ok_0;
        let r = sem_row(f, b1[i], b2, 0, true, conj)->0->Ok_0;
        lemma_grid_flat(f, env, e1, b1, e2, b2, i + 1, conj, a, op_bool(conj, x, r));
    }
}

proof fn lemma_grid_nested(
    f: XacmlFunction,
    env: Map<u64, ClearV>,
    eo: Seq<EValue>,
    o: Seq<Value>,
    ei: Seq<EValue>,
    inn: Seq<Value>,
    i: int,
    outer_first: bool,
    outer_conj: bool,
    inner_conj: bool,
    acc: Option<Circ>,
    x: bool,
)
    requires
        has_inner(f),
        agrees_everywhere(inner_of(f), env),
        encrypts_all(eo, env, o),
        encrypts_all(ei, env, inn),
        0 <= i <= o.len(),
        acc_stands_for(outer_conj, acc, env, x),
        sem_grid(f, o, inn, i, outer_first, outer_conj, inner_conj) matches Some(Ok(_)),
    ensures
        egrid_nested(f, eo, ei, i, outer_first, outer_conj, inner_conj, acc) is Ok,
        acc_stands_for(
            outer_conj,
            egrid_nested(f, eo, ei, i, outer_first, outer_conj, inner_conj, acc)->Ok_0,
            env,
            op_bool(outer_conj, x, sem_grid(f, o, inn, i, outer_first, outer_conj, inner_conj)->0->Ok_0),
        ),
    decreases o.len() - i,
{
    if i < o.len() {
        assert(encrypts(eo[i], env, o[i]));
        lemma_row(f, env, eo[i], o[i], ei, inn, 0, outer_first, inner_conj, None, inner_conj);
        let a = erow(f, eo[i], ei, 0, outer_first, inner_conj, None)->Ok_0;
        let r = sem_row(f, o[i], inn, 0, outer_first, inner_conj)->0->Ok_0;
        lemma_acc_finish(inner_conj, a, env, r);
        lemma_acc_join(outer_conj, acc, env, x, ofinish(inner_conj, a), r);
        lemma_grid_nested(
            f,
            env,
            eo,
            o,
            ei,
            inn,
            i + 1,
            outer_first,
            outer_conj,
            inner_conj,
            ojoin(outer_conj, acc, ofinish(inner_conj, a)),
            op_bool(outer_conj, x, r),
        );
    }
}

proof fn lemma_agree_any_of(f: XacmlFunction, env: Map<u64, ClearV>, ea: EValue, eb: EValue, a: Value, b: Value)
    requires
        served_by(f, BinaryImpl::AnyOf),
        has_inner(f) ==> agrees_everywhere(inner_of(f), env),
    ensures
        agrees(f, env, ea, eb, a, b),
{
    if encrypts(ea, env, a) && encrypts(eb, env, b) {
        match (eb, b) {
            (EValue::Bag(ebs), Value::Bag(bs)) => {
                if has_inner(f) && (sem_binary(f, a, b) matches Some(Ok(_))) {
                    lemma_row(f, env, ea, a, ebs, bs, 0, true, false, None, false);
                    lemma_acc_finish(false, erow(f, ea, ebs, 0, true, false, None)->Ok_0, env, sem_row(f, a, bs, 0, true, false)->0->Ok_0);
                }
            },
            _ => {},
        }
    }
}

proof fn lemma_agree_all_of(f: XacmlFunction, env: Map<u64, ClearV>, ea: EValue, eb: EValue, a: Value, b: Value)
    requires
        served_by(f, BinaryImpl::AllOf),
        has_inner(f) ==> agrees_everywhere(inner_of(f), env),
    ensures
        agrees(f, env, ea, eb, a, b),
{
    if encrypts(ea, env, a) && encrypts(eb, env, b) {
        match (eb, b) {
            (EValue::Bag(ebs), Value::Bag(bs)) => {
                if has_inner(f) && (sem_binary(f, a, b) matches Some(Ok(_))) {
                    lemma_row(f, env, ea, a, ebs, bs, 0, true, true, None, true);
                    lemma_acc_finish(true, erow(f, ea, ebs, 0, true, true, None)->Ok_0, env, sem_row(f, a, bs, 0, true, true)->0->Ok_0);
                }
            },
            _ => {},
        }
    }
}

proof fn lemma_agree_any_of_any(f: XacmlFunction, env: Map<u64, ClearV>, ea: EValue, eb: EValue, a: Value, b: Value)
    requires
        served_by(f, BinaryImpl::AnyOfAny),
        has_inner(f) ==> agrees_everywhere(inner_of(f), env),
    ensures
        agrees(f, env, ea, eb, a, b),
{
    if encrypts(ea, env, a) && encrypts(eb, env, b) {
        match (ea, eb, a, b) {
            (EValue::Bag(e1), EValue::Bag(e2), Value::Bag(b1), Value::Bag(b2)) => {
                if has_inner(f) && (sem_binary(f, a, b) matches Some(Ok(_))) {
                    lemma_grid_flat(f, env, e1, b1, e2, b2, 0, false, None, false);
                    lemma_acc_finish(false, egrid_flat(f, e1, e2, 0, false, None)->Ok_0, env, sem_grid(f, b1, b2, 0, true, false, false)->0->Ok_0);
                }
            },
            _ => {},
        }
    }
}

proof fn lemma_agree_all_of_all(f: XacmlFunction, env: Map<u64, ClearV>, ea: EValue, eb: EValue, a: Value, b: Value)
    requires
        served_by(f, BinaryImpl::AllOfAll),
        has_inner(f) ==> agrees_everywhere(inner_of(f), env),
    ensures
        agrees(f, env, ea, eb, a, b),
{
    if encrypts(ea, env, a) && encrypts(eb, env, b) {
        match (ea, eb, a, b) {
            (EValue::Bag(e1), EValue::Bag(e2), Value::Bag(b1), Value::Bag(b2)) => {
                if has_inner(f) && (sem_binary(f, a, b) matches Some(Ok(_))) {
                    lemma_grid_flat(f, env, e1, b1, e2, b2, 0, true, None, true);
                    lemma_acc_finish(true, egrid_flat(f, e1, e2, 0, true, None)->Ok_0, env, sem_grid(f, b1, b2, 0, true, true, true)->0->Ok_0);
                }
            },
            _ => {},
        }
    }
}

proof fn lemma_agree_all_of_any(f: XacmlFunction, env: Map<u64, ClearV>, ea: EValue, eb: EValue, a: Value, b: Value)
    requires
        served_by(f, BinaryImpl::AllOfAny),
        has_inner(f) ==> agrees_everywhere(inner_of(f), env),
    ensures
        agrees(f, env, ea, eb, a, b),
{
    if encrypts(ea, env, a) && encrypts(eb, env, b) {
        match (ea, eb, a, b) {
            (EValue::Bag(e1), EValue::Bag(e2), Value::Bag(b1), Value::Bag(b2)) => {
                if has_inner(f) && (sem_binary(f, a, b) matches Some(Ok(_))) {
                    lemma_grid_nested(f, env, e1, b1, e2, b2, 0, true, true, false, None, true);
                    lemma_acc_finish(true, egrid_nested(f, e1, e2, 0, true, true, false, None)->Ok_0, env, sem_grid(f, b1, b2, 0, true, true, false)->0->Ok_0);
                }
            },
            _ => {},
        }
    }
}

proof fn lemma_agree_any_of_all(f: XacmlFunction, env: Map<u64, ClearV>, ea: EValue, eb: EValue, a: Value, b: Value)
    requires
        served_by(f, BinaryImpl::AnyOfAll),
        has_inner(f) ==> agrees_everywhere(inner_of(f), env),
    ensures
        agrees(f, env, ea, eb, a, b),
{
    if encrypts(ea, env, a) && encrypts(eb, env, b) {
        match (ea, eb, a, b) {
            (EValue::Bag(e1), EValue::Bag(e2), Value::Bag(b1), Value::Bag(b2)) => {
                if has_inner(f) && (sem_binary(f, a, b) matches Some(Ok(_))) {
                    lemma_grid_nested(f, env, e2, b2, e1, b1, 0, false, true, false, None, true);
                    lemma_acc_finish(true, egrid_nested(f, e2, e1, 0, false, true, false, None)->Ok_0, env, sem_grid(f, b2, b1, 0, false, true, false)->0->Ok_0);
                }
            },
            _ => {},
        }
    }
}

/// Whether both evaluators serve `f` alike at every depth: neither e-mail
/// name equality (whose encrypted test compares domains exactly) nor
/// integer-mod (which the encrypted evaluator does not serve) occurs in `f`,
/// as the function itself or as an inner predicate.
pub open spec fn refinable(f: XacmlFunction) -> bool
    decreases f,
{
    match f {
        XacmlFunction::Rfc822NameEqual => false,
        XacmlFunction::IntegerMod => false,
        XacmlFunction::AnyOf(Some(p)) => refinable(*p),
        XacmlFunction::AllOf(Some(p)) => refinable(*p),
        XacmlFunction::AnyOfAny(Some(p)) => refinable(*p),
        XacmlFunction::AllOfAny(Some(p)) => refinable(*p),
        XacmlFunction::AnyOfAll(Some(p)) => refinable(*p),
        XacmlFunction::AllOfAll(Some(p)) => refinable(*p),
        _ => true,
    }
}

/// Homomorphic evaluation refines plain evaluation: for every two-argument
/// function `f` in which neither e-mail name equality nor integer-mod occurs,
/// and for encryptions `ea`, `eb` of any arguments `a`, `b`, whenever the
/// plain evaluation succeeds, the encrypted evaluation succeeds too and its
/// result is an encryption of the plain result.
pub proof fn lemma_encrypted_binary_agrees(f: XacmlFunction, env: Map<u64, ClearV>)
    requires
        refinable(f),
    ensures
        agrees_everywhere(f, env),
    decreases f,
{
    if has_inner(f) {
        assert(decreases_to!(f => inner_of(f)));
        lemma_encrypted_binary_agrees(inner_of(f), env);
    }
    assert forall|ea: EValue, eb: EValue, a: Value, b: Value| #[trigger] agrees(f, env, ea, eb, a, b) by {
        if plain_op(f) is Ok && plain_op(f)->Ok_0 is Binary && tfhe_op(f) == Ok::<TfheOp, crate::plain::DispatchError>(
            TfheOp::Binary(plain_op(f)->Ok_0->Binary_0),
        ) {
            let k = plain_op(f)->Ok_0->Binary_0;
            assert(served_by(f, k));
            match k {
                BinaryImpl::IntegerEq => lemma_agree_integer_eq(f, env, ea, eb, a, b),
                BinaryImpl::IntegerCmp => lemma_agree_integer_cmp(f, env, ea, eb, a, b),
                BinaryImpl::IntegerArith => lemma_agree_integer_arith(f, env, ea, eb, a, b),
                BinaryImpl::BoolBinop => lemma_agree_bool_binop(f, env, ea, eb, a, b),
                BinaryImpl::BoolEq => lemma_agree_bool_eq(f, env, ea, eb, a, b),
                BinaryImpl::DoubleEq => lemma_agree_double_eq(f, env, ea, eb, a, b),
                BinaryImpl::DoubleCmp => lemma_agree_double_cmp(f, env, ea, eb, a, b),
                BinaryImpl::DoubleArith => lemma_agree_double_arith(f, env, ea, eb, a, b),
                BinaryImpl::TimeEq => lemma_agree_time_eq(f, env, ea, eb, a, b),
                BinaryImpl::TimeCmp => lemma_agree_time_cmp(f, env, ea, eb, a, b),
                BinaryImpl::DateTimeEq => lemma_agree_date_time_eq(f, env, ea, eb, a, b),
                BinaryImpl::DateTimeCmp => lemma_agree_date_time_cmp(f, env, ea, eb, a, b),
                BinaryImpl::DateTimeAddSubDuration => lemma_agree_date_time_add_sub_duration(f, env, ea, eb, a, b),
                BinaryImpl::DayTimeDurationEq => lemma_agree_day_time_duration_eq(f, env, ea, eb, a, b),
                BinaryImpl::YearMonthDurationEq => lemma_agree_year_month_duration_eq(f, env, ea, eb, a, b),
                BinaryImpl::AnyUriEq => lemma_agree_any_uri_eq(f, env, ea, eb, a, b),
                BinaryImpl::StringEq => lemma_agree_string_eq(f, env, ea, eb, a, b),
                BinaryImpl::StringEqIgnoreCase => lemma_agree_string_eq_ignore_case(f, env, ea, eb, a, b),
                BinaryImpl::StringConcat => lemma_agree_string_concat(f, env, ea, eb, a, b),
                BinaryImpl::StringContains => lemma_agree_string_contains(f, env, ea, eb, a, b),
                BinaryImpl::StringStartsWith => lemma_agree_string_starts_with(f, env, ea, eb, a, b),
                BinaryImpl::StringEndsWith => lemma_agree_string_ends_with(f, env, ea, eb, a, b),
                BinaryImpl::AnyUriContains => lemma_agree_any_uri_contains(f, env, ea, eb, a, b),
                BinaryImpl::AnyUriStartsWith => lemma_agree_any_uri_starts_with(f, env, ea, eb, a, b),
                BinaryImpl::AnyUriEndsWith => lemma_agree_any_uri_ends_with(f, env, ea, eb, a, b),
                BinaryImpl::VecEq => lemma_agree_vec_eq(f, env, ea, eb, a, b),
                BinaryImpl::X500NameEq => lemma_agree_x500_name_eq(f, env, ea, eb, a, b),
                BinaryImpl::StringIsIn => lemma_agree_string_is_in(f, env, ea, eb, a, b),
                BinaryImpl::StringAtLeastOneMemberOf => lemma_agree_string_at_least_one_member_of(f, env, ea, eb, a, b),
                BinaryImpl::AnyOf => lemma_agree_any_of(f, env, ea, eb, a, b),
                BinaryImpl::AllOf => lemma_agree_all_of(f, env, ea, eb, a, b),
                BinaryImpl::AnyOfAny => lemma_agree_any_of_any(f, env, ea, eb, a, b),
                BinaryImpl::AllOfAll => lemma_agree_all_of_all(f, env, ea, eb, a, b),
                BinaryImpl::AllOfAny => lemma_agree_all_of_any(f, env, ea, eb, a, b),
                BinaryImpl::AnyOfAll => lemma_agree_any_of_all(f, env, ea, eb, a, b),
                BinaryImpl::Rfc822NameEq => {},
            }
        }
    }
}

/// Where the plain evaluation of the one-argument function `f` succeeds, the
/// encrypted one succeeds too, and its result is an encryption of the plain one.
pub open spec fn agrees_unary(f: XacmlFunction, env: Map<u64, ClearV>, ea: EValue, a: Value) -> bool {
    encrypts(ea, env, a) ==> match (sem_unary(f, a), esem_unary(f, ea)) {
        (Some(Ok(v)), r) => r is Ok && encrypts(r->Ok_0, env, v),
        _ => true,
    }
}

/// Where the plain evaluation of the three-argument function `f` succeeds,
/// the encrypted one succeeds too, and its result is an encryption of the
/// plain one.
pub open spec fn agrees_ternary(
    f: XacmlFunction,
    env: Map<u64, ClearV>,
    ea: EValue,
    eb: EValue,
    ec: EValue,
    a: Value,
    b: Value,
    c: Value,
) -> bool {
    encrypts(ea, env, a) && encrypts(eb, env, b) && encrypts(ec, env, c) ==> match (
        sem_ternary(f, a, b, c),
        esem_ternary(f, ea, eb, ec),
    ) {
        (Some(Ok(v)), r) => r is Ok && encrypts(r->Ok_0, env, v),
        _ => true,
    }
}

proof fn lemma_all_estr(vs: Seq<Value>, evs: Seq<EValue>, env: Map<u64, ClearV>)
    requires
        encrypts_all(evs, env, vs),
        first_non_str_from(vs, 0) is None,
    ensures
        first_non_estr_from(evs, 0) is None,
{
    lemma_all_str(vs, 0);
    assert forall|j: int| 0 <= j < evs.len() implies (#[trigger] evs[j]) is Str by {
        assert(encrypts(evs[j], env, vs[j]));
        assert(vs[j] is Str);
    }
    lemma_no_non_estr(evs, 0);
}

proof fn lemma_no_non_estr(evs: Seq<EValue>, i: int)
    requires
        0 <= i,
        forall|j: int| i <= j < evs.len() ==> (#[trigger] evs[j]) is Str,
    ensures
        first_non_estr_from(evs, i) is None,
    decreases evs.len() - i,
{
    if i < evs.len() {
        lemma_no_non_estr(evs, i + 1);
    }
}

/// Homomorphic evaluation agrees with plain evaluation on every
/// one-argument function.
pub proof fn lemma_encrypted_unary_agrees(f: XacmlFunction, env: Map<u64, ClearV>, ea: EValue, a: Value)
    ensures
        agrees_unary(f, env, ea, a),
{
    if encrypts(ea, env, a) {
        match (ea, a) {
            (EValue::Bag(evs), Value::Bag(vs)) => {
                assert(encrypts_all(evs, env, vs));
                if vs.len() == 1 {
                    assert(encrypts(evs[0], env, vs[0]));
                }
                if first_non_str_from(vs, 0) is None {
                    lemma_all_estr(vs, evs, env);
                }
            },
            _ => {},
        }
    }
}

/// Homomorphic evaluation agrees with plain evaluation on every
/// three-argument function.
pub proof fn lemma_encrypted_ternary_agrees(
    f: XacmlFunction,
    env: Map<u64, ClearV>,
    ea: EValue,
    eb: EValue,
    ec: EValue,
    a: Value,
    b: Value,
    c: Value,
)
    ensures
        agrees_ternary(f, env, ea, eb, ec, a, b, c),
{
    if encrypts(ea, env, a) && encrypts(eb, env, b) && encrypts(ec, env, c) {
        if plain_op(f) is Ok && plain_op(f)->Ok_0 is Ternary {
            assert(tfhe_op(f) == Ok::<TfheOp, crate::plain::DispatchError>(TfheOp::Ternary(plain_op(f)->Ok_0->Ternary_0)));
        }
        match (ea, eb, ec, a, b, c) {
            (EValue::Boolean(x), EValue::Boolean(y), EValue::Boolean(z), Value::Boolean(xb), Value::Boolean(yb), Value::Boolean(zb)) => {
                assert(decrypt(Circ::Select(Box::new(x), Box::new(y), Box::new(z)), env) == ClearV::Bool(if xb { yb } else { zb }));
            },
            (EValue::Time(x), EValue::Time(y), EValue::Time(z), Value::Time(xb), Value::Time(yb), Value::Time(zb)) => {
                assert(decrypt(bin(HOp::Ge, x, y), env) == ClearV::Bool(xb >= yb));
                assert(decrypt(bin(HOp::Le, x, z), env) == ClearV::Bool(xb <= zb));
                assert(decrypt(bin(HOp::And, bin(HOp::Ge, x, y), bin(HOp::Le, x, z)), env) == ClearV::Bool(yb <= xb && xb <= zb));
            },
            _ => {},
        }
    }
}

/// Pointwise encryption of possibly missing arguments.
pub open spec fn encrypts_args(eargs: Seq<Option<EValue>>, env: Map<u64, ClearV>, args: Seq<Option<Value>>) -> bool {
    eargs.len() == args.len() && forall|i: int| 0 <= i < eargs.len() ==> match (#[trigger] eargs[i], args[i]) {
        (Some(e), Some(v)) => encrypts(e, env, v),
        (None, None) => true,
        _ => false,
    }
}

proof fn lemma_bag_args(f: XacmlFunction, env: Map<u64, ClearV>, eargs: Seq<Option<EValue>>, args: Seq<Option<Value>>, i: int)
    requires
        encrypts_args(eargs, env, args),
        0 <= i <= args.len(),
        bag_args_from(f, args, i) is Ok,
    ensures
        ebag_args_from(f, eargs, i) is Ok,
        encrypts_all(ebag_args_from(f, eargs, i)->Ok_0, env, bag_args_from(f, args, i)->Ok_0),
    decreases args.len() - i,
{
    if i < args.len() {
        assert(match (eargs[i], args[i]) {
            (Some(e), Some(v)) => encrypts(e, env, v),
            (None, None) => true,
            _ => false,
        });
        lemma_bag_args(f, env, eargs, args, i + 1);
        let rest = bag_args_from(f, args, i + 1)->Ok_0;
        let erest = ebag_args_from(f, eargs, i + 1)->Ok_0;
        let v = args[i]->0;
        let e = eargs[i]->0;
        assert((seq![e] + erest)[0] == e);
        assert(forall|j: int| 0 <= j < erest.len() ==> (seq![e] + erest)[j + 1] == erest[j]);
        assert(forall|j: int| 0 <= j < rest.len() ==> (seq![v] + rest)[j + 1] == rest[j]);
        assert forall|j: int| 0 <= j < (seq![e] + erest).len() implies #[trigger] encrypts(
            (seq![e] + erest)[j],
            env,
            (seq![v] + rest)[j],
        ) by {
            if j > 0 {
                assert(encrypts(erest[j - 1], env, rest[j - 1]));
            }
        }
    }
}

/// Where string-bag succeeds over plain arguments, it succeeds over their
/// encryptions too and yields an encryption of the plain bag.
pub proof fn lemma_encrypted_string_bag_agrees(
    f: XacmlFunction,
    env: Map<u64, ClearV>,
    eargs: Seq<Option<EValue>>,
    args: Seq<Option<Value>>,
)
    requires
        encrypts_args(eargs, env, args),
        sem_string_bag(f, args) matches Some(Ok(_)),
    ensures
        esem_string_bag(f, eargs) is Ok,
        encrypts(esem_string_bag(f, eargs)->Ok_0, env, sem_string_bag(f, args)->0->Ok_0),
{
    lemma_bag_args(f, env, eargs, args, 0);
    let evs = ebag_args_from(f, eargs, 0)->Ok_0;
    let vs = bag_args_from(f, args, 0)->Ok_0;
    assert(forall|i: int| 0 <= i < evs.len() ==> encrypts(#[trigger] evs[i], env, vs[i]));
    assert(encrypts(EValue::Bag(evs), env, Value::Bag(vs)));
}

proof fn lemma_bool_args(f: XacmlFunction, env: Map<u64, ClearV>, eargs: Seq<Option<EValue>>, args: Seq<Option<Value>>, i: int)
    requires
        encrypts_args(eargs, env, args),
        0 <= i <= args.len(),
        bool_args_from(f, args, i) is Ok,
    ensures
        ebool_args_from(f, eargs, i) is Ok,
        decrypts_to_bools(ebool_args_from(f, eargs, i)->Ok_0, env, bool_args_from(f, args, i)->Ok_0),
    decreases args.len() - i,
{
    if i < args.len() {
        assert(match (eargs[i], args[i]) {
            (Some(e), Some(v)) => encrypts(e, env, v),
            (None, None) => true,
            _ => false,
        });
        lemma_bool_args(f, env, eargs, args, i + 1);
        let rest = bool_args_from(f, args, i + 1)->Ok_0;
        let erest = ebool_args_from(f, eargs, i + 1)->Ok_0;
        match (eargs[i], args[i]) {
            (Some(EValue::Boolean(c)), Some(Value::Boolean(x))) => {
                assert forall|j: int| 0 <= j < (seq![c] + erest).len() implies decrypt(
                    #[trigger] (seq![c] + erest)[j],
                    env,
                ) == ClearV::Bool((seq![x] + rest)[j]) by {
                    if j > 0 {
                        assert((seq![c] + erest)[j] == erest[j - 1]);
                        assert((seq![x] + rest)[j] == rest[j - 1]);
                    }
                }
            },
            _ => {},
        }
    }
}

/// One level of a balanced reduction of truth values.
pub open spec fn bool_level(conj: bool, bs: Seq<bool>) -> Seq<bool> {
    Seq::new(
        ((bs.len() + 1) / 2) as nat,
        |k: int| if 2 * k + 1 < bs.len() { op_bool(conj, bs[2 * k], bs[2 * k + 1]) } else { bs[bs.len() - 1] },
    )
}

proof fn lemma_balanced_decrypt(conj: bool, cs: Seq<Circ>, bs: Seq<bool>, env: Map<u64, ClearV>)
    requires
        decrypts_to_bools(cs, env, bs),
        cs.len() >= 1,
    ensures
        decrypt(balanced_circ(conn(conj), cs), env) == ClearV::Bool(comb(conj, conj, bs, 0)),
    decreases cs.len(),
{
    if cs.len() > 1 {
        let lc = pair_level(conn(conj), cs);
        let lb = bool_level(conj, bs);
        assert forall|k: int| 0 <= k < lc.len() implies decrypt(#[trigger] lc[k], env) == ClearV::Bool(lb[k]) by {
            if 2 * k + 1 < cs.len() {
                assert(decrypt(cs[2 * k], env) == ClearV::Bool(bs[2 * k]));
                assert(decrypt(cs[2 * k + 1], env) == ClearV::Bool(bs[2 * k + 1]));
            } else {
                assert(decrypt(cs[cs.len() - 1], env) == ClearV::Bool(bs[bs.len() - 1]));
            }
        }
        lemma_balanced_decrypt(conj, lc, lb, env);
        if conj {
            assert(all_from(lb, 0) == all_from(bs, 0)) by {
                if all_from(lb, 0) {
                    assert forall|i: int| 0 <= i < bs.len() implies #[trigger] bs[i] by {
                        let k = i / 2;
                        if 2 * k + 1 < bs.len() {
                            assert(lb[k]);
                        } else {
                            assert(lb[lb.len() - 1]);
                        }
                    }
                }
                if all_from(bs, 0) {
                    assert forall|k: int| 0 <= k < lb.len() implies #[trigger] lb[k] by {
                        if 2 * k + 1 < bs.len() {
                            assert(bs[2 * k] && bs[2 * k + 1]);
                        } else {
                            assert(bs[bs.len() - 1]);
                        }
                    }
                }
            }
        } else {
            assert(any_from(lb, 0) == any_from(bs, 0)) by {
                if any_from(lb, 0) {
                    let k = choose|k: int| 0 <= k < lb.len() && #[trigger] lb[k];
                    if 2 * k + 1 < bs.len() {
                        assert(bs[2 * k] || bs[2 * k + 1]);
                    } else {
                        assert(bs[bs.len() - 1]);
                    }
                }
                if any_from(bs, 0) {
                    let i = choose|i: int| 0 <= i < bs.len() && #[trigger] bs[i];
                    let k = i / 2;
                    if 2 * k + 1 < bs.len() {
                        assert(lb[k]);
                    } else {
                        assert(lb[lb.len() - 1]);
                    }
                }
            }
        }
    } else {
        assert(decrypt(cs[0], env) == ClearV::Bool(bs[0]));
        if conj {
            assert(all_from(bs, 0) == bs[0]);
        } else {
            assert(any_from(bs, 0) == bs[0]);
        }
    }
}

/// Where and / or succeed over plain arguments, they succeed over their
/// encryptions too and yield an encryption of the plain result.
pub proof fn lemma_encrypted_bool_vec_agrees(
    f: XacmlFunction,
    env: Map<u64, ClearV>,
    eargs: Seq<Option<EValue>>,
    args: Seq<Option<Value>>,
)
    requires
        encrypts_args(eargs, env, args),
        sem_bool_vec(f, args) matches Some(Ok(_)),
    ensures
        esem_bool_vec(f, eargs) is Ok,
        encrypts(esem_bool_vec(f, eargs)->Ok_0, env, sem_bool_vec(f, args)->0->Ok_0),
{
    lemma_bool_args(f, env, eargs, args, 0);
    let cs = ebool_args_from(f, eargs, 0)->Ok_0;
    let bs = bool_args_from(f, args, 0)->Ok_0;
    if cs.len() > 0 {
        match f {
            XacmlFunction::And => {
                lemma_balanced_decrypt(true, cs, bs, env);
                assert(all_from(bs, 0) == (forall|i: int| 0 <= i < bs.len() ==> #[trigger] bs[i]));
            },
            XacmlFunction::Or => {
                lemma_balanced_decrypt(false, cs, bs, env);
                assert(any_from(bs, 0) == (exists|i: int| 0 <= i < bs.len() && #[trigger] bs[i]));
            },
            _ => {},
        }
    }
}

/// Two errors that are the same but for the type label that a type
/// mismatch reports of the value it got (plain and encrypted values are
/// labelled differently).
pub open spec fn same_error_but_label(a: DispatchError, b: DispatchError) -> bool {
    match (a, b) {
        (
            DispatchError::TypeMismatch { func: f1, expected: e1, got: _ },
            DispatchError::TypeMismatch { func: f2, expected: e2, got: _ },
        ) => f1 == f2 && e1 == e2,
        _ => a == b,
    }
}

proof fn lemma_bool_args_same_errors(
    f: XacmlFunction,
    env: Map<u64, ClearV>,
    eargs: Seq<Option<EValue>>,
    args: Seq<Option<Value>>,
    i: int,
)
    requires
        encrypts_args(eargs, env, args),
        0 <= i <= args.len(),
    ensures
        match (bool_args_from(f, args, i), ebool_args_from(f, eargs, i)) {
            (Ok(_), Ok(_)) => true,
            (Err(a), Err(b)) => same_error_but_label(a, b),
            _ => false,
        },
    decreases args.len() - i,
{
    if i < args.len() {
        assert(match (eargs[i], args[i]) {
            (Some(e), Some(v)) => encrypts(e, env, v),
            (None, None) => true,
            _ => false,
        });
        lemma_bool_args_same_errors(f, env, eargs, args, i + 1);
    }
}

/// and / or over encrypted arguments and over the plain values they encrypt
/// succeed or fail together: where one succeeds the other does, and where
/// they fail they fail with the same error, but for the type label that a
/// type mismatch reports; where they succeed the encrypted result is an
/// encryption of the plain one.
pub proof fn lemma_encrypted_bool_vec_same_outcome(
    f: XacmlFunction,
    env: Map<u64, ClearV>,
    eargs: Seq<Option<EValue>>,
    args: Seq<Option<Value>>,
)
    requires
        encrypts_args(eargs, env, args),
    ensures
        esem_bool_vec(f, eargs) is Ok <==> sem_bool_vec(f, args) matches Some(Ok(_)),
        sem_bool_vec(f, args) matches Some(Ok(v)) ==> encrypts(esem_bool_vec(f, eargs)->Ok_0, env, v),
        sem_bool_vec(f, args) matches Some(Err(a)) ==> esem_bool_vec(f, eargs) matches Err(b) && same_error_but_label(
            a,
            b,
        ),
{
    if args.len() > 0 {
        lemma_bool_args_same_errors(f, env, eargs, args, 0);
        if bool_args_from(f, args, 0) is Ok {
            lemma_bool_args(f, env, eargs, args, 0);
        }
    }
    if sem_bool_vec(f, args) matches Some(Ok(_)) {
        lemma_encrypted_bool_vec_agrees(f, env, eargs, args);
    }
}

/// A trivial encryption of a value is an encryption of it.
pub proof fn lemma_trivial_encrypts(v: Value, env: Map<u64, ClearV>)
    ensures
        encrypts(trivial_value(v), env, v),
    decreases v,
{
    match v {
        Value::Bag(vs) => {
            let es = trivial_value(v)->Bag_0;
            assert forall|i: int| 0 <= i < es.len() implies encrypts(#[trigger] es[i], env, vs[i]) by {
                assert(decreases_to!(v => vs[i]));
                lemma_trivial_encrypts(vs[i], env);
            }
        },
        Value::X500Name(m) => {
            let em = trivial_value(v)->X500Name_0;
            assert forall|i: int| 0 <= i < em.len() implies (#[trigger] em[i]).0 == m[i].0 && decrypt(em[i].1, env)
                == ClearV::Str(m[i].1) by {}
        },
        _ => {},
    }
}

/// Homomorphic evaluation agrees with plain evaluation at the level of a
/// function call: for a function in which neither e-mail name equality nor
/// integer-mod occurs, called on encryptions of the plain arguments (fitting
/// its arity where the encrypted evaluator asks for it), whenever the plain
/// evaluation succeeds, the encrypted evaluation succeeds too and its result
/// is an encryption of the plain result.
pub proof fn lemma_encrypted_call_agrees(
    f: XacmlFunction,
    env: Map<u64, ClearV>,
    eargs: Seq<Option<EValue>>,
    args: Seq<Option<Value>>,
)
    requires
        refinable(f),
        encrypts_args(eargs, env, args),
        !(f is StringBag || f is And || f is Or) ==> eargs_fit(f, eargs),
        sem_call(f, args) matches Some(Ok(_)),
    ensures
        esem_call(f, eargs) is Ok,
        encrypts(esem_call(f, eargs)->Ok_0, env, sem_call(f, args)->0->Ok_0),
{
    if f is StringBag {
        lemma_encrypted_string_bag_agrees(f, env, eargs, args);
    } else if f is And || f is Or {
        lemma_encrypted_bool_vec_agrees(f, env, eargs, args);
    } else {
        match tfhe_op(f) {
            Ok(TfheOp::Unary(_)) => {
                assert(match (eargs[0], args[0]) {
                    (Some(e), Some(v)) => encrypts(e, env, v),
                    (None, None) => true,
                    _ => false,
                });
                lemma_encrypted_unary_agrees(f, env, eargs[0]->0, args[0]->0);
            },
            Ok(TfheOp::Binary(_)) => {
                assert(match (eargs[0], args[0]) {
                    (Some(e), Some(v)) => encrypts(e, env, v),
                    (None, None) => true,
                    _ => false,
                });
                assert(match (eargs[1], args[1]) {
                    (Some(e), Some(v)) => encrypts(e, env, v),
                    (None, None) => true,
                    _ => false,
                });
                lemma_encrypted_binary_agrees(f, env);
                assert(agrees(f, env, eargs[0]->0, eargs[1]->0, args[0]->0, args[1]->0));
            },
            Ok(TfheOp::Ternary(_)) => {
                assert(match (eargs[0], args[0]) {
                    (Some(e), Some(v)) => encrypts(e, env, v),
                    (None, None) => true,
                    _ => false,
                });
                assert(match (eargs[1], args[1]) {
                    (Some(e), Some(v)) => encrypts(e, env, v),
                    (None, None) => true,
                    _ => false,
                });
                assert(match (eargs[2], args[2]) {
                    (Some(e), Some(v)) => encrypts(e, env, v),
                    (None, None) => true,
                    _ => false,
                });
                lemma_encrypted_ternary_agrees(
                    f,
                    env,
                    eargs[0]->0,
                    eargs[1]->0,
                    eargs[2]->0,
                    args[0]->0,
                    args[1]->0,
                    args[2]->0,
                );
            },
            Err(_) => {},
        }
    }
}

} // verus!
