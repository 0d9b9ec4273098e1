//! Bag and variadic functions over encrypted attribute values.

use vstd::prelude::*;
use crate::cipher::{Cipher, Circ, Clear, EValue, EncryptedTypes, HOp, bin, ocirc};
use crate::constants::XacmlFunction;
use crate::enc::erv;
use crate::enc_spec::{balanced_circ, ebag_args_from, ebool, ebool_args_from, eq_tests, esem_bool_vec, esem_string_at_least_one_member_of, esem_string_bag, esem_string_bag_size, esem_string_is_in, esem_string_one_and_only, estr_of, estring_values, eunsupported, first_non_estr_from, fold_from, ofinish, ojoin, pair_level, pairs_fold, row_tests};
use crate::plain::DispatchError;
use crate::reduce::{balanced_reduction, is_level, pairwise_reduce};

verus! {

/// The models of owned, possibly missing encrypted arguments.
pub open spec fn owned_eargs(s: Seq<Option<EncryptedTypes>>) -> Seq<Option<EValue>> {
    s.map_values(|o: Option<EncryptedTypes>| match o {
        Some(v) => Some(v.value()),
        None => None,
    })
}

/// The models of borrowed, possibly missing encrypted arguments.
pub open spec fn borrowed_eargs(s: Seq<Option<&EncryptedTypes>>) -> Seq<Option<EValue>> {
    s.map_values(|o: Option<&EncryptedTypes>| match o {
        Some(v) => Some(v.value()),
        None => None,
    })
}

/// The models of a sequence of computations.
pub open spec fn circs(s: Seq<Cipher>) -> Seq<Circ> {
    s.map_values(|c: Cipher| c.circ())
}

proof fn lemma_evalues_index(v: Seq<EncryptedTypes>, i: int)
    requires
        0 <= i < v.len(),
    ensures
        EncryptedTypes::values_of(v).len() == v.len(),
        EncryptedTypes::values_of(v)[i] == v[i].value(),
{
}

/// string-one-and-only: the single string of a bag (or the string itself).
pub fn apply_string_one_and_only(func: XacmlFunction, bag: &EncryptedTypes) -> (r: Result<EncryptedTypes, DispatchError>)
    ensures
        erv(r) == esem_string_one_and_only(func, bag.value()),
{
    match bag {
        EncryptedTypes::String(value) => Ok(EncryptedTypes::String(value.duplicate())),
        EncryptedTypes::Bag(values) => {
            if values.len() != 1 {
                return Err(DispatchError::Indeterminate {
                    func,
                    reason: "string-one-and-only requires exactly one value in the bag",
                });
            }
            proof {
                lemma_evalues_index(values@, 0);
            }
            match &values[0] {
                EncryptedTypes::String(c) => Ok(EncryptedTypes::String(c.duplicate())),
                other => Err(DispatchError::TypeMismatch { func, expected: "String(FheAsciiString)", got: other.ty() }),
            }
        },
        other => Err(DispatchError::TypeMismatch { func, expected: "Bag", got: other.ty() }),
    }
}

/// The position of the first element of `values` that is not an encrypted string.
fn first_non_string(values: &Vec<EncryptedTypes>) -> (r: Option<usize>)
    ensures
        match r {
            None => first_non_estr_from(EncryptedTypes::values_of(values@), 0) is None,
            Some(i) => i < values.len() && first_non_estr_from(EncryptedTypes::values_of(values@), 0)
                == Some(values@[i as int].value()),
        },
{
    let ghost vs = EncryptedTypes::values_of(values@);
    let mut i: usize = 0;
    while i < values.len()
        invariant
            i <= values.len(),
            vs == EncryptedTypes::values_of(values@),
            first_non_estr_from(vs, 0) == first_non_estr_from(vs, i as int),
        decreases values.len() - i,
    {
        proof {
            lemma_evalues_index(values@, i as int);
        }
        match &values[i] {
            EncryptedTypes::String(_) => {},
            _ => return Some(i),
        }
        i = i + 1;
    }
    None
}

/// string-bag-size: the number of strings in a bag, trivially encrypted.
pub fn apply_string_bag_size(func: XacmlFunction, bag: &EncryptedTypes) -> (r: Result<EncryptedTypes, DispatchError>)
    ensures
        erv(r) == esem_string_bag_size(func, bag.value()),
{
    match bag {
        EncryptedTypes::Bag(values) => {
            match first_non_string(values) {
                Some(i) => {
                    return Err(DispatchError::TypeMismatch { func, expected: "Bag(String)", got: values[i].ty() });
                },
                None => {},
            }
            let n: u64 = values.len() as u64;
            if n <= 9223372036854775807u64 {
                Ok(EncryptedTypes::Integer(Cipher::Trivial(Clear::Int(n as i128))))
            } else {
                Err(DispatchError::Indeterminate { func, reason: "bag size does not fit into i64" })
            }
        },
        other => Err(DispatchError::TypeMismatch { func, expected: "Bag", got: other.ty() }),
    }
}

/// Adds `r` to a fold, as `ojoin` describes.
pub(crate) fn join(conj: bool, acc: Option<Cipher>, r: Cipher) -> (out: Option<Cipher>)
    ensures
        ocirc(out) == ojoin(conj, ocirc(acc), r.circ()),
{
    match acc {
        None => Some(r),
        Some(p) => {
            let op = if conj { HOp::And } else { HOp::Or };
            Some(Cipher::Binary(op, Box::new(p), Box::new(r)))
        },
    }
}

/// The result of a fold, as `ofinish` describes.
pub(crate) fn finish(conj: bool, acc: Option<Cipher>) -> (out: Cipher)
    ensures
        out.circ() == ofinish(conj, ocirc(acc)),
{
    match acc {
        None => Cipher::trivial_bool(conj),
        Some(c) => c,
    }
}

/// string-is-in: the disjunction of the equality tests of a string against a bag of strings.
pub fn apply_string_is_in(func: XacmlFunction, value: &EncryptedTypes, bag: &EncryptedTypes) -> (r: Result<EncryptedTypes, DispatchError>)
    ensures
        erv(r) == esem_string_is_in(func, value.value(), bag.value()),
{
    let s = match value {
        EncryptedTypes::String(s) => s,
        other => {
            return Err(DispatchError::TypeMismatch { func, expected: "String(FheAsciiString)", got: other.ty() });
        },
    };
    match bag {
        EncryptedTypes::Bag(values) => {
            let ghost vs = EncryptedTypes::values_of(values@);
            let ghost tests = eq_tests(s.circ(), vs);
            let mut acc: Option<Cipher> = None;
            let mut i: usize = 0;
            while i < values.len()
                invariant
                    i <= values.len(),
                    vs == EncryptedTypes::values_of(values@),
                    vs.len() == values.len(),
                    tests == eq_tests(s.circ(), vs),
                    first_non_estr_from(vs, 0) == first_non_estr_from(vs, i as int),
                    fold_from(false, None, tests, 0) == fold_from(false, ocirc(acc), tests, i as int),
                    value.value() == EValue::Str(s.circ()),
                    bag.value() == EValue::Bag(vs),
                decreases values.len() - i,
            {
                proof {
                    lemma_evalues_index(values@, i as int);
                }
                let e = match &values[i] {
                    EncryptedTypes::String(e) => e,
                    other => {
                        assert(first_non_estr_from(vs, i as int) == Some(vs[i as int]));
                        return Err(DispatchError::TypeMismatch { func, expected: "Bag(String)", got: other.ty() });
                    },
                };
                let eq = Cipher::binary(HOp::Eq, s, e);
                assert(tests[i as int] == eq.circ());
                acc = join(false, acc, eq);
                i = i + 1;
            }
            Ok(EncryptedTypes::Boolean(finish(false, acc)))
        },
        other => Err(DispatchError::TypeMismatch { func, expected: "Bag", got: other.ty() }),
    }
}

/// string-bag over owned arguments: a bag of the given encrypted strings.
pub fn apply_string_bag_from_owned_args(func: XacmlFunction, args: Vec<Option<EncryptedTypes>>) -> (r: Result<EncryptedTypes, DispatchError>)
    ensures
        erv(r) == esem_string_bag(func, owned_eargs(args@)),
{
    let ghost sa = owned_eargs(args@);
    let mut values: Vec<EncryptedTypes> = Vec::new();
    let mut i: usize = 0;
    while i < args.len()
        invariant
            i <= args.len(),
            sa == owned_eargs(args@),
            sa.len() == args.len(),
            ebag_args_from(func, sa, 0) == match ebag_args_from(func, sa, i as int) {
                Ok(rest) => Ok(EncryptedTypes::values_of(values@) + rest),
                Err(e) => Err(e),
            },
        decreases args.len() - i,
    {
        match &args[i] {
            None => {
                return Err(DispatchError::Indeterminate { func, reason: "missing argument in string-bag" });
            },
            Some(EncryptedTypes::String(c)) => {
                let ghost before = values@;
                values.push(EncryptedTypes::String(c.duplicate()));
                proof {
                    let bv = EncryptedTypes::values_of(before);
                    let av = EncryptedTypes::values_of(values@);
                    assert(av =~= bv.push(EValue::Str(c.circ())));
                    match ebag_args_from(func, sa, i + 1) {
                        Ok(rest) => {
                            assert(bv + (seq![EValue::Str(c.circ())] + rest) =~= av + rest);
                        },
                        Err(_) => {},
                    }
                }
            },
            Some(other) => {
                return Err(DispatchError::TypeMismatch { func, expected: "String(FheAsciiString)", got: other.ty() });
            },
        }
        i = i + 1;
    }
    proof {
        assert(EncryptedTypes::values_of(values@) + Seq::<EValue>::empty() =~= EncryptedTypes::values_of(values@));
    }
    Ok(EncryptedTypes::Bag(values))
}

/// string-bag over borrowed arguments: a bag of the given encrypted strings.
pub fn apply_string_bag_from_borrowed_args(func: XacmlFunction, args: Vec<Option<&EncryptedTypes>>) -> (r: Result<EncryptedTypes, DispatchError>)
    ensures
        erv(r) == esem_string_bag(func, borrowed_eargs(args@)),
{
    let ghost sa = borrowed_eargs(args@);
    let mut values: Vec<EncryptedTypes> = Vec::new();
    let mut i: usize = 0;
    while i < args.len()
        invariant
            i <= args.len(),
            sa == borrowed_eargs(args@),
            sa.len() == args.len(),
            ebag_args_from(func, sa, 0) == match ebag_args_from(func, sa, i as int) {
                Ok(rest) => Ok(EncryptedTypes::values_of(values@) + rest),
                Err(e) => Err(e),
            },
        decreases args.len() - i,
    {
        match args[i] {
            None => {
                return Err(DispatchError::Indeterminate { func, reason: "missing argument in string-bag" });
            },
            Some(EncryptedTypes::String(c)) => {
                let ghost before = values@;
                values.push(EncryptedTypes::String(c.duplicate()));
                proof {
                    let bv = EncryptedTypes::values_of(before);
                    let av = EncryptedTypes::values_of(values@);
                    assert(av =~= bv.push(EValue::Str(c.circ())));
                    match ebag_args_from(func, sa, i + 1) {
                        Ok(rest) => {
                            assert(bv + (seq![EValue::Str(c.circ())] + rest) =~= av + rest);
                        },
                        Err(_) => {},
                    }
                }
            },
            Some(other) => {
                return Err(DispatchError::TypeMismatch { func, expected: "String(FheAsciiString)", got: other.ty() });
            },
        }
        i = i + 1;
    }
    proof {
        assert(EncryptedTypes::values_of(values@) + Seq::<EValue>::empty() =~= EncryptedTypes::values_of(values@));
    }
    Ok(EncryptedTypes::Bag(values))
}

/// The encrypted strings held by a string or by a bag of strings.
fn expect_encrypted_string_values<'a>(func: XacmlFunction, value: &'a EncryptedTypes) -> (r: Result<Vec<&'a Cipher>, DispatchError>)
    ensures
        match r {
            Ok(v) => estring_values(func, value.value()) == Ok::<Seq<Circ>, DispatchError>(
                v@.map_values(|c: &Cipher| c.circ()),
            ),
            Err(e) => estring_values(func, value.value()) == Err::<Seq<Circ>, DispatchError>(e),
        },
{
    match value {
        EncryptedTypes::String(s) => {
            let mut out: Vec<&'a Cipher> = Vec::new();
            out.push(s);
            proof {
                assert(out@.map_values(|c: &Cipher| c.circ()) =~= seq![s.circ()]);
            }
            Ok(out)
        },
        EncryptedTypes::Bag(values) => {
            let ghost vs = EncryptedTypes::values_of(values@);
            let mut out: Vec<&'a Cipher> = Vec::new();
            let mut i: usize = 0;
            while i < values.len()
                invariant
                    i <= values.len(),
                    vs == EncryptedTypes::values_of(values@),
                    vs.len() == values.len(),
                    first_non_estr_from(vs, 0) == first_non_estr_from(vs, i as int),
                    out.len() == i,
                    forall|j: int| 0 <= j < i ==> (#[trigger] out@[j]).circ() == estr_of(vs[j]),
                    value.value() == EValue::Bag(vs),
                decreases values.len() - i,
            {
                proof {
                    lemma_evalues_index(values@, i as int);
                }
                match &values[i] {
                    EncryptedTypes::String(s) => {
                        out.push(s);
                    },
                    other => {
                        assert(first_non_estr_from(vs, i as int) == Some(vs[i as int]));
                        return Err(DispatchError::TypeMismatch {
                            func,
                            expected: "String(FheAsciiString) or Bag(String)",
                            got: other.ty(),
                        });
                    },
                }
                i = i + 1;
            }
            proof {
                assert(out@.map_values(|c: &Cipher| c.circ()) =~= vs.map_values(|w: EValue| estr_of(w)));
            }
            Ok(out)
        },
        other => Err(DispatchError::TypeMismatch { func, expected: "String(FheAsciiString) or Bag(String)", got: other.ty() }),
    }
}

/// string-at-least-one-member-of: the disjunction of the equality tests of
/// every pair drawn from the two string collections.
pub fn apply_string_at_least_one_member_of(func: XacmlFunction, left: &EncryptedTypes, right: &EncryptedTypes) -> (r: Result<EncryptedTypes, DispatchError>)
    ensures
        erv(r) == esem_string_at_least_one_member_of(func, left.value(), right.value()),
{
    let lv = match expect_encrypted_string_values(func.copy(), left) {
        Ok(v) => v,
        Err(e) => return Err(e),
    };
    let rv_ = match expect_encrypted_string_values(func.copy(), right) {
        Ok(v) => v,
        Err(e) => return Err(e),
    };
    let ghost ls = lv@.map_values(|c: &Cipher| c.circ());
    let ghost rs = rv_@.map_values(|c: &Cipher| c.circ());
    let mut acc: Option<Cipher> = None;
    let mut i: usize = 0;
    while i < lv.len()
        invariant
            i <= lv.len(),
            ls == lv@.map_values(|c: &Cipher| c.circ()),
            rs == rv_@.map_values(|c: &Cipher| c.circ()),
            pairs_fold(ls, rs, 0, None) == pairs_fold(ls, rs, i as int, ocirc(acc)),
        decreases lv.len() - i,
    {
        let ghost row = row_tests(ls[i as int], rs);
        let ghost start = ocirc(acc);
        let mut j: usize = 0;
        while j < rv_.len()
            invariant
                i < lv.len(),
                j <= rv_.len(),
                ls == lv@.map_values(|c: &Cipher| c.circ()),
                rs == rv_@.map_values(|c: &Cipher| c.circ()),
                row == row_tests(ls[i as int], rs),
                row.len() == rv_.len(),
                fold_from(false, start, row, 0) == fold_from(false, ocirc(acc), row, j as int),
            decreases rv_.len() - j,
        {
            let eq = Cipher::binary(HOp::Eq, lv[i], rv_[j]);
            assert(row[j as int] == eq.circ());
            acc = join(false, acc, eq);
            j = j + 1;
        }
        i = i + 1;
    }
    Ok(EncryptedTypes::Boolean(finish(false, acc)))
}

/// A balanced reduction by a connective builds the balanced computation.
proof fn lemma_balanced_circ<F: Fn(Cipher, Cipher) -> Cipher>(f: F, op: HOp, s: Seq<Cipher>, r: Cipher)
    requires
        forall|a: Cipher, b: Cipher, c: Cipher| call_ensures(f, (a, b), c) ==> c.circ() == bin(op, a.circ(), b.circ()),
        balanced_reduction(f, s, r),
    ensures
        r.circ() == balanced_circ(op, circs(s)),
    decreases s.len(),
{
    if s.len() > 1 {
        let t = choose|t: Seq<Cipher>| #[trigger] is_level(f, s, t) && t.len() < s.len() && balanced_reduction(f, t, r);
        lemma_balanced_circ(f, op, t, r);
        let cs = circs(s);
        let ct = circs(t);
        assert forall|k: int| 0 <= k < ct.len() implies #[trigger] ct[k] == pair_level(op, cs)[k] by {
            if 2 * k + 1 < s.len() {
                assert(k < s.len() / 2);
                assert(call_ensures(f, (s[2 * k], s[2 * k + 1]), t[k]));
            } else {
                assert(s.len() % 2 == 1);
                assert(k == t.len() - 1);
            }
        }
        assert(ct =~= pair_level(op, cs));
    }
}

/// The conjunction or disjunction of a non-empty list of encrypted truth
/// values, combined pairwise as a balanced tree.
fn combine_ciphers(func: XacmlFunction, values: Vec<Cipher>) -> (r: Result<EncryptedTypes, DispatchError>)
    requires
        values.len() > 0,
    ensures
        erv(r) == match func {
            XacmlFunction::And => ebool(balanced_circ(HOp::And, circs(values@))),
            XacmlFunction::Or => ebool(balanced_circ(HOp::Or, circs(values@))),
            _ => eunsupported(func),
        },
{
    let ghost cs = values@;
    let reduced = match func {
        XacmlFunction::And => {
            let conj = |a: Cipher, b: Cipher| -> (c: Cipher)
                ensures
                    c.circ() == bin(HOp::And, a.circ(), b.circ()),
                { Cipher::Binary(HOp::And, Box::new(a), Box::new(b)) };
            let out = pairwise_reduce(values, conj);
            proof {
                if out is Some {
                    lemma_balanced_circ(conj, HOp::And, cs, out->0);
                }
            }
            out
        },
        XacmlFunction::Or => {
            let disj = |a: Cipher, b: Cipher| -> (c: Cipher)
                ensures
                    c.circ() == bin(HOp::Or, a.circ(), b.circ()),
                { Cipher::Binary(HOp::Or, Box::new(a), Box::new(b)) };
            let out = pairwise_reduce(values, disj);
            proof {
                if out is Some {
                    lemma_balanced_circ(disj, HOp::Or, cs, out->0);
                }
            }
            out
        },
        _ => {
            return Err(DispatchError::UnsupportedFunction { func });
        },
    };
    match reduced {
        Some(x) => Ok(EncryptedTypes::Boolean(x)),
        None => Err(DispatchError::Indeterminate { func, reason: "failed to reduce boolean vector operation" }),
    }
}

/// and / or over borrowed encrypted arguments of any number; absent values are skipped.
pub fn apply_bool_vec_op_from_borrowed_args(func: XacmlFunction, args: Vec<Option<&EncryptedTypes>>) -> (r: Result<EncryptedTypes, DispatchError>)
    ensures
        erv(r) == esem_bool_vec(func, borrowed_eargs(args@)),
{
    if args.len() == 0 {
        return Err(DispatchError::ArityMismatch { func, expected: 1, got: 0 });
    }
    let ghost sa = borrowed_eargs(args@);
    let mut values: Vec<Cipher> = Vec::new();
    let mut i: usize = 0;
    while i < args.len()
        invariant
            i <= args.len(),
            sa == borrowed_eargs(args@),
            sa.len() == args.len(),
            ebool_args_from(func, sa, 0) == match ebool_args_from(func, sa, i as int) {
                Ok(rest) => Ok(circs(values@) + rest),
                Err(e) => Err(e),
            },
        decreases args.len() - i,
    {
        match args[i] {
            None => {
                return Err(DispatchError::Indeterminate { func, reason: "missing argument in boolean vector operation" });
            },
            Some(EncryptedTypes::Boolean(b)) => {
                let ghost before = values@;
                values.push(b.duplicate());
                proof {
                    assert(circs(values@) =~= circs(before).push(b.circ()));
                    match ebool_args_from(func, sa, i + 1) {
                        Ok(rest) => {
                            assert(circs(before) + (seq![b.circ()] + rest) =~= circs(values@) + rest);
                        },
                        Err(_) => {},
                    }
                }
            },
            Some(EncryptedTypes::Nothing) => {},
            Some(other) => {
                return Err(DispatchError::TypeMismatch { func, expected: "Bool", got: other.ty() });
            },
        }
        i = i + 1;
    }
    proof {
        assert(circs(values@) + Seq::<Circ>::empty() =~= circs(values@));
    }
    if values.len() == 0 {
        return Ok(EncryptedTypes::Nothing);
    }
    combine_ciphers(func, values)
}

/// and / or over owned encrypted arguments of any number; absent values are skipped.
pub fn apply_bool_vec_op_from_owned_args(func: XacmlFunction, args: Vec<Option<EncryptedTypes>>) -> (r: Result<EncryptedTypes, DispatchError>)
    ensures
        erv(r) == esem_bool_vec(func, owned_eargs(args@)),
{
    if args.len() == 0 {
        return Err(DispatchError::ArityMismatch { func, expected: 1, got: 0 });
    }
    let ghost sa = owned_eargs(args@);
    let mut values: Vec<Cipher> = Vec::new();
    let mut i: usize = 0;
    while i < args.len()
        invariant
            i <= args.len(),
            sa == owned_eargs(args@),
            sa.len() == args.len(),
            ebool_args_from(func, sa, 0) == match ebool_args_from(func, sa, i as int) {
                Ok(rest) => Ok(circs(values@) + rest),
                Err(e) => Err(e),
            },
        decreases args.len() - i,
    {
        match &args[i] {
            None => {
                return Err(DispatchError::Indeterminate { func, reason: "missing argument in boolean vector operation" });
            },
            Some(EncryptedTypes::Boolean(b)) => {
                let ghost before = values@;
                values.push(b.duplicate());
                proof {
                    assert(circs(values@) =~= circs(before).push(b.circ()));
                    match ebool_args_from(func, sa, i + 1) {
                        Ok(rest) => {
                            assert(circs(before) + (seq![b.circ()] + rest) =~= circs(values@) + rest);
                        },
                        Err(_) => {},
                    }
                }
            },
            Some(EncryptedTypes::Nothing) => {},
            Some(other) => {
                return Err(DispatchError::TypeMismatch { func, expected: "Bool", got: other.ty() });
            },
        }
        i = i + 1;
    }
    proof {
        assert(circs(values@) + Seq::<Circ>::empty() =~= circs(values@));
    }
    if values.len() == 0 {
        return Ok(EncryptedTypes::Nothing);
    }
    combine_ciphers(func, values)
}

} // verus!
