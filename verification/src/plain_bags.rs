//! Bag and variadic functions over plain attribute values.

use vstd::prelude::*;
use crate::constants::XacmlFunction;
use crate::intermediate::{IntermediateTypes, Value};
use crate::plain::{rv, DispatchError};
use crate::plain_spec::{share_member, bag_args_from, bool_args_from, first_non_str_from, sem_bool_vec, sem_string_at_least_one_member_of, sem_string_bag, sem_string_bag_size, sem_string_is_in, sem_string_one_and_only, str_of, string_values};
use crate::reduce::{all_true, any_true, lemma_conjunction_reduction, lemma_disjunction_reduction, pairwise_reduce};

verus! {

/// The models of owned, possibly missing arguments.
pub open spec fn owned_args(s: Seq<Option<IntermediateTypes>>) -> Seq<Option<Value>> {
    s.map_values(|o: Option<IntermediateTypes>| match o {
        Some(v) => Some(v.value()),
        None => None,
    })
}

/// The models of borrowed, possibly missing arguments.
pub open spec fn borrowed_args(s: Seq<Option<&IntermediateTypes>>) -> Seq<Option<Value>> {
    s.map_values(|o: Option<&IntermediateTypes>| match o {
        Some(v) => Some(v.value()),
        None => None,
    })
}

proof fn lemma_values_of_index(v: Seq<IntermediateTypes>, i: int)
    requires
        0 <= i < v.len(),
    ensures
        IntermediateTypes::values_of(v).len() == v.len(),
        IntermediateTypes::values_of(v)[i] == v[i].value(),
{
}

/// string-one-and-only: the single string of a bag.
pub fn apply_plain_string_one_and_only(func: XacmlFunction, bag: &IntermediateTypes) -> (r: Result<IntermediateTypes, DispatchError>)
    ensures
        Some(rv(r)) == sem_string_one_and_only(func, bag.value()),
{
    match bag {
        IntermediateTypes::Bag(values) => {
            if values.len() != 1 {
                return Err(DispatchError::Indeterminate {
                    func,
                    reason: "string-one-and-only requires exactly one value in the bag",
                });
            }
            proof {
                lemma_values_of_index(values@, 0);
            }
            match &values[0] {
                IntermediateTypes::String(s) => Ok(IntermediateTypes::String(s.clone())),
                other => Err(DispatchError::TypeMismatch { func, expected: "String", got: other.ty() }),
            }
        },
        other => Err(DispatchError::TypeMismatch { func, expected: "Bag", got: other.ty() }),
    }
}

/// The position of the first element of `values` that is not a string.
fn first_non_string(values: &Vec<IntermediateTypes>) -> (r: Option<usize>)
    ensures
        match r {
            None => first_non_str_from(IntermediateTypes::values_of(values@), 0) is None,
            Some(i) => i < values.len() && first_non_str_from(IntermediateTypes::values_of(values@), 0)
                == Some(values@[i as int].value()),
        },
{
    let ghost vs = IntermediateTypes::values_of(values@);
    let mut i: usize = 0;
    while i < values.len()
        invariant
            i <= values.len(),
            vs == IntermediateTypes::values_of(values@),
            first_non_str_from(vs, 0) == first_non_str_from(vs, i as int),
        decreases values.len() - i,
    {
        proof {
            lemma_values_of_index(values@, i as int);
        }
        match &values[i] {
            IntermediateTypes::String(_) => {},
            _ => return Some(i),
        }
        i = i + 1;
    }
    None
}

/// string-bag-size: the number of strings in a bag.
pub fn apply_plain_string_bag_size(func: XacmlFunction, bag: &IntermediateTypes) -> (r: Result<IntermediateTypes, DispatchError>)
    ensures
        Some(rv(r)) == sem_string_bag_size(func, bag.value()),
{
    match bag {
        IntermediateTypes::Bag(values) => {
            match first_non_string(values) {
                Some(i) => {
                    return Err(DispatchError::TypeMismatch { func, expected: "Bag(String)", got: values[i].ty() });
                },
                None => {},
            }
            let n: u64 = values.len() as u64;
            if n <= 9223372036854775807u64 {
                Ok(IntermediateTypes::Integer(n as i64))
            } else {
                Err(DispatchError::Indeterminate { func, reason: "bag size does not fit into NormalInteger" })
            }
        },
        other => Err(DispatchError::TypeMismatch { func, expected: "Bag", got: other.ty() }),
    }
}

/// string-is-in: whether a string occurs in a bag of strings.
pub fn apply_plain_string_is_in(func: XacmlFunction, value: &IntermediateTypes, bag: &IntermediateTypes) -> (r: Result<IntermediateTypes, DispatchError>)
    ensures
        Some(rv(r)) == sem_string_is_in(func, value.value(), bag.value()),
{
    let s = match value {
        IntermediateTypes::String(s) => s,
        other => {
            return Err(DispatchError::TypeMismatch { func, expected: "String", got: other.ty() });
        },
    };
    match bag {
        IntermediateTypes::Bag(values) => {
            let ghost vs = IntermediateTypes::values_of(values@);
            let mut acc = false;
            let mut i: usize = 0;
            while i < values.len()
                invariant
                    i <= values.len(),
                    vs == IntermediateTypes::values_of(values@),
                    first_non_str_from(vs, 0) == first_non_str_from(vs, i as int),
                    acc == exists|j: int| 0 <= j < i && str_of(#[trigger] vs[j]) == s@,
                    value.value() == Value::Str(s@),
                    bag.value() == Value::Bag(vs),
                decreases values.len() - i,
            {
                proof {
                    lemma_values_of_index(values@, i as int);
                }
                let e = match &values[i] {
                    IntermediateTypes::String(e) => e,
                    other => {
                        assert(first_non_str_from(vs, i as int) == Some(vs[i as int]));
                        return Err(DispatchError::TypeMismatch { func, expected: "Bag(String)", got: other.ty() });
                    },
                };
                let same = *s == *e;
                proof {
                    if acc {
                        let j = choose|j: int| 0 <= j < i && str_of(#[trigger] vs[j]) == s@;
                        assert(0 <= j < i + 1 && str_of(vs[j]) == s@);
                    }
                    if same {
                        assert(str_of(vs[i as int]) == s@);
                    }
                }
                acc = acc || same;
                i = i + 1;
            }
            Ok(IntermediateTypes::Boolean(acc))
        },
        other => Err(DispatchError::TypeMismatch { func, expected: "Bag", got: other.ty() }),
    }
}

/// string-bag over owned arguments: a bag of the given strings.
pub fn apply_plain_string_bag_from_owned_args(func: XacmlFunction, args: Vec<Option<IntermediateTypes>>) -> (r: Result<IntermediateTypes, DispatchError>)
    ensures
        Some(rv(r)) == sem_string_bag(func, owned_args(args@)),
{
    let ghost sa = owned_args(args@);
    let mut values: Vec<IntermediateTypes> = Vec::new();
    let mut i: usize = 0;
    while i < args.len()
        invariant
            i <= args.len(),
            sa == owned_args(args@),
            sa.len() == args.len(),
            bag_args_from(func, sa, 0) == match bag_args_from(func, sa, i as int) {
                Ok(rest) => Ok(IntermediateTypes::values_of(values@) + rest),
                Err(e) => Err(e),
            },
        decreases args.len() - i,
    {
        match &args[i] {
            None => {
                return Err(DispatchError::Indeterminate { func, reason: "missing argument in string-bag" });
            },
            Some(IntermediateTypes::String(s)) => {
                let ghost before = values@;
                values.push(IntermediateTypes::String(s.clone()));
                proof {
                    let bv = IntermediateTypes::values_of(before);
                    let av = IntermediateTypes::values_of(values@);
                    assert(av =~= bv.push(Value::Str(s@)));
                    match bag_args_from(func, sa, i + 1) {
                        Ok(rest) => {
                            assert(bv + (seq![Value::Str(s@)] + rest) =~= av + rest);
                        },
                        Err(_) => {},
                    }
                }
            },
            Some(other) => {
                return Err(DispatchError::TypeMismatch { func, expected: "String", got: other.ty() });
            },
        }
        i = i + 1;
    }
    proof {
        assert(IntermediateTypes::values_of(values@) + Seq::<Value>::empty() =~= IntermediateTypes::values_of(values@));
    }
    Ok(IntermediateTypes::Bag(values))
}

/// string-bag over borrowed arguments: a bag of the given strings.
pub fn apply_plain_string_bag_from_borrowed_args(func: XacmlFunction, args: Vec<Option<&IntermediateTypes>>) -> (r: Result<IntermediateTypes, DispatchError>)
    ensures
        Some(rv(r)) == sem_string_bag(func, borrowed_args(args@)),
{
    let ghost sa = borrowed_args(args@);
    let mut values: Vec<IntermediateTypes> = Vec::new();
    let mut i: usize = 0;
    while i < args.len()
        invariant
            i <= args.len(),
            sa == borrowed_args(args@),
            sa.len() == args.len(),
            bag_args_from(func, sa, 0) == match bag_args_from(func, sa, i as int) {
                Ok(rest) => Ok(IntermediateTypes::values_of(values@) + rest),
                Err(e) => Err(e),
            },
        decreases args.len() - i,
    {
        match args[i] {
            None => {
                return Err(DispatchError::Indeterminate { func, reason: "missing argument in string-bag" });
            },
            Some(IntermediateTypes::String(s)) => {
                let ghost before = values@;
                values.push(IntermediateTypes::String(s.clone()));
                proof {
                    let bv = IntermediateTypes::values_of(before);
                    let av = IntermediateTypes::values_of(values@);
                    assert(av =~= bv.push(Value::Str(s@)));
                    match bag_args_from(func, sa, i + 1) {
                        Ok(rest) => {
                            assert(bv + (seq![Value::Str(s@)] + rest) =~= av + rest);
                        },
                        Err(_) => {},
                    }
                }
            },
            Some(other) => {
                return Err(DispatchError::TypeMismatch { func, expected: "String", got: other.ty() });
            },
        }
        i = i + 1;
    }
    proof {
        assert(IntermediateTypes::values_of(values@) + Seq::<Value>::empty() =~= IntermediateTypes::values_of(values@));
    }
    Ok(IntermediateTypes::Bag(values))
}

/// The strings held by a string or by a bag of strings.
fn expect_plain_string_values<'a>(func: XacmlFunction, value: &'a IntermediateTypes) -> (r: Result<Vec<&'a String>, DispatchError>)
    ensures
        match r {
            Ok(v) => string_values(func, value.value()) == Ok::<Seq<Seq<char>>, DispatchError>(
                v@.map_values(|s: &String| s@),
            ),
            Err(e) => string_values(func, value.value()) == Err::<Seq<Seq<char>>, DispatchError>(e),
        },
{
    match value {
        IntermediateTypes::String(s) => {
            let mut out: Vec<&'a String> = Vec::new();
            out.push(s);
            proof {
                assert(out@.map_values(|s: &String| s@) =~= seq![s@]);
            }
            Ok(out)
        },
        IntermediateTypes::Bag(values) => {
            let ghost vs = IntermediateTypes::values_of(values@);
            let mut out: Vec<&'a String> = Vec::new();
            let mut i: usize = 0;
            while i < values.len()
                invariant
                    i <= values.len(),
                    vs == IntermediateTypes::values_of(values@),
                    vs.len() == values.len(),
                    first_non_str_from(vs, 0) == first_non_str_from(vs, i as int),
                    out.len() == i,
                    forall|j: int| 0 <= j < i ==> (#[trigger] out@[j])@ == str_of(vs[j]),
                    value.value() == Value::Bag(vs),
                decreases values.len() - i,
            {
                proof {
                    lemma_values_of_index(values@, i as int);
                }
                match &values[i] {
                    IntermediateTypes::String(s) => {
                        out.push(s);
                    },
                    other => {
                        assert(first_non_str_from(vs, i as int) == Some(vs[i as int]));
                        return Err(DispatchError::TypeMismatch { func, expected: "String or Bag(String)", got: other.ty() });
                    },
                }
                i = i + 1;
            }
            proof {
                assert(out@.map_values(|s: &String| s@) =~= vs.map_values(|w: Value| str_of(w)));
            }
            Ok(out)
        },
        other => Err(DispatchError::TypeMismatch { func, expected: "String or Bag(String)", got: other.ty() }),
    }
}

/// string-at-least-one-member-of: whether the two string collections share a string.
pub fn apply_plain_string_at_least_one_member_of(func: XacmlFunction, left: &IntermediateTypes, right: &IntermediateTypes) -> (r: Result<IntermediateTypes, DispatchError>)
    ensures
        Some(rv(r)) == sem_string_at_least_one_member_of(func, left.value(), right.value()),
{
    let lv = match expect_plain_string_values(func.copy(), left) {
        Ok(v) => v,
        Err(e) => return Err(e),
    };
    let rv_ = match expect_plain_string_values(func.copy(), right) {
        Ok(v) => v,
        Err(e) => return Err(e),
    };
    let ghost ls = lv@.map_values(|s: &String| s@);
    let ghost rs = rv_@.map_values(|s: &String| s@);
    let mut i: usize = 0;
    while i < lv.len()
        invariant
            i <= lv.len(),
            ls == lv@.map_values(|s: &String| s@),
            rs == rv_@.map_values(|s: &String| s@),
            string_values(func, left.value()) == Ok::<Seq<Seq<char>>, DispatchError>(ls),
            string_values(func, right.value()) == Ok::<Seq<Seq<char>>, DispatchError>(rs),
            forall|a: int, b: int| 0 <= a < i && 0 <= b < rs.len() ==> #[trigger] ls[a] != #[trigger] rs[b],
        decreases lv.len() - i,
    {
        let mut j: usize = 0;
        while j < rv_.len()
            invariant
                i < lv.len(),
                j <= rv_.len(),
                ls == lv@.map_values(|s: &String| s@),
                rs == rv_@.map_values(|s: &String| s@),
                string_values(func, left.value()) == Ok::<Seq<Seq<char>>, DispatchError>(ls),
                string_values(func, right.value()) == Ok::<Seq<Seq<char>>, DispatchError>(rs),
                forall|a: int, b: int| 0 <= a < i && 0 <= b < rs.len() ==> #[trigger] ls[a] != #[trigger] rs[b],
                forall|b: int| 0 <= b < j ==> ls[i as int] != #[trigger] rs[b],
            decreases rv_.len() - j,
        {
            if *lv[i] == *rv_[j] {
                proof {
                    assert(ls[i as int] == rs[j as int]);
                    assert(share_member(ls, rs));
                }
                return Ok(IntermediateTypes::Boolean(true));
            }
            j = j + 1;
        }
        i = i + 1;
    }
    Ok(IntermediateTypes::Boolean(false))
}

/// The conjunction or disjunction of a non-empty list of truth values,
/// combined pairwise as a balanced tree.
fn combine_bools(func: XacmlFunction, values: Vec<bool>) -> (r: Result<IntermediateTypes, DispatchError>)
    requires
        values.len() > 0,
    ensures
        Some(rv(r)) == match func {
            XacmlFunction::And => Some(Ok::<Value, DispatchError>(Value::Boolean(all_true(values@)))),
            XacmlFunction::Or => Some(Ok::<Value, DispatchError>(Value::Boolean(any_true(values@)))),
            _ => Some(Err::<Value, DispatchError>(DispatchError::UnsupportedFunction { func })),
        },
{
    let ghost bs = values@;
    let reduced = match func {
        XacmlFunction::And => {
            let conj = |a: bool, b: bool| -> (c: bool)
                ensures
                    c == (a && b),
                { a && b };
            let out = pairwise_reduce(values, conj);
            proof {
                if let Some(x) = out {
                    lemma_conjunction_reduction(conj, bs, x);
                }
            }
            out
        },
        XacmlFunction::Or => {
            let disj = |a: bool, b: bool| -> (c: bool)
                ensures
                    c == (a || b),
                { a || b };
            let out = pairwise_reduce(values, disj);
            proof {
                if let Some(x) = out {
                    lemma_disjunction_reduction(disj, bs, x);
                }
            }
            out
        },
        _ => {
            return Err(DispatchError::UnsupportedFunction { func });
        },
    };
    match reduced {
        Some(x) => Ok(IntermediateTypes::Boolean(x)),
        None => Err(DispatchError::Indeterminate { func, reason: "failed to reduce boolean vector operation" }),
    }
}

/// and / or over borrowed arguments of any number; absent values are skipped.
pub fn apply_plain_bool_vec_op_from_borrowed_args(func: XacmlFunction, args: Vec<Option<&IntermediateTypes>>) -> (r: Result<IntermediateTypes, DispatchError>)
    ensures
        Some(rv(r)) == sem_bool_vec(func, borrowed_args(args@)),
{
    if args.len() == 0 {
        return Err(DispatchError::ArityMismatch { func, expected: 1, got: 0 });
    }
    let ghost sa = borrowed_args(args@);
    let mut values: Vec<bool> = Vec::new();
    let mut i: usize = 0;
    while i < args.len()
        invariant
            i <= args.len(),
            sa == borrowed_args(args@),
            sa.len() == args.len(),
            bool_args_from(func, sa, 0) == match bool_args_from(func, sa, i as int) {
                Ok(rest) => Ok(values@ + rest),
                Err(e) => Err(e),
            },
        decreases args.len() - i,
    {
        match args[i] {
            None => {
                return Err(DispatchError::Indeterminate { func, reason: "missing argument in boolean vector operation" });
            },
            Some(IntermediateTypes::Boolean(b)) => {
                let ghost before = values@;
                values.push(*b);
                proof {
                    match bool_args_from(func, sa, i + 1) {
                        Ok(rest) => {
                            assert(before + (seq![*b] + rest) =~= values@ + rest);
                        },
                        Err(_) => {},
                    }
                }
            },
            Some(IntermediateTypes::Nothing) => {},
            Some(other) => {
                return Err(DispatchError::TypeMismatch { func, expected: "Bool", got: other.ty() });
            },
        }
        i = i + 1;
    }
    proof {
        assert(values@ + Seq::<bool>::empty() =~= values@);
    }
    if values.len() == 0 {
        return Ok(IntermediateTypes::Nothing);
    }
    combine_bools(func, values)
}

/// and / or over owned arguments of any number; absent values are skipped.
pub fn apply_plain_bool_vec_op_from_owned_args(func: XacmlFunction, args: Vec<Option<IntermediateTypes>>) -> (r: Result<IntermediateTypes, DispatchError>)
    ensures
        Some(rv(r)) == sem_bool_vec(func, owned_args(args@)),
{
    if args.len() == 0 {
        return Err(DispatchError::ArityMismatch { func, expected: 1, got: 0 });
    }
    let ghost sa = owned_args(args@);
    let mut values: Vec<bool> = Vec::new();
    let mut i: usize = 0;
    while i < args.len()
        invariant
            i <= args.len(),
            sa == owned_args(args@),
            sa.len() == args.len(),
            bool_args_from(func, sa, 0) == match bool_args_from(func, sa, i as int) {
                Ok(rest) => Ok(values@ + rest),
                Err(e) => Err(e),
            },
        decreases args.len() - i,
    {
        match &args[i] {
            None => {
                return Err(DispatchError::Indeterminate { func, reason: "missing argument in boolean vector operation" });
            },
            Some(IntermediateTypes::Boolean(b)) => {
                let ghost before = values@;
                values.push(*b);
                proof {
                    match bool_args_from(func, sa, i + 1) {
                        Ok(rest) => {
                            assert(before + (seq![*b] + rest) =~= values@ + rest);
                        },
                        Err(_) => {},
                    }
                }
            },
            Some(IntermediateTypes::Nothing) => {},
            Some(other) => {
                return Err(DispatchError::TypeMismatch { func, expected: "Bool", got: other.ty() });
            },
        }
        i = i + 1;
    }
    proof {
        assert(values@ + Seq::<bool>::empty() =~= values@);
    }
    if values.len() == 0 {
        return Ok(IntermediateTypes::Nothing);
    }
    combine_bools(func, values)
}

} // verus!
