//! Balanced pairwise reduction of a sequence.

use vstd::prelude::*;

verus! {

/// `t` is the next level of a balanced reduction of `s` under `f`: each pair
/// of neighbours is combined, and an odd last element is carried over.
pub open spec fn is_level<T, F: Fn(T, T) -> T>(f: F, s: Seq<T>, t: Seq<T>) -> bool {
    &&& t.len() == (s.len() + 1) / 2
    &&& forall|k: int| 0 <= k < s.len() / 2 ==> call_ensures(f, (s[2 * k], s[2 * k + 1]), #[trigger] t[k])
    &&& s.len() % 2 == 1 ==> t[t.len() - 1] == s[s.len() - 1]
}

/// `r` is a result of reducing `s` level by level under `f`.
pub open spec fn balanced_reduction<T, F: Fn(T, T) -> T>(f: F, s: Seq<T>, r: T) -> bool
    decreases s.len(),
{
    if s.len() == 0 {
        false
    } else if s.len() == 1 {
        r == s[0]
    } else {
        exists|t: Seq<T>| #[trigger] is_level(f, s, t) && t.len() < s.len() && balanced_reduction(f, t, r)
    }
}

/// One level of a balanced reduction: neighbours are combined pairwise,
/// and an odd last element is carried over unchanged.
fn reduce_level<T, F: Fn(T, T) -> T>(v: Vec<T>, combine: &F) -> (next: Vec<T>)
    requires
        forall|a: T, b: T| combine.requires((a, b)),
    ensures
        is_level(*combine, v@, next@),
{
    let ghost s = v@;
    let n = v.len();
    let mut v = v;
    let mut rev: Vec<T> = Vec::new();
    while v.len() > 0
        invariant
            n == s.len(),
            v@ == s.subrange(0, v.len() as int),
            rev.len() + v.len() == n,
            forall|j: int| 0 <= j < rev.len() ==> #[trigger] rev@[j] == s[n - 1 - j],
        decreases v.len(),
    {
        let x = v.pop().unwrap();
        rev.push(x);
    }
    let mut next: Vec<T> = Vec::new();
    while rev.len() > 0
        invariant
            n == s.len(),
            rev.len() <= n,
            forall|j: int| 0 <= j < rev.len() ==> #[trigger] rev@[j] == s[n - 1 - j],
            forall|a: T, b: T| combine.requires((a, b)),
            (n - rev.len()) % 2 == 0 || rev.len() == 0,
            next.len() == (n - rev.len() + 1) / 2,
            forall|k: int|
                0 <= k < (n - rev.len()) / 2 ==> call_ensures(*combine, (s[2 * k], s[2 * k + 1]), #[trigger] next@[k]),
            (n - rev.len()) % 2 == 1 ==> next@[next.len() - 1] == s[n - 1],
        decreases rev.len(),
    {
        let ghost c = n - rev.len();
        let left = rev.pop().unwrap();
        assert(left == s[c]);
        if rev.len() > 0 {
            let right = rev.pop().unwrap();
            assert(right == s[c + 1]);
            let m = combine(left, right);
            next.push(m);
            assert(call_ensures(*combine, (s[2 * (c / 2)], s[2 * (c / 2) + 1]), next@[c / 2]));
        } else {
            next.push(left);
        }
    }
    next
}

/// Reduces `v` by combining neighbours pairwise, level by level, until a
/// single value is left; `None` for an empty vector.
pub fn pairwise_reduce<T, F: Fn(T, T) -> T>(v: Vec<T>, combine: F) -> (r: Option<T>)
    requires
        forall|a: T, b: T| combine.requires((a, b)),
    ensures
        r is None <==> v@.len() == 0,
        r matches Some(x) ==> balanced_reduction(combine, v@, x),
{
    if v.len() == 0 {
        return None;
    }
    let ghost s = v@;
    let mut v = v;
    while v.len() > 1
        invariant
            v.len() >= 1,
            forall|a: T, b: T| combine.requires((a, b)),
            forall|x: T| balanced_reduction(combine, v@, x) ==> balanced_reduction(combine, s, x),
        decreases v.len(),
    {
        let ghost before = v@;
        let next = reduce_level(v, &combine);
        assert forall|x: T| balanced_reduction(combine, next@, x) implies balanced_reduction(combine, s, x) by {
            assert(is_level(combine, before, next@) && next@.len() < before.len());
            assert(balanced_reduction(combine, before, x));
        }
        v = next;
    }
    let x = v.pop().unwrap();
    Some(x)
}

/// The left fold of a non-empty sequence under `g`: `g(..g(g(s[0], s[1]), s[2])..)`.
pub open spec fn fold1<T>(g: spec_fn(T, T) -> T, s: Seq<T>) -> T
    decreases s.len(),
{
    if s.len() <= 1 {
        s[0]
    } else {
        g(fold1(g, s.drop_last()), s.last())
    }
}

proof fn lemma_level_prefix<T, F: Fn(T, T) -> T>(f: F, g: spec_fn(T, T) -> T, s: Seq<T>, t: Seq<T>, k: int)
    requires
        forall|a: T, b: T, x: T| call_ensures(f, (a, b), x) ==> x == g(a, b),
        forall|a: T, b: T, c: T| #[trigger] g(g(a, b), c) == g(a, g(b, c)),
        is_level(f, s, t),
        1 <= k <= s.len() / 2,
    ensures
        fold1(g, t.take(k)) == fold1(g, s.take(2 * k)),
    decreases k,
{
    assert(call_ensures(f, (s[2 * (k - 1)], s[2 * (k - 1) + 1]), t[k - 1]));
    let tk = t[k - 1];
    assert(tk == g(s[2 * k - 2], s[2 * k - 1]));
    assert(s.take(2 * k).drop_last() =~= s.take(2 * k - 1));
    assert(fold1(g, s.take(2 * k)) == g(fold1(g, s.take(2 * k - 1)), s[2 * k - 1]));
    if k > 1 {
        lemma_level_prefix(f, g, s, t, k - 1);
        assert(t.take(k).drop_last() =~= t.take(k - 1));
        assert(fold1(g, t.take(k)) == g(fold1(g, t.take(k - 1)), tk));
        assert(s.take(2 * k - 1).drop_last() =~= s.take(2 * k - 2));
        assert(fold1(g, s.take(2 * k - 1)) == g(fold1(g, s.take(2 * k - 2)), s[2 * k - 2]));
        assert(g(g(fold1(g, s.take(2 * k - 2)), s[2 * k - 2]), s[2 * k - 1]) == g(
            fold1(g, s.take(2 * k - 2)),
            g(s[2 * k - 2], s[2 * k - 1]),
        ));
    } else {
        assert(fold1(g, t.take(1)) == tk);
        assert(fold1(g, s.take(1)) == s[0]);
    }
}

proof fn lemma_level_fold<T, F: Fn(T, T) -> T>(f: F, g: spec_fn(T, T) -> T, s: Seq<T>, t: Seq<T>)
    requires
        forall|a: T, b: T, x: T| call_ensures(f, (a, b), x) ==> x == g(a, b),
        forall|a: T, b: T, c: T| #[trigger] g(g(a, b), c) == g(a, g(b, c)),
        is_level(f, s, t),
        s.len() >= 2,
    ensures
        fold1(g, t) == fold1(g, s),
{
    let k: int = (s.len() / 2) as int;
    lemma_level_prefix(f, g, s, t, k);
    if s.len() % 2 == 0 {
        assert(t.take(k) =~= t);
        assert(s.take(2 * k) =~= s);
    } else {
        assert(t.drop_last() =~= t.take(k));
        assert(s.drop_last() =~= s.take(2 * k));
    }
}

/// Under an associative combination, a balanced reduction is the left fold:
/// reducing `s` pairwise, level by level, yields
/// `g(..g(g(s[0], s[1]), s[2])..)`. So where `combine` computes an
/// associative `g`, what `pairwise_reduce(v, combine)` returns for a
/// non-empty `v` (a balanced reduction, by its contract) is the left fold of
/// `v` under `g`.
pub proof fn lemma_reduction_is_fold<T, F: Fn(T, T) -> T>(f: F, g: spec_fn(T, T) -> T, s: Seq<T>, r: T)
    requires
        forall|a: T, b: T, x: T| call_ensures(f, (a, b), x) ==> x == g(a, b),
        forall|a: T, b: T, c: T| #[trigger] g(g(a, b), c) == g(a, g(b, c)),
        balanced_reduction(f, s, r),
    ensures
        r == fold1(g, s),
    decreases s.len(),
{
    if s.len() > 1 {
        let t = choose|t: Seq<T>| #[trigger] is_level(f, s, t) && t.len() < s.len() && balanced_reduction(f, t, r);
        lemma_reduction_is_fold(f, g, t, r);
        lemma_level_fold(f, g, s, t);
    }
}

/// Every element of `s` holds.
pub open spec fn all_true(s: Seq<bool>) -> bool {
    forall|i: int| 0 <= i < s.len() ==> #[trigger] s[i]
}

/// Some element of `s` holds.
pub open spec fn any_true(s: Seq<bool>) -> bool {
    exists|i: int| 0 <= i < s.len() && #[trigger] s[i]
}

/// A balanced reduction by conjunction yields the conjunction of all elements.
pub proof fn lemma_conjunction_reduction<F: Fn(bool, bool) -> bool>(f: F, s: Seq<bool>, r: bool)
    requires
        forall|a: bool, b: bool, x: bool| call_ensures(f, (a, b), x) ==> x == (a && b),
        balanced_reduction(f, s, r),
    ensures
        r == all_true(s),
    decreases s.len(),
{
    if s.len() > 1 {
        let t = choose|t: Seq<bool>| #[trigger] is_level(f, s, t) && t.len() < s.len() && balanced_reduction(f, t, r);
        lemma_conjunction_reduction(f, t, r);
        assert(all_true(t) == all_true(s)) by {
            if all_true(t) {
                assert forall|i: int| 0 <= i < s.len() implies #[trigger] s[i] by {
                    let k = i / 2;
                    if 2 * k + 1 < s.len() {
                        assert(t[k]);
                    } else {
                        assert(t[t.len() - 1]);
                    }
                }
            }
            if all_true(s) {
                assert forall|k: int| 0 <= k < t.len() implies #[trigger] t[k] by {
                    if k < s.len() / 2 {
                        assert(s[2 * k] && s[2 * k + 1]);
                    } else {
                        assert(s[s.len() - 1]);
                    }
                }
            }
        }
    }
}

/// A balanced reduction by disjunction yields the disjunction of all elements.
pub proof fn lemma_disjunction_reduction<F: Fn(bool, bool) -> bool>(f: F, s: Seq<bool>, r: bool)
    requires
        forall|a: bool, b: bool, x: bool| call_ensures(f, (a, b), x) ==> x == (a || b),
        balanced_reduction(f, s, r),
    ensures
        r == any_true(s),
    decreases s.len(),
{
    if s.len() > 1 {
        let t = choose|t: Seq<bool>| #[trigger] is_level(f, s, t) && t.len() < s.len() && balanced_reduction(f, t, r);
        lemma_disjunction_reduction(f, t, r);
        assert(any_true(t) == any_true(s)) by {
            if any_true(t) {
                let k = choose|k: int| 0 <= k < t.len() && #[trigger] t[k];
                if k < s.len() / 2 {
                    assert(s[2 * k] || s[2 * k + 1]);
                } else {
                    assert(s[s.len() - 1]);
                }
            }
            if any_true(s) {
                let i = choose|i: int| 0 <= i < s.len() && #[trigger] s[i];
                let k = i / 2;
                if 2 * k + 1 < s.len() {
                    assert(t[k]);
                } else {
                    assert(t[t.len() - 1]);
                }
            }
        }
    }
}

} // verus!
