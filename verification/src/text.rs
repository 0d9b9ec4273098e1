//! Small string utilities shared by the evaluators and the value parsers.

use vstd::prelude::*;
use crate::lexical::str_chars;
use crate::plain_spec::{ascii_lower, eq_ignore_ascii_case, seq_contains, seq_ends_with, seq_starts_with, unicode_lowercase};

verus! {

/// Whether the characters of `x` from `off` on begin with those of `y`.
fn chars_match_at(x: &Vec<char>, y: &Vec<char>, off: usize) -> (r: bool)
    requires
        off + y.len() <= x.len(),
    ensures
        r == (x@.subrange(off as int, off + y.len()) == y@),
{
    let mut k: usize = 0;
    while k < y.len()
        invariant
            off + y.len() <= x.len(),
            k <= y.len(),
            forall|j: int| 0 <= j < k ==> x@[off + j] == y@[j],
        decreases y.len() - k,
    {
        if x[off + k] != y[k] {
            assert(x@.subrange(off as int, off + y.len())[k as int] != y@[k as int]);
            return false;
        }
        k = k + 1;
    }
    assert(x@.subrange(off as int, off + y.len()) =~= y@);
    true
}

/// Equality of two string slices, compared character by character.
pub(crate) fn str_eq(a: &str, b: &str) -> (r: bool)
    ensures
        r == (a@ == b@),
{
    let x = str_chars(a);
    let y = str_chars(b);
    if x.len() != y.len() {
        return false;
    }
    let r = chars_match_at(&x, &y, 0);
    assert(x@.subrange(0, y.len() as int) =~= x@);
    r
}

/// Whether `x` begins with `y`.
pub(crate) fn str_starts_with(x: &str, y: &str) -> (r: bool)
    ensures
        r == seq_starts_with(x@, y@),
{
    let xs = str_chars(x);
    let ys = str_chars(y);
    if ys.len() > xs.len() {
        return false;
    }
    chars_match_at(&xs, &ys, 0)
}

/// Whether `x` ends with `y`.
pub(crate) fn str_ends_with(x: &str, y: &str) -> (r: bool)
    ensures
        r == seq_ends_with(x@, y@),
{
    let xs = str_chars(x);
    let ys = str_chars(y);
    if ys.len() > xs.len() {
        return false;
    }
    chars_match_at(&xs, &ys, xs.len() - ys.len())
}

/// Whether `y` occurs in `x`.
pub(crate) fn str_contains(x: &str, y: &str) -> (r: bool)
    ensures
        r == seq_contains(x@, y@),
{
    let xs = str_chars(x);
    let ys = str_chars(y);
    if ys.len() > xs.len() {
        return false;
    }
    if ys.len() == 0 {
        assert(x@.subrange(0int, 0int + y@.len()) =~= y@);
        return true;
    }
    let last = xs.len() - ys.len();
    let mut i: usize = 0;
    while i <= last
        invariant
            xs@ == x@,
            ys@ == y@,
            last + ys.len() == xs.len(),
            ys.len() > 0,
            i <= last + 1,
            forall|j: int| 0 <= j < i ==> #[trigger] x@.subrange(j, j + y@.len()) != y@,
        decreases last + 1 - i,
    {
        if chars_match_at(&xs, &ys, i) {
            return true;
        }
        i = i + 1;
    }
    assert forall|j: int| 0 <= j && j + y@.len() <= x@.len() implies #[trigger] x@.subrange(j, j + y@.len()) != y@ by {
        assert(j < i);
    }
    false
}

/// The number of a character once an ASCII letter is lower-cased.
fn lower_code(c: char) -> (r: u32)
    ensures
        r == ascii_lower(c) as u32,
{
    let n = c as u32;
    if 65 <= n && n <= 90 {
        n + 32
    } else {
        n
    }
}

/// Whether `x` and `y` are equal once ASCII letters are lower-cased.
pub(crate) fn str_eq_ignore_ascii_case(x: &str, y: &str) -> (r: bool)
    ensures
        r == eq_ignore_ascii_case(x@, y@),
{
    let xs = str_chars(x);
    let ys = str_chars(y);
    if xs.len() != ys.len() {
        return false;
    }
    let mut k: usize = 0;
    while k < xs.len()
        invariant
            xs@ == x@,
            ys@ == y@,
            xs.len() == ys.len(),
            k <= xs.len(),
            forall|j: int| 0 <= j < k ==> ascii_lower(#[trigger] x@[j]) == ascii_lower(y@[j]),
        decreases xs.len() - k,
    {
        if lower_code(xs[k]) != lower_code(ys[k]) {
            return false;
        }
        k = k + 1;
    }
    true
}

/// The Unicode lower-case form of `s` (`str::to_lowercase`).
#[verifier::external_body]
pub(crate) fn str_to_lowercase(s: &str) -> (r: String)
    ensures
        r@ == unicode_lowercase(s@),
{
    s.to_lowercase()
}

} // verus!
