//! Character-level reading of attribute texts: trimming, splitting and
//! decimal numbers.

use vstd::prelude::*;

verus! {

/// The Unicode `White_Space` property of a character: the ASCII tab, line
/// feed, vertical tab, form feed, carriage return and space, next line, the
/// no-break space, the Ogham space mark, the spaces U+2000 to U+200A, the
/// line and paragraph separators, the narrow no-break space, the medium
/// mathematical space and the ideographic space.
pub open spec fn unicode_white_space(c: char) -> bool {
    let n = c as u32;
    ||| 0x09 <= n <= 0x0d
    ||| n == 0x20
    ||| n == 0x85
    ||| n == 0xa0
    ||| n == 0x1680
    ||| 0x2000 <= n <= 0x200a
    ||| n == 0x2028
    ||| n == 0x2029
    ||| n == 0x202f
    ||| n == 0x205f
    ||| n == 0x3000
}

/// Whether `c` is whitespace, as `char::is_whitespace` decides it.
pub(crate) fn char_is_whitespace(c: char) -> (r: bool)
    ensures
        r == unicode_white_space(c),
{
    let n = c as u32;
    (0x09 <= n && n <= 0x0d) || n == 0x20 || n == 0x85 || n == 0xa0 || n == 0x1680 || (0x2000 <= n && n <= 0x200a)
        || n == 0x2028 || n == 0x2029 || n == 0x202f || n == 0x205f || n == 0x3000
}

/// The characters of `s`, in order.
pub fn str_chars(s: &str) -> (r: Vec<char>)
    ensures
        r@ == s@,
{
    broadcast use vstd::string::group_string_axioms;
    let mut out: Vec<char> = Vec::new();
    for c in it: s.chars()
        invariant
            it.seq() == s@,
            out@ == it.seq().take(it.index() as int),
    {
        out.push(c);
    }
    out
}

/// The string made of the characters `cs`, in order (`String::from_iter`).
#[verifier::external_body]
fn string_of_chars(cs: Vec<char>) -> (r: String)
    ensures
        r@ == cs@,
{
    String::from_iter(cs)
}

/// The string made of the characters `cs[from..to]`.
pub fn string_from_chars(cs: &Vec<char>, from: usize, to: usize) -> (r: String)
    requires
        from <= to <= cs.len(),
    ensures
        r@ == cs@.subrange(from as int, to as int),
{
    string_of_chars(sub_chars(cs, from, to))
}

// ------------------------------------------------------------------
// Trimming
// ------------------------------------------------------------------

/// The position of the first non-whitespace character of `s` at or after `i`.
pub open spec fn lead_from(s: Seq<char>, i: int) -> int
    decreases s.len() - i,
{
    if i < 0 || i >= s.len() {
        s.len() as int
    } else if unicode_white_space(s[i]) {
        lead_from(s, i + 1)
    } else {
        i
    }
}

/// One past the last non-whitespace character of `s[..j]`.
pub open spec fn end_from(s: Seq<char>, j: int) -> int
    decreases j,
{
    if j <= 0 || j > s.len() {
        0
    } else if unicode_white_space(s[j - 1]) {
        end_from(s, j - 1)
    } else {
        j
    }
}

/// `s` without leading and trailing whitespace (`str::trim`).
pub open spec fn trim_ws(s: Seq<char>) -> Seq<char> {
    let a = lead_from(s, 0);
    if a >= s.len() {
        Seq::empty()
    } else {
        s.subrange(a, end_from(s, s.len() as int))
    }
}

proof fn lemma_lead_bounds(s: Seq<char>, i: int)
    requires
        0 <= i <= s.len(),
    ensures
        i <= lead_from(s, i) <= s.len(),
        lead_from(s, i) < s.len() ==> !unicode_white_space(s[lead_from(s, i)]),
    decreases s.len() - i,
{
    if i < s.len() && unicode_white_space(s[i]) {
        lemma_lead_bounds(s, i + 1);
    }
}

proof fn lemma_end_bounds(s: Seq<char>, j: int, a: int)
    requires
        0 <= a < j <= s.len(),
        !unicode_white_space(s[a]),
    ensures
        a < end_from(s, j) <= j,
    decreases j,
{
    if unicode_white_space(s[j - 1]) {
        lemma_end_bounds(s, j - 1, a);
    }
}

/// The characters of `cs` without leading and trailing whitespace.
pub fn trim_chars(cs: &Vec<char>) -> (r: (usize, usize))
    ensures
        r.0 <= r.1 <= cs.len(),
        cs@.subrange(r.0 as int, r.1 as int) == trim_ws(cs@),
{
    let ghost s = cs@;
    let mut a: usize = 0;
    while a < cs.len() && char_is_whitespace(cs[a])
        invariant
            s == cs@,
            a <= cs.len(),
            lead_from(s, 0) == lead_from(s, a as int),
        decreases cs.len() - a,
    {
        a = a + 1;
    }
    proof {
        lemma_lead_bounds(s, a as int);
    }
    if a == cs.len() {
        return (0, 0);
    }
    let mut b: usize = cs.len();
    while b > a + 1 && char_is_whitespace(cs[b - 1])
        invariant
            s == cs@,
            a < b <= cs.len(),
            a == lead_from(s, 0),
            !unicode_white_space(s[a as int]),
            end_from(s, s.len() as int) == end_from(s, b as int),
        decreases b,
    {
        b = b - 1;
    }
    (a, b)
}

/// The characters of `s` without leading and trailing whitespace, as a string.
pub fn trim(s: &str) -> (r: String)
    ensures
        r@ == trim_ws(s@),
{
    let cs = str_chars(s);
    let (a, b) = trim_chars(&cs);
    string_from_chars(&cs, a, b)
}

// ------------------------------------------------------------------
// Splitting
// ------------------------------------------------------------------

/// The pieces of `s[start..]` between the separators `seps`, where the piece
/// being read began at `start` and `s[start..i]` holds no separator.
pub open spec fn split_from(s: Seq<char>, seps: Seq<char>, start: int, i: int) -> Seq<Seq<char>>
    decreases s.len() - i,
{
    if i < 0 || i >= s.len() {
        seq![s.subrange(start, s.len() as int)]
    } else if seps.contains(s[i]) {
        seq![s.subrange(start, i)] + split_from(s, seps, i + 1, i + 1)
    } else {
        split_from(s, seps, start, i + 1)
    }
}

proof fn lemma_split_from_len(s: Seq<char>, seps: Seq<char>, start: int, i: int)
    ensures
        split_from(s, seps, start, i).len() >= 1,
    decreases s.len() - i,
{
    if 0 <= i < s.len() {
        if seps.contains(s[i]) {
            lemma_split_from_len(s, seps, i + 1, i + 1);
        } else {
            lemma_split_from_len(s, seps, start, i + 1);
        }
    }
}

/// Splitting always yields at least one piece.
pub proof fn lemma_split_nonempty(s: Seq<char>, seps: Seq<char>)
    ensures
        split_by(s, seps).len() >= 1,
{
    lemma_split_from_len(s, seps, 0, 0);
}

/// The pieces of `s` between the separators `seps` (`str::split`).
pub open spec fn split_by(s: Seq<char>, seps: Seq<char>) -> Seq<Seq<char>> {
    split_from(s, seps, 0, 0)
}

/// Whether `c` is one of `seps`.
fn is_sep(c: char, seps: &Vec<char>) -> (r: bool)
    ensures
        r == seps@.contains(c),
{
    let mut k: usize = 0;
    while k < seps.len()
        invariant
            k <= seps.len(),
            forall|j: int| 0 <= j < k ==> seps@[j] != c,
        decreases seps.len() - k,
    {
        if seps[k] == c {
            assert(seps@[k as int] == c);
            return true;
        }
        k = k + 1;
    }
    false
}

/// The bounds of the pieces of `cs` between the separators `seps`.
pub fn split_chars(cs: &Vec<char>, seps: &Vec<char>) -> (r: Vec<(usize, usize)>)
    ensures
        r.len() == split_by(cs@, seps@).len(),
        forall|k: int| 0 <= k < r.len() ==> (#[trigger] r@[k]).0 <= r@[k].1 <= cs.len()
            && cs@.subrange(r@[k].0 as int, r@[k].1 as int) == split_by(cs@, seps@)[k],
{
    let ghost s = cs@;
    let mut out: Vec<(usize, usize)> = Vec::new();
    let mut start: usize = 0;
    let mut i: usize = 0;
    while i < cs.len()
        invariant
            s == cs@,
            start <= i <= cs.len(),
            forall|k: int| 0 <= k < out.len() ==> (#[trigger] out@[k]).0 <= out@[k].1 <= cs.len(),
            split_by(s, seps@) == Seq::new(out.len() as nat, |k: int| s.subrange(out@[k].0 as int, out@[k].1 as int))
                + split_from(s, seps@, start as int, i as int),
        decreases cs.len() - i,
    {
        let ghost before = out@;
        if is_sep(cs[i], seps) {
            out.push((start, i));
            proof {
                let pb = Seq::new(before.len() as nat, |k: int| s.subrange(before[k].0 as int, before[k].1 as int));
                let pa = Seq::new(out.len() as nat, |k: int| s.subrange(out@[k].0 as int, out@[k].1 as int));
                assert(pa =~= pb.push(s.subrange(start as int, i as int)));
                assert(pb + (seq![s.subrange(start as int, i as int)] + split_from(s, seps@, i + 1, i + 1)) =~= pa
                    + split_from(s, seps@, i + 1, i + 1));
            }
            start = i + 1;
        }
        i = i + 1;
    }
    let ghost before = out@;
    out.push((start, cs.len()));
    proof {
        let pb = Seq::new(before.len() as nat, |k: int| s.subrange(before[k].0 as int, before[k].1 as int));
        let pa = Seq::new(out.len() as nat, |k: int| s.subrange(out@[k].0 as int, out@[k].1 as int));
        assert(pa =~= pb.push(s.subrange(start as int, s.len() as int)));
        assert(split_by(s, seps@) =~= pa);
    }
    out
}

// ------------------------------------------------------------------
// Decimal numbers
// ------------------------------------------------------------------

pub open spec fn is_ascii_digit(c: char) -> bool {
    '0' <= c && c <= '9'
}

pub open spec fn digit_value(c: char) -> int {
    (c as int) - ('0' as int)
}

pub open spec fn all_ascii_digits(d: Seq<char>) -> bool {
    forall|i: int| 0 <= i < d.len() ==> is_ascii_digit(#[trigger] d[i])
}

/// The value of a sequence of decimal digits.
pub open spec fn digits_value(d: Seq<char>) -> int
    decreases d.len(),
{
    if d.len() == 0 {
        0
    } else {
        digits_value(d.drop_last()) * 10 + digit_value(d.last())
    }
}

/// The integer that `s` spells: an optional `+` (or, where `signed`, `-`)
/// followed by at least one decimal digit, as Rust's integer parsing reads it.
pub open spec fn int_text(s: Seq<char>, signed: bool) -> Option<int> {
    if s.len() == 0 {
        None
    } else {
        let neg = signed && s[0] == '-';
        let start: int = if s[0] == '+' || neg { 1 } else { 0 };
        let d = s.subrange(start, s.len() as int);
        if d.len() == 0 || !all_ascii_digits(d) {
            None
        } else if neg {
            Some(-digits_value(d))
        } else {
            Some(digits_value(d))
        }
    }
}

/// The integer that `s` spells, where it lies in `[lo, hi]` (`str::parse`).
pub open spec fn int_in(s: Seq<char>, signed: bool, lo: int, hi: int) -> Option<int> {
    match int_text(s, signed) {
        Some(v) => if lo <= v <= hi {
            Some(v)
        } else {
            None
        },
        None => None,
    }
}

proof fn lemma_digits_grow(d: Seq<char>, i: int)
    requires
        0 <= i <= d.len(),
        all_ascii_digits(d),
    ensures
        0 <= digits_value(d.subrange(0, i)) <= digits_value(d),
    decreases d.len() - i,
{
    if i < d.len() {
        lemma_digits_grow(d, i + 1);
        let p = d.subrange(0, i + 1);
        assert(p.drop_last() =~= d.subrange(0, i));
        lemma_digits_nonneg(d.subrange(0, i));
    } else {
        assert(d.subrange(0, i) =~= d);
        lemma_digits_nonneg(d);
    }
}

proof fn lemma_digits_nonneg(d: Seq<char>)
    requires
        all_ascii_digits(d),
    ensures
        digits_value(d) >= 0,
    decreases d.len(),
{
    if d.len() > 0 {
        lemma_digits_nonneg(d.drop_last());
    }
}

/// Reads the integer spelled by `cs[from..to]` if it lies in `[lo, hi]`.
pub fn parse_int(cs: &Vec<char>, from: usize, to: usize, signed: bool, lo: i128, hi: i128) -> (r: Option<i128>)
    requires
        from <= to <= cs.len(),
        lo <= 0 <= hi,
    ensures
        match r {
            Some(v) => int_in(cs@.subrange(from as int, to as int), signed, lo as int, hi as int) == Some(v as int),
            None => int_in(cs@.subrange(from as int, to as int), signed, lo as int, hi as int) is None,
        },
{
    let ghost s = cs@.subrange(from as int, to as int);
    if from == to {
        return None;
    }
    let first = cs[from];
    let neg = signed && first == '-';
    let start: usize = if first == '+' || neg { from + 1 } else { from };
    let ghost d = cs@.subrange(start as int, to as int);
    assert(d =~= s.subrange(start - from, s.len() as int));
    if start == to {
        return None;
    }
    // the largest magnitude that can be in range
    let limit: u128 = if neg {
        if lo == i128::MIN { 170141183460469231731687303715884105728u128 } else { (-lo) as u128 }
    } else {
        hi as u128
    };
    let mut acc: u128 = 0;
    let mut i: usize = start;
    while i < to
        invariant
            start <= i <= to <= cs.len(),
            d == cs@.subrange(start as int, to as int),
            forall|j: int| 0 <= j < i - start ==> is_ascii_digit(#[trigger] d[j]),
            acc as int == digits_value(d.subrange(0, i - start)),
            acc <= limit,
            s == cs@.subrange(from as int, to as int),
            from < to,
            first == cs@[from as int],
            neg == (signed && first == '-'),
            start as int == if first == '+' || neg { from + 1 } else { from as int },
            d == s.subrange(start - from, s.len() as int),
            lo <= 0 <= hi,
            limit as int == if neg { -lo } else { hi as int },
        decreases to - i,
    {
        let c = cs[i];
        if !('0' <= c && c <= '9') {
            assert(!is_ascii_digit(d[i - start]));
            assert(!all_ascii_digits(d));
            return None;
        }
        let dv: u128 = ((c as u32) - ('0' as u32)) as u128;
        proof {
            let p = d.subrange(0, i - start + 1);
            assert(p.drop_last() =~= d.subrange(0, i - start));
            assert(p.last() == c);
        }
        let next: Option<u128> = match acc.checked_mul(10) {
            Some(m) => m.checked_add(dv),
            None => None,
        };
        let (fits, n): (bool, u128) = match next {
            Some(n) => (true, n),
            None => (false, 0),
        };
        if !fits || n > limit {
            proof {
                assert(digits_value(d.subrange(0, i - start + 1)) == acc * 10 + dv);
                if all_ascii_digits(d) {
                    lemma_digits_grow(d, i - start + 1);
                }
            }
            return None;
        }
        proof {
            assert(digits_value(d.subrange(0, i - start + 1)) == acc * 10 + dv);
        }
        acc = n;
        i = i + 1;
    }
    assert(d.subrange(0, d.len() as int) =~= d);
    if neg {
        if lo == i128::MIN && acc == 170141183460469231731687303715884105728u128 {
            Some(i128::MIN)
        } else {
            Some(-(acc as i128))
        }
    } else {
        Some(acc as i128)
    }
}

/// Whether `c` is a Unicode decimal digit (general category `Nd`, Unicode
/// 16.0): the digit class `\d` of the attribute grammars.
pub open spec fn decimal_digit(c: char) -> bool {
    let n = c as u32;
    ||| 0x30 <= n <= 0x39
    ||| 0x660 <= n <= 0x669
    ||| 0x6f0 <= n <= 0x6f9
    ||| 0x7c0 <= n <= 0x7c9
    ||| 0x966 <= n <= 0x96f
    ||| 0x9e6 <= n <= 0x9ef
    ||| 0xa66 <= n <= 0xa6f
    ||| 0xae6 <= n <= 0xaef
    ||| 0xb66 <= n <= 0xb6f
    ||| 0xbe6 <= n <= 0xbef
    ||| 0xc66 <= n <= 0xc6f
    ||| 0xce6 <= n <= 0xcef
    ||| 0xd66 <= n <= 0xd6f
    ||| 0xde6 <= n <= 0xdef
    ||| 0xe50 <= n <= 0xe59
    ||| 0xed0 <= n <= 0xed9
    ||| 0xf20 <= n <= 0xf29
    ||| 0x1040 <= n <= 0x1049
    ||| 0x1090 <= n <= 0x1099
    ||| 0x17e0 <= n <= 0x17e9
    ||| 0x1810 <= n <= 0x1819
    ||| 0x1946 <= n <= 0x194f
    ||| 0x19d0 <= n <= 0x19d9
    ||| 0x1a80 <= n <= 0x1a89
    ||| 0x1a90 <= n <= 0x1a99
    ||| 0x1b50 <= n <= 0x1b59
    ||| 0x1bb0 <= n <= 0x1bb9
    ||| 0x1c40 <= n <= 0x1c49
    ||| 0x1c50 <= n <= 0x1c59
    ||| 0xa620 <= n <= 0xa629
    ||| 0xa8d0 <= n <= 0xa8d9
    ||| 0xa900 <= n <= 0xa909
    ||| 0xa9d0 <= n <= 0xa9d9
    ||| 0xa9f0 <= n <= 0xa9f9
    ||| 0xaa50 <= n <= 0xaa59
    ||| 0xabf0 <= n <= 0xabf9
    ||| 0xff10 <= n <= 0xff19
    ||| 0x104a0 <= n <= 0x104a9
    ||| 0x10d30 <= n <= 0x10d39
    ||| 0x10d40 <= n <= 0x10d49
    ||| 0x11066 <= n <= 0x1106f
    ||| 0x110f0 <= n <= 0x110f9
    ||| 0x11136 <= n <= 0x1113f
    ||| 0x111d0 <= n <= 0x111d9
    ||| 0x112f0 <= n <= 0x112f9
    ||| 0x11450 <= n <= 0x11459
    ||| 0x114d0 <= n <= 0x114d9
    ||| 0x11650 <= n <= 0x11659
    ||| 0x116c0 <= n <= 0x116c9
    ||| 0x116d0 <= n <= 0x116e3
    ||| 0x11730 <= n <= 0x11739
    ||| 0x118e0 <= n <= 0x118e9
    ||| 0x11950 <= n <= 0x11959
    ||| 0x11bf0 <= n <= 0x11bf9
    ||| 0x11c50 <= n <= 0x11c59
    ||| 0x11d50 <= n <= 0x11d59
    ||| 0x11da0 <= n <= 0x11da9
    ||| 0x11f50 <= n <= 0x11f59
    ||| 0x16130 <= n <= 0x16139
    ||| 0x16a60 <= n <= 0x16a69
    ||| 0x16ac0 <= n <= 0x16ac9
    ||| 0x16b50 <= n <= 0x16b59
    ||| 0x16d70 <= n <= 0x16d79
    ||| 0x1ccf0 <= n <= 0x1ccf9
    ||| 0x1d7ce <= n <= 0x1d7ff
    ||| 0x1e140 <= n <= 0x1e149
    ||| 0x1e2f0 <= n <= 0x1e2f9
    ||| 0x1e4f0 <= n <= 0x1e4f9
    ||| 0x1e5f1 <= n <= 0x1e5fa
    ||| 0x1e950 <= n <= 0x1e959
    ||| 0x1fbf0 <= n <= 0x1fbf9
}

/// Whether `c` is a Unicode decimal digit.
pub fn is_decimal_digit(c: char) -> (r: bool)
    ensures
        r == decimal_digit(c),
{
    let n = c as u32;
    (0x30 <= n && n <= 0x39)
        || (0x660 <= n && n <= 0x669)
        || (0x6f0 <= n && n <= 0x6f9)
        || (0x7c0 <= n && n <= 0x7c9)
        || (0x966 <= n && n <= 0x96f)
        || (0x9e6 <= n && n <= 0x9ef)
        || (0xa66 <= n && n <= 0xa6f)
        || (0xae6 <= n && n <= 0xaef)
        || (0xb66 <= n && n <= 0xb6f)
        || (0xbe6 <= n && n <= 0xbef)
        || (0xc66 <= n && n <= 0xc6f)
        || (0xce6 <= n && n <= 0xcef)
        || (0xd66 <= n && n <= 0xd6f)
        || (0xde6 <= n && n <= 0xdef)
        || (0xe50 <= n && n <= 0xe59)
        || (0xed0 <= n && n <= 0xed9)
        || (0xf20 <= n && n <= 0xf29)
        || (0x1040 <= n && n <= 0x1049)
        || (0x1090 <= n && n <= 0x1099)
        || (0x17e0 <= n && n <= 0x17e9)
        || (0x1810 <= n && n <= 0x1819)
        || (0x1946 <= n && n <= 0x194f)
        || (0x19d0 <= n && n <= 0x19d9)
        || (0x1a80 <= n && n <= 0x1a89)
        || (0x1a90 <= n && n <= 0x1a99)
        || (0x1b50 <= n && n <= 0x1b59)
        || (0x1bb0 <= n && n <= 0x1bb9)
        || (0x1c40 <= n && n <= 0x1c49)
        || (0x1c50 <= n && n <= 0x1c59)
        || (0xa620 <= n && n <= 0xa629)
        || (0xa8d0 <= n && n <= 0xa8d9)
        || (0xa900 <= n && n <= 0xa909)
        || (0xa9d0 <= n && n <= 0xa9d9)
        || (0xa9f0 <= n && n <= 0xa9f9)
        || (0xaa50 <= n && n <= 0xaa59)
        || (0xabf0 <= n && n <= 0xabf9)
        || (0xff10 <= n && n <= 0xff19)
        || (0x104a0 <= n && n <= 0x104a9)
        || (0x10d30 <= n && n <= 0x10d39)
        || (0x10d40 <= n && n <= 0x10d49)
        || (0x11066 <= n && n <= 0x1106f)
        || (0x110f0 <= n && n <= 0x110f9)
        || (0x11136 <= n && n <= 0x1113f)
        || (0x111d0 <= n && n <= 0x111d9)
        || (0x112f0 <= n && n <= 0x112f9)
        || (0x11450 <= n && n <= 0x11459)
        || (0x114d0 <= n && n <= 0x114d9)
        || (0x11650 <= n && n <= 0x11659)
        || (0x116c0 <= n && n <= 0x116c9)
        || (0x116d0 <= n && n <= 0x116e3)
        || (0x11730 <= n && n <= 0x11739)
        || (0x118e0 <= n && n <= 0x118e9)
        || (0x11950 <= n && n <= 0x11959)
        || (0x11bf0 <= n && n <= 0x11bf9)
        || (0x11c50 <= n && n <= 0x11c59)
        || (0x11d50 <= n && n <= 0x11d59)
        || (0x11da0 <= n && n <= 0x11da9)
        || (0x11f50 <= n && n <= 0x11f59)
        || (0x16130 <= n && n <= 0x16139)
        || (0x16a60 <= n && n <= 0x16a69)
        || (0x16ac0 <= n && n <= 0x16ac9)
        || (0x16b50 <= n && n <= 0x16b59)
        || (0x16d70 <= n && n <= 0x16d79)
        || (0x1ccf0 <= n && n <= 0x1ccf9)
        || (0x1d7ce <= n && n <= 0x1d7ff)
        || (0x1e140 <= n && n <= 0x1e149)
        || (0x1e2f0 <= n && n <= 0x1e2f9)
        || (0x1e4f0 <= n && n <= 0x1e4f9)
        || (0x1e5f1 <= n && n <= 0x1e5fa)
        || (0x1e950 <= n && n <= 0x1e959)
        || (0x1fbf0 <= n && n <= 0x1fbf9)
}

/// The position of the first character of `s` at or after `i` that is not
/// a decimal digit.
pub open spec fn digit_run(s: Seq<char>, i: int) -> int
    decreases s.len() - i,
{
    if i < 0 || i >= s.len() {
        s.len() as int
    } else if decimal_digit(s[i]) {
        digit_run(s, i + 1)
    } else {
        i
    }
}

pub proof fn lemma_digit_run(s: Seq<char>, i: int)
    requires
        0 <= i <= s.len(),
    ensures
        i <= digit_run(s, i) <= s.len(),
        forall|j: int| i <= j < digit_run(s, i) ==> decimal_digit(#[trigger] s[j]),
        digit_run(s, i) < s.len() ==> !decimal_digit(s[digit_run(s, i)]),
    decreases s.len() - i,
{
    if i < s.len() && decimal_digit(s[i]) {
        lemma_digit_run(s, i + 1);
    }
}

/// The position of the first character of `cs` at or after `i` that is not
/// a decimal digit.
pub fn scan_digits(cs: &Vec<char>, i: usize) -> (r: usize)
    requires
        i <= cs.len(),
    ensures
        r as int == digit_run(cs@, i as int),
{
    let mut j = i;
    while j < cs.len() && is_decimal_digit(cs[j])
        invariant
            i <= j <= cs.len(),
            digit_run(cs@, i as int) == digit_run(cs@, j as int),
        decreases cs.len() - j,
    {
        j = j + 1;
    }
    j
}

/// The characters `cs[from..to]`.
pub fn sub_chars(cs: &Vec<char>, from: usize, to: usize) -> (r: Vec<char>)
    requires
        from <= to <= cs.len(),
    ensures
        r@ == cs@.subrange(from as int, to as int),
{
    let mut out: Vec<char> = Vec::new();
    let mut i = from;
    while i < to
        invariant
            from <= i <= to <= cs.len(),
            out@ == cs@.subrange(from as int, i as int),
        decreases to - i,
    {
        out.push(cs[i]);
        i = i + 1;
    }
    out
}

} // verus!
