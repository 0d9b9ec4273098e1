//! Extraction of the attribute values that the targets of a policy compare
//! against. Each match of a rule's target gets a fresh random key: the value
//! it held is returned under that key, and the key's text takes its place in
//! the policy, so that the value can be supplied separately (for instance
//! encrypted) and found again by its key.

use vstd::prelude::*;
use crate::lexical::{trim, trim_ws};
use crate::xacml_types::{
    opt_string_view, AllOfType, AnyOfType, TargetType, AttributeValueType, AttributeValueWithId, Loadout, MatchContent47Type,
    MatchType, PolicyContent41Type, PolicySetContent31Type, PolicySetType, PolicyType, RuleType,
};

verus! {

// ------------------------------------------------------------------
// Keys
// ------------------------------------------------------------------

/// The hexadecimal digit of a value below sixteen, in lower case.
pub open spec fn hex_digit(d: int) -> char {
    if d < 10 {
        (48 + d) as char
    } else {
        (87 + d) as char
    }
}

/// The `i`-th hexadecimal digit of `k`, most significant first.
pub open spec fn key_nibble(k: u128, i: int) -> int {
    ((k >> ((124 - 4 * i) as u128)) & 15u128) as int
}

/// The number of hyphens that come before position `j` of a key's text.
pub open spec fn hyphens_before(j: int) -> int {
    (if j > 8 { 1int } else { 0int }) + (if j > 13 { 1int } else { 0int }) + (if j > 18 { 1int } else { 0int }) + (
    if j > 23 {
        1int
    } else {
        0int
    })
}

/// The text of a key: its 32 hexadecimal digits, most significant first,
/// in groups of 8, 4, 4, 4 and 12 separated by hyphens.
pub open spec fn key_text(k: u128) -> Seq<char> {
    Seq::new(
        36,
        |j: int|
            if j == 8 || j == 13 || j == 18 || j == 23 {
                '-'
            } else {
                hex_digit(key_nibble(k, j - hyphens_before(j)))
            },
    )
}

proof fn lemma_hex_digit_injective(x: int, y: int)
    requires
        0 <= x < 16,
        0 <= y < 16,
        hex_digit(x) == hex_digit(y),
    ensures
        x == y,
{
}

/// Distinct keys have distinct texts: a key's text determines the key.
pub proof fn lemma_key_text_injective(a: u128, b: u128)
    requires
        key_text(a) == key_text(b),
    ensures
        a == b,
{
    assert forall|i: int| 0 <= i < 32 implies key_nibble(a, i) == key_nibble(b, i) by {
        let j = i + (if i >= 8 { 1int } else { 0int }) + (if i >= 12 { 1int } else { 0int }) + (if i >= 16 {
            1int
        } else {
            0int
        }) + (if i >= 20 { 1int } else { 0int });
        assert(j - hyphens_before(j) == i);
        assert(0 <= j < 36 && !(j == 8 || j == 13 || j == 18 || j == 23));
        assert(key_text(a)[j] == hex_digit(key_nibble(a, i)));
        assert(key_text(b)[j] == hex_digit(key_nibble(b, i)));
        assert(key_text(a)[j] == key_text(b)[j]);
        let sa = (124 - 4 * i) as u128;
        assert(0 <= key_nibble(a, i) < 16) by {
            let x = a >> sa;
            assert(x & 15u128 <= 15u128) by (bit_vector);
        }
        assert(0 <= key_nibble(b, i) < 16) by {
            let x = b >> sa;
            assert(x & 15u128 <= 15u128) by (bit_vector);
        }
        lemma_hex_digit_injective(key_nibble(a, i), key_nibble(b, i));
    }
        assert(key_nibble(a, 0) == key_nibble(b, 0));
        assert(key_nibble(a, 1) == key_nibble(b, 1));
        assert(key_nibble(a, 2) == key_nibble(b, 2));
        assert(key_nibble(a, 3) == key_nibble(b, 3));
        assert(key_nibble(a, 4) == key_nibble(b, 4));
        assert(key_nibble(a, 5) == key_nibble(b, 5));
        assert(key_nibble(a, 6) == key_nibble(b, 6));
        assert(key_nibble(a, 7) == key_nibble(b, 7));
        assert(key_nibble(a, 8) == key_nibble(b, 8));
        assert(key_nibble(a, 9) == key_nibble(b, 9));
        assert(key_nibble(a, 10) == key_nibble(b, 10));
        assert(key_nibble(a, 11) == key_nibble(b, 11));
        assert(key_nibble(a, 12) == key_nibble(b, 12));
        assert(key_nibble(a, 13) == key_nibble(b, 13));
        assert(key_nibble(a, 14) == key_nibble(b, 14));
        assert(key_nibble(a, 15) == key_nibble(b, 15));
        assert(key_nibble(a, 16) == key_nibble(b, 16));
        assert(key_nibble(a, 17) == key_nibble(b, 17));
        assert(key_nibble(a, 18) == key_nibble(b, 18));
        assert(key_nibble(a, 19) == key_nibble(b, 19));
        assert(key_nibble(a, 20) == key_nibble(b, 20));
        assert(key_nibble(a, 21) == key_nibble(b, 21));
        assert(key_nibble(a, 22) == key_nibble(b, 22));
        assert(key_nibble(a, 23) == key_nibble(b, 23));
        assert(key_nibble(a, 24) == key_nibble(b, 24));
        assert(key_nibble(a, 25) == key_nibble(b, 25));
        assert(key_nibble(a, 26) == key_nibble(b, 26));
        assert(key_nibble(a, 27) == key_nibble(b, 27));
        assert(key_nibble(a, 28) == key_nibble(b, 28));
        assert(key_nibble(a, 29) == key_nibble(b, 29));
        assert(key_nibble(a, 30) == key_nibble(b, 30));
        assert(key_nibble(a, 31) == key_nibble(b, 31));
    assert(a == b) by (bit_vector)
        requires
                (a >> 124u128) & 15u128 == (b >> 124u128) & 15u128,
                (a >> 120u128) & 15u128 == (b >> 120u128) & 15u128,
                (a >> 116u128) & 15u128 == (b >> 116u128) & 15u128,
                (a >> 112u128) & 15u128 == (b >> 112u128) & 15u128,
                (a >> 108u128) & 15u128 == (b >> 108u128) & 15u128,
                (a >> 104u128) & 15u128 == (b >> 104u128) & 15u128,
                (a >> 100u128) & 15u128 == (b >> 100u128) & 15u128,
                (a >> 96u128) & 15u128 == (b >> 96u128) & 15u128,
                (a >> 92u128) & 15u128 == (b >> 92u128) & 15u128,
                (a >> 88u128) & 15u128 == (b >> 88u128) & 15u128,
                (a >> 84u128) & 15u128 == (b >> 84u128) & 15u128,
                (a >> 80u128) & 15u128 == (b >> 80u128) & 15u128,
                (a >> 76u128) & 15u128 == (b >> 76u128) & 15u128,
                (a >> 72u128) & 15u128 == (b >> 72u128) & 15u128,
                (a >> 68u128) & 15u128 == (b >> 68u128) & 15u128,
                (a >> 64u128) & 15u128 == (b >> 64u128) & 15u128,
                (a >> 60u128) & 15u128 == (b >> 60u128) & 15u128,
                (a >> 56u128) & 15u128 == (b >> 56u128) & 15u128,
                (a >> 52u128) & 15u128 == (b >> 52u128) & 15u128,
                (a >> 48u128) & 15u128 == (b >> 48u128) & 15u128,
                (a >> 44u128) & 15u128 == (b >> 44u128) & 15u128,
                (a >> 40u128) & 15u128 == (b >> 40u128) & 15u128,
                (a >> 36u128) & 15u128 == (b >> 36u128) & 15u128,
                (a >> 32u128) & 15u128 == (b >> 32u128) & 15u128,
                (a >> 28u128) & 15u128 == (b >> 28u128) & 15u128,
                (a >> 24u128) & 15u128 == (b >> 24u128) & 15u128,
                (a >> 20u128) & 15u128 == (b >> 20u128) & 15u128,
                (a >> 16u128) & 15u128 == (b >> 16u128) & 15u128,
                (a >> 12u128) & 15u128 == (b >> 12u128) & 15u128,
                (a >> 8u128) & 15u128 == (b >> 8u128) & 15u128,
                (a >> 4u128) & 15u128 == (b >> 4u128) & 15u128,
                (a >> 0u128) & 15u128 == (b >> 0u128) & 15u128,
    ;
}

/// A fresh random key: the value of `uuid::Uuid::new_v4`. Being random, it
/// is stated of it only what that function always sets: the version nibble
/// 4 and the variant bits `10`.
#[verifier::external_body]
pub(crate) fn fresh_key() -> (r: u128)
    ensures
        (r >> 76u128) & 15u128 == 4u128,
        (r >> 62u128) & 3u128 == 2u128,
{
    uuid::Uuid::new_v4().as_u128()
}

/// A key in the shape of a random (version 4) key: version nibble 4,
/// variant bits `10`.
pub open spec fn v4_shaped(k: u128) -> bool {
    (k >> 76u128) & 15u128 == 4u128 && (k >> 62u128) & 3u128 == 2u128
}

/// The `x`-th spare key in the shape of a random key: `x` spread over the
/// bits that the version and variant leave free.
pub open spec fn spare_key(x: u128) -> u128 {
    0x0000_0000_0000_4000_8000_0000_0000_0000u128 | ((x >> 62u128) << 64u128) | (x & 0x3fff_ffff_ffff_ffffu128)
}

proof fn lemma_spare_key(x: u128, y: u128)
    requires
        x < 0x100_0000_0000_0000_0000u128,
        y < 0x100_0000_0000_0000_0000u128,
    ensures
        v4_shaped(spare_key(x)),
        spare_key(x) == spare_key(y) ==> x == y,
{
    assert((spare_key(x) >> 76u128) & 15u128 == 4u128 && (spare_key(x) >> 62u128) & 3u128 == 2u128) by (bit_vector)
        requires
            x < 0x100_0000_0000_0000_0000u128,
    ;
    assert(spare_key(x) == spare_key(y) ==> x == y) by (bit_vector)
        requires
            x < 0x100_0000_0000_0000_0000u128,
            y < 0x100_0000_0000_0000_0000u128,
    ;
}

/// Whether `k` is among `used`.
fn key_used(used: &Vec<u128>, k: u128) -> (r: bool)
    ensures
        r == used@.contains(k),
{
    let mut i: usize = 0;
    while i < used.len()
        invariant
            i <= used.len(),
            forall|j: int| 0 <= j < i ==> used@[j] != k,
        decreases used.len() - i,
    {
        if used[i] == k {
            assert(used@[i as int] == k);
            return true;
        }
        i = i + 1;
    }
    false
}

proof fn lemma_pigeonhole(t: Seq<u128>, s: Seq<u128>)
    requires
        t.no_duplicates(),
        forall|i: int| 0 <= i < t.len() ==> s.contains(#[trigger] t[i]),
    ensures
        t.len() <= s.len(),
{
    broadcast use vstd::seq_lib::seq_to_set_is_finite;
    t.unique_seq_to_set();
    s.lemma_cardinality_of_set();
    assert forall|x: u128| t.to_set().contains(x) implies s.to_set().contains(x) by {
        let i = choose|i: int| 0 <= i < t.len() && t[i] == x;
        assert(s.contains(t[i]));
    }
    vstd::set_lib::lemma_len_subset(t.to_set(), s.to_set());
}

/// A fresh key that is none of `used`: a random key (the value of
/// `uuid::Uuid::new_v4`) where it is new, and otherwise the first spare key
/// in the same shape that is new.
pub(crate) fn fresh_key_avoiding(used: &Vec<u128>) -> (r: u128)
    ensures
        !used@.contains(r),
        v4_shaped(r),
{
    let k = fresh_key();
    if !key_used(used, k) {
        return k;
    }
    let n: u128 = used.len() as u128;
    assert(n <= 0xffff_ffff_ffff_ffffu128);
    let mut x: u128 = 0;
    while x <= n
        invariant
            n == used@.len(),
            n <= 0xffff_ffff_ffff_ffffu128,
            x <= n + 1,
            forall|j: u128| j < x ==> used@.contains(#[trigger] spare_key(j)),
        decreases n + 1 - x,
    {
        let c = 0x0000_0000_0000_4000_8000_0000_0000_0000u128 | ((x >> 62u128) << 64u128) | (x & 0x3fff_ffff_ffff_ffffu128);
        assert(c == spare_key(x));
        if !key_used(used, c) {
            proof {
                lemma_spare_key(x, x);
            }
            return c;
        }
        x = x + 1;
    }
    proof {
        let t = Seq::new((n + 1) as nat, |j: int| spare_key(j as u128));
        assert forall|i: int, j: int| 0 <= i < t.len() && 0 <= j < t.len() && i != j implies t[i] != t[j] by {
            lemma_spare_key(i as u128, j as u128);
        }
        assert forall|i: int| 0 <= i < t.len() implies used@.contains(#[trigger] t[i]) by {
            assert(used@.contains(spare_key(i as u128)));
        }
        lemma_pigeonhole(t, used@);
    }
    0
}

/// The text of a key: `uuid::Uuid::from_u128(k).to_string()`, which writes
/// the hyphenated lower-case form.
#[verifier::external_body]
pub(crate) fn key_string(k: u128) -> (r: String)
    ensures
        r@ == key_text(k),
{
    uuid::Uuid::from_u128(k).to_string()
}

// ------------------------------------------------------------------
// The model of extracted values
// ------------------------------------------------------------------

/// The view of an extracted value: its rule, its attribute, its data type
/// and its text.
pub open spec fn entry_view(e: AttributeValueWithId) -> (Seq<char>, Seq<char>, Seq<char>, Option<Seq<char>>) {
    (e.rule_id@, e.id@, e.att_val.data_type@, opt_string_view(e.att_val.text))
}

/// The views of extracted values, in order.
pub open spec fn entries(r: Seq<(u128, AttributeValueWithId)>) -> Seq<(Seq<char>, Seq<char>, Seq<char>, Option<Seq<char>>)> {
    r.map_values(|p: (u128, AttributeValueWithId)| entry_view(p.1))
}

/// The keys of extracted values, in order.
pub open spec fn keys(r: Seq<(u128, AttributeValueWithId)>) -> Seq<u128> {
    r.map_values(|p: (u128, AttributeValueWithId)| p.0)
}

/// The texts that keys leave in a policy.
pub open spec fn key_texts(ks: Seq<u128>) -> Seq<Option<Seq<char>>> {
    ks.map_values(|k: u128| Some(key_text(k)))
}

/// The texts of the attribute values of matches, in order.
pub open spec fn match_texts(ms: Seq<MatchType>) -> Seq<Option<Seq<char>>> {
    ms.map_values(|m: MatchType| opt_string_view(m.attribute_value.text))
}

/// The trimmed form of an optional text.
pub open spec fn trimmed_text(t: Option<String>) -> Option<Seq<char>> {
    match t {
        Some(s) => Some(trim_ws(s@)),
        None => None,
    }
}

/// The attribute a match refers to: the designated attribute, or the
/// context selector of an attribute selector.
pub open spec fn match_attribute(m: MatchType) -> Seq<char> {
    match m.content_47 {
        MatchContent47Type::AttributeDesignator(d) => d.attribute_id@,
        MatchContent47Type::AttributeSelector(s) => match s.context_selector_id {
            Some(c) => c@,
            None => Seq::empty(),
        },
    }
}

/// The value extracted from a match, before its rule is known.
pub open spec fn match_entry(m: MatchType) -> (Seq<char>, Seq<char>, Seq<char>, Option<Seq<char>>) {
    (Seq::empty(), match_attribute(m), m.attribute_value.data_type@, trimmed_text(m.attribute_value.text))
}

/// The values extracted from matches, in order.
pub open spec fn match_entries(ms: Seq<MatchType>) -> Seq<(Seq<char>, Seq<char>, Seq<char>, Option<Seq<char>>)> {
    ms.map_values(|m: MatchType| match_entry(m))
}

/// An attribute selector of a match names its context selector.
pub open spec fn selector_named(m: MatchType) -> bool {
    m.content_47 matches MatchContent47Type::AttributeSelector(s) ==> s.context_selector_id is Some
}

/// Two matches agree but for the text of their attribute value.
pub open spec fn same_but_text(a: MatchType, b: MatchType) -> bool {
    &&& a.match_id == b.match_id
    &&& a.content_47 == b.content_47
    &&& a.attribute_value.data_type == b.attribute_value.data_type
}

/// Two sequences of matches agree but for their texts.
pub open spec fn same_matches(a: Seq<MatchType>, b: Seq<MatchType>) -> bool {
    a.len() == b.len() && forall|i: int| 0 <= i < a.len() ==> same_but_text(#[trigger] a[i], b[i])
}

/// Every attribute selector among `ms` names its context selector.
pub open spec fn matches_named(ms: Seq<MatchType>) -> bool {
    forall|i: int| 0 <= i < ms.len() ==> selector_named(#[trigger] ms[i])
}

impl MatchType {
    /// Extracts the attribute value of this match under a fresh key, and
    /// writes the key's text in its place.
    pub fn drill_for_attributes_values_and_transform_values(&mut self) -> (r: (u128, AttributeValueWithId))
        requires
            selector_named(*old(self)),
        ensures
            entry_view(r.1) == match_entry(*old(self)),
            same_but_text(*old(self), *final(self)),
            opt_string_view(final(self).attribute_value.text) == Some(key_text(r.0)),
            v4_shaped(r.0),
    {
        let mut used: Vec<u128> = Vec::new();
        let r = self.drill_avoiding(&mut used);
        r
    }

    /// The same extraction, drawing each key so that it is none of `used`
    /// nor of the keys drawn before it, and adding the keys drawn to `used`.
    fn drill_avoiding(&mut self, used: &mut Vec<u128>) -> (r: (u128, AttributeValueWithId))
        requires
            selector_named(*old(self)),
            old(used)@.no_duplicates(),
        ensures
            entry_view(r.1) == match_entry(*old(self)),
            same_but_text(*old(self), *final(self)),
            opt_string_view(final(self).attribute_value.text) == Some(key_text(r.0)),
            final(used)@ == old(used)@.push(r.0),
            final(used)@.no_duplicates(),
            v4_shaped(r.0),
    {
        let ghost used0 = used@;
        let key = fresh_key_avoiding(used);
        let text = match &self.attribute_value.text {
            Some(t) => Some(trim(t.as_str())),
            None => None,
        };
        let id = match &self.content_47 {
            MatchContent47Type::AttributeDesignator(d) => d.attribute_id.clone(),
            MatchContent47Type::AttributeSelector(s) => match &s.context_selector_id {
                Some(c) => c.clone(),
                None => String::new(),
            },
        };
        let entry = AttributeValueWithId {
            rule_id: String::new(),
            id,
            att_val: AttributeValueType { data_type: self.attribute_value.data_type.clone(), text },
        };
        self.attribute_value.text = Some(key_string(key));
        used.push(key);
        proof {
            assert forall|a: int, b: int| 0 <= a < b < used@.len() implies used@[a] != used@[b] by {
                if b == used0.len() {
                    assert(used0.contains(used0[a]));
                }
            }
        }
        (key, entry)
    }
}

impl AllOfType {
    /// Extracts the attribute values of the matches of this conjunction, in
    /// order, each under a fresh key.
    pub fn drill_for_attributes_values_and_transform_values(&mut self) -> (r: Vec<(u128, AttributeValueWithId)>)
        requires
            matches_named(old(self).content@),
        ensures
            entries(r@) == match_entries(old(self).content@),
            same_matches(old(self).content@, final(self).content@),
            match_texts(final(self).content@) == key_texts(keys(r@)),
            keys(r@).no_duplicates(),
    {
        let mut used: Vec<u128> = Vec::new();
        let r = self.drill_avoiding(&mut used);
        proof {
            assert(used@ =~= keys(r@));
        }
        r
    }

    /// The same extraction, drawing each key so that it is none of `used`
    /// nor of the keys drawn before it, and adding the keys drawn to `used`.
    fn drill_avoiding(&mut self, used: &mut Vec<u128>) -> (r: Vec<(u128, AttributeValueWithId)>)
        requires
            matches_named(old(self).content@),
            old(used)@.no_duplicates(),
        ensures
            entries(r@) == match_entries(old(self).content@),
            same_matches(old(self).content@, final(self).content@),
            match_texts(final(self).content@) == key_texts(keys(r@)),
            final(used)@ == old(used)@ + keys(r@),
            final(used)@.no_duplicates(),
    {
        let ghost used0 = used@;
        let ghost before = self.content@;
        let mut out: Vec<(u128, AttributeValueWithId)> = Vec::new();
        let mut i: usize = 0;
        while i < self.content.len()
            invariant
                i <= self.content.len(),
                self.content@.len() == before.len(),
                matches_named(before),
                forall|j: int| i <= j < before.len() ==> self.content@[j] == before[j],
                forall|j: int| 0 <= j < i ==> same_but_text(#[trigger] before[j], self.content@[j]),
                entries(out@) =~= match_entries(before.take(i as int)),
                match_texts(self.content@.take(i as int)) =~= key_texts(keys(out@)),
                used@ == used0 + keys(out@),
                used@.no_duplicates(),
            decreases self.content.len() - i,
        {
            assert(selector_named(before[i as int]));
            let ghost out0 = out@;
            let ghost cur0 = self.content@;
            let p = self.content[i].drill_avoiding(used);
            out.push(p);
            proof {
                assert(before.take(i + 1) =~= before.take(i as int).push(before[i as int]));
                assert(self.content@.take(i as int) =~= cur0.take(i as int));
                assert(self.content@.take(i + 1) =~= self.content@.take(i as int).push(self.content@[i as int]));
                assert(entries(out@) =~= entries(out0).push(entry_view(p.1)));
                assert(keys(out@) =~= keys(out0).push(p.0));
                assert(match_entries(before.take(i + 1)) =~= match_entries(before.take(i as int)).push(
                    match_entry(before[i as int]),
                ));
                assert(match_texts(self.content@.take(i + 1)) =~= match_texts(self.content@.take(i as int)).push(
                    opt_string_view(self.content@[i as int].attribute_value.text),
                ));
                assert(key_texts(keys(out@)) =~= key_texts(keys(out0)).push(Some(key_text(p.0))));
            }
            proof {
                assert(used@ =~= used0 + keys(out@));
            }
            i = i + 1;
        }
        assert(before.take(before.len() as int) =~= before);
        assert(self.content@.take(self.content@.len() as int) =~= self.content@);
        out
    }
}

/// The matches of conjunctions, in order.
pub open spec fn all_of_matches(s: Seq<AllOfType>) -> Seq<MatchType>
    decreases s.len(),
{
    if s.len() == 0 {
        Seq::empty()
    } else {
        all_of_matches(s.drop_last()) + s.last().content@
    }
}

/// Two sequences of conjunctions agree but for the texts of their matches.
pub open spec fn same_all_ofs(a: Seq<AllOfType>, b: Seq<AllOfType>) -> bool {
    a.len() == b.len() && forall|i: int| 0 <= i < a.len() ==> same_matches((#[trigger] a[i]).content@, b[i].content@)
}

/// Every attribute selector in the conjunctions `s` names its context selector.
pub open spec fn all_ofs_named(s: Seq<AllOfType>) -> bool {
    forall|i: int| 0 <= i < s.len() ==> matches_named((#[trigger] s[i]).content@)
}

proof fn lemma_extend(
    out0: Seq<(u128, AttributeValueWithId)>,
    more: Seq<(u128, AttributeValueWithId)>,
)
    ensures
        entries(out0 + more) =~= entries(out0) + entries(more),
        keys(out0 + more) =~= keys(out0) + keys(more),
        key_texts(keys(out0) + keys(more)) =~= key_texts(keys(out0)) + key_texts(keys(more)),
{
}

proof fn lemma_matches_concat(a: Seq<MatchType>, b: Seq<MatchType>)
    ensures
        match_entries(a + b) =~= match_entries(a) + match_entries(b),
        match_texts(a + b) =~= match_texts(a) + match_texts(b),
{
}

impl AnyOfType {
    /// Extracts the attribute values of the matches of this disjunction, in
    /// order, each under a fresh key.
    pub fn drill_for_attributes_values_and_transform_values(&mut self) -> (r: Vec<(u128, AttributeValueWithId)>)
        requires
            all_ofs_named(old(self).content@),
        ensures
            entries(r@) == match_entries(all_of_matches(old(self).content@)),
            same_all_ofs(old(self).content@, final(self).content@),
            match_texts(all_of_matches(final(self).content@)) == key_texts(keys(r@)),
            keys(r@).no_duplicates(),
    {
        let mut used: Vec<u128> = Vec::new();
        let r = self.drill_avoiding(&mut used);
        proof {
            assert(used@ =~= keys(r@));
        }
        r
    }

    /// The same extraction, drawing each key so that it is none of `used`
    /// nor of the keys drawn before it, and adding the keys drawn to `used`.
    fn drill_avoiding(&mut self, used: &mut Vec<u128>) -> (r: Vec<(u128, AttributeValueWithId)>)
        requires
            all_ofs_named(old(self).content@),
            old(used)@.no_duplicates(),
        ensures
            entries(r@) == match_entries(all_of_matches(old(self).content@)),
            same_all_ofs(old(self).content@, final(self).content@),
            match_texts(all_of_matches(final(self).content@)) == key_texts(keys(r@)),
            final(used)@ == old(used)@ + keys(r@),
            final(used)@.no_duplicates(),
    {
        let ghost used0 = used@;
        let ghost before = self.content@;
        let mut out: Vec<(u128, AttributeValueWithId)> = Vec::new();
        let mut i: usize = 0;
        while i < self.content.len()
            invariant
                i <= self.content.len(),
                self.content@.len() == before.len(),
                all_ofs_named(before),
                forall|j: int| i <= j < before.len() ==> self.content@[j] == before[j],
                forall|j: int| 0 <= j < i ==> same_matches((#[trigger] before[j]).content@, self.content@[j].content@),
                entries(out@) =~= match_entries(all_of_matches(before.take(i as int))),
                match_texts(all_of_matches(self.content@.take(i as int))) =~= key_texts(keys(out@)),
                used@ == used0 + keys(out@),
                used@.no_duplicates(),
            decreases self.content.len() - i,
        {
            assert(matches_named(before[i as int].content@));
            let ghost out0 = out@;
            let ghost cur0 = self.content@;
            let mut more = self.content[i].drill_avoiding(used);
            let ghost more0 = more@;
            out.append(&mut more);
            proof {
                assert(before.take(i + 1).drop_last() =~= before.take(i as int));
                assert(self.content@.take(i as int) =~= cur0.take(i as int));
                assert(self.content@.take(i + 1).drop_last() =~= self.content@.take(i as int));
                lemma_extend(out0, more0);
                lemma_matches_concat(all_of_matches(before.take(i as int)), before[i as int].content@);
                lemma_matches_concat(all_of_matches(self.content@.take(i as int)), self.content@[i as int].content@);
            }
            proof {
                assert(used@ =~= used0 + keys(out@));
            }
            i = i + 1;
        }
        assert(before.take(before.len() as int) =~= before);
        assert(self.content@.take(self.content@.len() as int) =~= self.content@);
        out
    }
}

/// The matches of disjunctions, in order.
pub open spec fn any_of_matches(s: Seq<AnyOfType>) -> Seq<MatchType>
    decreases s.len(),
{
    if s.len() == 0 {
        Seq::empty()
    } else {
        any_of_matches(s.drop_last()) + all_of_matches(s.last().content@)
    }
}

/// Two sequences of disjunctions agree but for the texts of their matches.
pub open spec fn same_any_ofs(a: Seq<AnyOfType>, b: Seq<AnyOfType>) -> bool {
    a.len() == b.len() && forall|i: int| 0 <= i < a.len() ==> same_all_ofs((#[trigger] a[i]).content@, b[i].content@)
}

/// Every attribute selector in the disjunctions `s` names its context selector.
pub open spec fn any_ofs_named(s: Seq<AnyOfType>) -> bool {
    forall|i: int| 0 <= i < s.len() ==> all_ofs_named((#[trigger] s[i]).content@)
}

impl TargetType {
    /// Extracts the attribute values of the matches of this target, in
    /// order, each under a fresh key.
    pub fn drill_for_attributes_values_and_transform_values(&mut self) -> (r: Vec<(u128, AttributeValueWithId)>)
        requires
            any_ofs_named(old(self).content@),
        ensures
            entries(r@) == match_entries(any_of_matches(old(self).content@)),
            same_any_ofs(old(self).content@, final(self).content@),
            match_texts(any_of_matches(final(self).content@)) == key_texts(keys(r@)),
            keys(r@).no_duplicates(),
    {
        let mut used: Vec<u128> = Vec::new();
        let r = self.drill_avoiding(&mut used);
        proof {
            assert(used@ =~= keys(r@));
        }
        r
    }

    /// The same extraction, drawing each key so that it is none of `used`
    /// nor of the keys drawn before it, and adding the keys drawn to `used`.
    fn drill_avoiding(&mut self, used: &mut Vec<u128>) -> (r: Vec<(u128, AttributeValueWithId)>)
        requires
            any_ofs_named(old(self).content@),
            old(used)@.no_duplicates(),
        ensures
            entries(r@) == match_entries(any_of_matches(old(self).content@)),
            same_any_ofs(old(self).content@, final(self).content@),
            match_texts(any_of_matches(final(self).content@)) == key_texts(keys(r@)),
            final(used)@ == old(used)@ + keys(r@),
            final(used)@.no_duplicates(),
    {
        let ghost used0 = used@;
        let ghost before = self.content@;
        let mut out: Vec<(u128, AttributeValueWithId)> = Vec::new();
        let mut i: usize = 0;
        while i < self.content.len()
            invariant
                i <= self.content.len(),
                self.content@.len() == before.len(),
                any_ofs_named(before),
                forall|j: int| i <= j < before.len() ==> self.content@[j] == before[j],
                forall|j: int| 0 <= j < i ==> same_all_ofs((#[trigger] before[j]).content@, self.content@[j].content@),
                entries(out@) =~= match_entries(any_of_matches(before.take(i as int))),
                match_texts(any_of_matches(self.content@.take(i as int))) =~= key_texts(keys(out@)),
                used@ == used0 + keys(out@),
                used@.no_duplicates(),
            decreases self.content.len() - i,
        {
            assert(all_ofs_named(before[i as int].content@));
            let ghost out0 = out@;
            let ghost cur0 = self.content@;
            let mut more = self.content[i].drill_avoiding(used);
            let ghost more0 = more@;
            out.append(&mut more);
            proof {
                assert(before.take(i + 1).drop_last() =~= before.take(i as int));
                assert(self.content@.take(i as int) =~= cur0.take(i as int));
                assert(self.content@.take(i + 1).drop_last() =~= self.content@.take(i as int));
                lemma_extend(out0, more0);
                lemma_matches_concat(any_of_matches(before.take(i as int)), all_of_matches(before[i as int].content@));
                lemma_matches_concat(
                    any_of_matches(self.content@.take(i as int)),
                    all_of_matches(self.content@[i as int].content@),
                );
            }
            proof {
                assert(used@ =~= used0 + keys(out@));
            }
            i = i + 1;
        }
        assert(before.take(before.len() as int) =~= before);
        assert(self.content@.take(self.content@.len() as int) =~= self.content@);
        out
    }
}

/// The matches in the target of a rule, in order.
pub open spec fn rule_matches(r: RuleType) -> Seq<MatchType> {
    match r.target {
        Some(t) => any_of_matches(t.content@),
        None => Seq::empty(),
    }
}

/// The values extracted from a rule: those of its target's matches, under
/// the rule's trimmed identifier.
pub open spec fn rule_entries(r: RuleType) -> Seq<(Seq<char>, Seq<char>, Seq<char>, Option<Seq<char>>)> {
    match_entries(rule_matches(r)).map_values(
        |e: (Seq<char>, Seq<char>, Seq<char>, Option<Seq<char>>)| (trim_ws(r.rule_id@), e.1, e.2, e.3),
    )
}

/// Two rules agree but for the texts of their matches.
pub open spec fn same_rule(a: RuleType, b: RuleType) -> bool {
    &&& a.rule_id == b.rule_id
    &&& a.effect == b.effect
    &&& match (a.target, b.target) {
        (Some(x), Some(y)) => same_any_ofs(x.content@, y.content@),
        (None, None) => true,
        _ => false,
    }
}

/// Every attribute selector in the target of a rule names its context selector.
pub open spec fn rule_named(r: RuleType) -> bool {
    match r.target {
        Some(t) => any_ofs_named(t.content@),
        None => true,
    }
}

/// The same extracted values under another rule identifier.
fn with_rule_id(v: Vec<(u128, AttributeValueWithId)>, rid: &String) -> (r: Vec<(u128, AttributeValueWithId)>)
    ensures
        keys(r@) == keys(v@),
        entries(r@) == entries(v@).map_values(
            |e: (Seq<char>, Seq<char>, Seq<char>, Option<Seq<char>>)| (rid@, e.1, e.2, e.3),
        ),
{
    let mut out: Vec<(u128, AttributeValueWithId)> = Vec::new();
    let mut i: usize = 0;
    while i < v.len()
        invariant
            i <= v.len(),
            out.len() == i,
            forall|j: int| 0 <= j < i ==> (#[trigger] out@[j]).0 == v@[j].0 && entry_view(out@[j].1) == (
            rid@,
            entry_view(v@[j].1).1,
            entry_view(v@[j].1).2,
            entry_view(v@[j].1).3,
            ),
        decreases v.len() - i,
    {
        let e = AttributeValueWithId {
            rule_id: rid.clone(),
            id: v[i].1.id.clone(),
            att_val: v[i].1.att_val.get_copy(),
        };
        out.push((v[i].0, e));
        i = i + 1;
    }
    assert(keys(out@) =~= keys(v@));
    assert(entries(out@) =~= entries(v@).map_values(
        |e: (Seq<char>, Seq<char>, Seq<char>, Option<Seq<char>>)| (rid@, e.1, e.2, e.3),
    ));
    out
}

impl RuleType {
    /// Extracts the attribute values of the matches in this rule's target,
    /// in order, each under a fresh key and this rule's trimmed identifier.
    pub fn drill_for_attributes_values_and_transform_values(&mut self) -> (r: Vec<(u128, AttributeValueWithId)>)
        requires
            rule_named(*old(self)),
        ensures
            entries(r@) == rule_entries(*old(self)),
            same_rule(*old(self), *final(self)),
            match_texts(rule_matches(*final(self))) == key_texts(keys(r@)),
            keys(r@).no_duplicates(),
    {
        let mut used: Vec<u128> = Vec::new();
        let r = self.drill_avoiding(&mut used);
        proof {
            assert(used@ =~= keys(r@));
        }
        r
    }

    /// The same extraction, drawing each key so that it is none of `used`
    /// nor of the keys drawn before it, and adding the keys drawn to `used`.
    fn drill_avoiding(&mut self, used: &mut Vec<u128>) -> (r: Vec<(u128, AttributeValueWithId)>)
        requires
            rule_named(*old(self)),
            old(used)@.no_duplicates(),
        ensures
            entries(r@) == rule_entries(*old(self)),
            same_rule(*old(self), *final(self)),
            match_texts(rule_matches(*final(self))) == key_texts(keys(r@)),
            final(used)@ == old(used)@ + keys(r@),
            final(used)@.no_duplicates(),
    {
        let ghost used0 = used@;
        let found = match &mut self.target {
            Some(t) => t.drill_avoiding(used),
            None => Vec::new(),
        };
        let rid = trim(self.rule_id.as_str());
        with_rule_id(found, &rid)
    }
}

/// The matches in the target of a policy element that is a rule.
pub open spec fn content_matches(c: PolicyContent41Type) -> Seq<MatchType> {
    match c {
        PolicyContent41Type::Rule(r) => rule_matches(r),
        _ => Seq::empty(),
    }
}

/// The values extracted from a policy element that is a rule.
pub open spec fn content_entries(c: PolicyContent41Type) -> Seq<(Seq<char>, Seq<char>, Seq<char>, Option<Seq<char>>)> {
    match c {
        PolicyContent41Type::Rule(r) => rule_entries(r),
        _ => Seq::empty(),
    }
}

/// The matches in the rule targets among policy elements, in order.
pub open spec fn contents_matches(s: Seq<PolicyContent41Type>) -> Seq<MatchType>
    decreases s.len(),
{
    if s.len() == 0 {
        Seq::empty()
    } else {
        contents_matches(s.drop_last()) + content_matches(s.last())
    }
}

/// The values extracted from the rules among policy elements, in order.
pub open spec fn contents_entries(s: Seq<PolicyContent41Type>) -> Seq<(Seq<char>, Seq<char>, Seq<char>, Option<Seq<char>>)>
    decreases s.len(),
{
    if s.len() == 0 {
        Seq::empty()
    } else {
        contents_entries(s.drop_last()) + content_entries(s.last())
    }
}

/// Two policy elements agree but for the texts of the matches of a rule.
pub open spec fn same_content(a: PolicyContent41Type, b: PolicyContent41Type) -> bool {
    match (a, b) {
        (PolicyContent41Type::Rule(x), PolicyContent41Type::Rule(y)) => same_rule(x, y),
        _ => !(a is Rule) && a == b,
    }
}

/// Two sequences of policy elements agree but for the texts of their rules' matches.
pub open spec fn same_contents(a: Seq<PolicyContent41Type>, b: Seq<PolicyContent41Type>) -> bool {
    a.len() == b.len() && forall|i: int| 0 <= i < a.len() ==> same_content(#[trigger] a[i], b[i])
}

/// Every attribute selector in the rule targets among `s` names its context selector.
pub open spec fn contents_named(s: Seq<PolicyContent41Type>) -> bool {
    forall|i: int| 0 <= i < s.len() ==> (#[trigger] s[i] matches PolicyContent41Type::Rule(r) ==> rule_named(r))
}

impl PolicyContent41Type {
    /// Extracts the attribute values of a rule's target; other elements
    /// hold none.
    pub fn drill_for_attributes_values_and_transform_values(&mut self) -> (r: Vec<(u128, AttributeValueWithId)>)
        requires
            *old(self) matches PolicyContent41Type::Rule(x) ==> rule_named(x),
        ensures
            entries(r@) == content_entries(*old(self)),
            same_content(*old(self), *final(self)),
            match_texts(content_matches(*final(self))) == key_texts(keys(r@)),
            keys(r@).no_duplicates(),
    {
        let mut used: Vec<u128> = Vec::new();
        let r = self.drill_avoiding(&mut used);
        proof {
            assert(used@ =~= keys(r@));
        }
        r
    }

    /// The same extraction, drawing each key so that it is none of `used`
    /// nor of the keys drawn before it, and adding the keys drawn to `used`.
    fn drill_avoiding(&mut self, used: &mut Vec<u128>) -> (r: Vec<(u128, AttributeValueWithId)>)
        requires
            *old(self) matches PolicyContent41Type::Rule(x) ==> rule_named(x),
            old(used)@.no_duplicates(),
        ensures
            entries(r@) == content_entries(*old(self)),
            same_content(*old(self), *final(self)),
            match_texts(content_matches(*final(self))) == key_texts(keys(r@)),
            final(used)@ == old(used)@ + keys(r@),
            final(used)@.no_duplicates(),
    {
        let ghost used0 = used@;
        match self {
            PolicyContent41Type::Rule(x) => x.drill_avoiding(used),
            _ => {
                let r: Vec<(u128, AttributeValueWithId)> = Vec::new();
                assert(entries(r@) =~= Seq::empty());
                assert(key_texts(keys(r@)) =~= Seq::empty());
                r
            },
        }
    }
}

impl PolicyType {
    /// Extracts the attribute values of the matches in the targets of this
    /// policy's rules, in document order, each under a fresh key.
    pub fn drill_for_attributes_values_and_transform_values(&mut self) -> (r: Vec<(u128, AttributeValueWithId)>)
        requires
            contents_named(old(self).content_41@),
        ensures
            entries(r@) == contents_entries(old(self).content_41@),
            final(self).policy_id == old(self).policy_id,
            same_contents(old(self).content_41@, final(self).content_41@),
            match_texts(contents_matches(final(self).content_41@)) == key_texts(keys(r@)),
            keys(r@).no_duplicates(),
    {
        let mut used: Vec<u128> = Vec::new();
        let r = self.drill_avoiding(&mut used);
        proof {
            assert(used@ =~= keys(r@));
        }
        r
    }

    /// The same extraction, drawing each key so that it is none of `used`
    /// nor of the keys drawn before it, and adding the keys drawn to `used`.
    fn drill_avoiding(&mut self, used: &mut Vec<u128>) -> (r: Vec<(u128, AttributeValueWithId)>)
        requires
            contents_named(old(self).content_41@),
            old(used)@.no_duplicates(),
        ensures
            entries(r@) == contents_entries(old(self).content_41@),
            final(self).policy_id == old(self).policy_id,
            same_contents(old(self).content_41@, final(self).content_41@),
            match_texts(contents_matches(final(self).content_41@)) == key_texts(keys(r@)),
            final(used)@ == old(used)@ + keys(r@),
            final(used)@.no_duplicates(),
    {
        let ghost used0 = used@;
        let ghost before = self.content_41@;
        let mut out: Vec<(u128, AttributeValueWithId)> = Vec::new();
        let mut i: usize = 0;
        while i < self.content_41.len()
            invariant
                i <= self.content_41.len(),
                self.content_41@.len() == before.len(),
                self.policy_id == old(self).policy_id,
                before == old(self).content_41@,
                contents_named(before),
                forall|j: int| i <= j < before.len() ==> self.content_41@[j] == before[j],
                forall|j: int| 0 <= j < i ==> same_content(#[trigger] before[j], self.content_41@[j]),
                entries(out@) =~= contents_entries(before.take(i as int)),
                match_texts(contents_matches(self.content_41@.take(i as int))) =~= key_texts(keys(out@)),
                used@ == used0 + keys(out@),
                used@.no_duplicates(),
            decreases self.content_41.len() - i,
        {
            assert(before[i as int] matches PolicyContent41Type::Rule(x) ==> rule_named(x));
            let ghost out0 = out@;
            let ghost cur0 = self.content_41@;
            let mut more = self.content_41[i].drill_avoiding(used);
            let ghost more0 = more@;
            out.append(&mut more);
            proof {
                let f = self.content_41@[i as int];
                assert(before.take(i + 1).drop_last() =~= before.take(i as int));
                assert(self.content_41@.take(i as int) =~= cur0.take(i as int));
                assert(self.content_41@.take(i + 1).drop_last() =~= self.content_41@.take(i as int));
                lemma_extend(out0, more0);
                lemma_matches_concat(contents_matches(self.content_41@.take(i as int)), content_matches(f));
            }
            proof {
                assert(used@ =~= used0 + keys(out@));
            }
            i = i + 1;
        }
        assert(before.take(before.len() as int) =~= before);
        assert(self.content_41@.take(self.content_41@.len() as int) =~= self.content_41@);
        out
    }
}

/// The matches in the rule targets of a policy-set element: those of a
/// policy, or those of a nested policy set.
pub open spec fn set_content_matches(c: PolicySetContent31Type) -> Seq<MatchType>
    decreases c, 0int,
{
    match c {
        PolicySetContent31Type::Policy(p) => contents_matches(p.content_41@),
        PolicySetContent31Type::PolicySet(q) => set_matches_upto(q, q.content_31@.len() as int),
        _ => Seq::empty(),
    }
}

/// The matches in the rule targets of the first `n` elements of a policy set.
pub open spec fn set_matches_upto(ps: PolicySetType, n: int) -> Seq<MatchType>
    decreases ps, n,
{
    if n <= 0 || n > ps.content_31@.len() {
        Seq::empty()
    } else {
        proof {
            assert(decreases_to!(ps => ps.content_31));
            assert(decreases_to!(ps.content_31 => ps.content_31@));
            assert(decreases_to!(ps.content_31@ => ps.content_31@[n - 1]));
        }
        set_matches_upto(ps, n - 1) + set_content_matches(ps.content_31@[n - 1])
    }
}

/// The values extracted from a policy-set element.
pub open spec fn set_content_entries(c: PolicySetContent31Type) -> Seq<(Seq<char>, Seq<char>, Seq<char>, Option<Seq<char>>)>
    decreases c, 0int,
{
    match c {
        PolicySetContent31Type::Policy(p) => contents_entries(p.content_41@),
        PolicySetContent31Type::PolicySet(q) => set_entries_upto(q, q.content_31@.len() as int),
        _ => Seq::empty(),
    }
}

/// The values extracted from the first `n` elements of a policy set.
pub open spec fn set_entries_upto(ps: PolicySetType, n: int) -> Seq<(Seq<char>, Seq<char>, Seq<char>, Option<Seq<char>>)>
    decreases ps, n,
{
    if n <= 0 || n > ps.content_31@.len() {
        Seq::empty()
    } else {
        proof {
            assert(decreases_to!(ps => ps.content_31));
            assert(decreases_to!(ps.content_31 => ps.content_31@));
            assert(decreases_to!(ps.content_31@ => ps.content_31@[n - 1]));
        }
        set_entries_upto(ps, n - 1) + set_content_entries(ps.content_31@[n - 1])
    }
}

/// Two policy-set elements agree but for the texts of their rules' matches.
pub open spec fn same_set_content(x: PolicySetContent31Type, y: PolicySetContent31Type) -> bool
    decreases x, 0int,
{
    match (x, y) {
        (PolicySetContent31Type::Policy(p), PolicySetContent31Type::Policy(p2)) => p.policy_id == p2.policy_id
            && same_contents(p.content_41@, p2.content_41@),
        (PolicySetContent31Type::PolicySet(q), PolicySetContent31Type::PolicySet(q2)) => q.policy_set_id
            == q2.policy_set_id && q.content_31@.len() == q2.content_31@.len() && same_set_upto(
            q,
            q2,
            q.content_31@.len() as int,
        ),
        _ => !(x is Policy) && !(x is PolicySet) && x == y,
    }
}

/// The first `n` elements of two policy sets agree but for the texts of
/// their rules' matches.
pub open spec fn same_set_upto(a: PolicySetType, b: PolicySetType, n: int) -> bool
    decreases a, n,
{
    if n <= 0 || n > a.content_31@.len() {
        true
    } else {
        proof {
            assert(decreases_to!(a => a.content_31));
            assert(decreases_to!(a.content_31 => a.content_31@));
            assert(decreases_to!(a.content_31@ => a.content_31@[n - 1]));
        }
        same_set_content(a.content_31@[n - 1], b.content_31@[n - 1]) && same_set_upto(a, b, n - 1)
    }
}

/// Every attribute selector in the rule targets of a policy-set element
/// names its context selector.
pub open spec fn set_content_named(c: PolicySetContent31Type) -> bool
    decreases c, 0int,
{
    match c {
        PolicySetContent31Type::Policy(p) => contents_named(p.content_41@),
        PolicySetContent31Type::PolicySet(q) => set_named_upto(q, q.content_31@.len() as int),
        _ => true,
    }
}

/// Every attribute selector in the rule targets of the first `n` elements
/// of a policy set names its context selector.
pub open spec fn set_named_upto(ps: PolicySetType, n: int) -> bool
    decreases ps, n,
{
    if n <= 0 || n > ps.content_31@.len() {
        true
    } else {
        proof {
            assert(decreases_to!(ps => ps.content_31));
            assert(decreases_to!(ps.content_31 => ps.content_31@));
            assert(decreases_to!(ps.content_31@ => ps.content_31@[n - 1]));
        }
        set_content_named(ps.content_31@[n - 1]) && set_named_upto(ps, n - 1)
    }
}

proof fn lemma_named_at(ps: PolicySetType, n: int, j: int)
    requires
        set_named_upto(ps, n),
        0 <= j < n <= ps.content_31@.len(),
    ensures
        set_content_named(ps.content_31@[j]),
    decreases n,
{
    if j < n - 1 {
        lemma_named_at(ps, n - 1, j);
    }
}

proof fn lemma_upto_prefix(a: PolicySetType, b: PolicySetType, c: PolicySetType, n: int)
    requires
        0 <= n <= a.content_31@.len(),
        n <= b.content_31@.len(),
        a.content_31@.len() == c.content_31@.len(),
        forall|j: int| 0 <= j < n ==> a.content_31@[j] == b.content_31@[j],
    ensures
        set_matches_upto(a, n) == set_matches_upto(b, n),
        same_set_upto(c, a, n) == same_set_upto(c, b, n),
    decreases n,
{
    if n > 0 {
        lemma_upto_prefix(a, b, c, n - 1);
    }
}

impl PolicySetContent31Type {
    /// Extracts the attribute values of a policy or of a nested policy set;
    /// other elements hold none.
    pub fn drill_for_attributes_values_and_transform_values(&mut self) -> (r: Vec<(u128, AttributeValueWithId)>)
        requires
            set_content_named(*old(self)),
        ensures
            entries(r@) == set_content_entries(*old(self)),
            same_set_content(*old(self), *final(self)),
            match_texts(set_content_matches(*final(self))) == key_texts(keys(r@)),
            keys(r@).no_duplicates(),
    {
        let mut used: Vec<u128> = Vec::new();
        let r = self.drill_avoiding(&mut used);
        proof {
            assert(used@ =~= keys(r@));
        }
        r
    }

    /// The same extraction, drawing each key so that it is none of `used`
    /// nor of the keys drawn before it, and adding the keys drawn to `used`.
    fn drill_avoiding(&mut self, used: &mut Vec<u128>) -> (r: Vec<(u128, AttributeValueWithId)>)
        requires
            set_content_named(*old(self)),
            old(used)@.no_duplicates(),
        ensures
            entries(r@) == set_content_entries(*old(self)),
            same_set_content(*old(self), *final(self)),
            match_texts(set_content_matches(*final(self))) == key_texts(keys(r@)),
            final(used)@ == old(used)@ + keys(r@),
            final(used)@.no_duplicates(),
        decreases *old(self),
    {
        let ghost used0 = used@;
        match self {
            PolicySetContent31Type::Policy(p) => p.drill_avoiding(used),
            PolicySetContent31Type::PolicySet(q) => q.drill_avoiding(used),
            _ => {
                let r: Vec<(u128, AttributeValueWithId)> = Vec::new();
                assert(entries(r@) =~= Seq::empty());
                assert(key_texts(keys(r@)) =~= Seq::empty());
                r
            },
        }
    }
}

impl PolicySetType {
    /// Extracts the attribute values of the matches in the rule targets of
    /// this policy set, nested policy sets included, in document order, each
    /// under a fresh key.
    pub fn drill_for_attributes_values_and_transform_values(&mut self) -> (r: Vec<(u128, AttributeValueWithId)>)
        requires
            set_named_upto(*old(self), old(self).content_31@.len() as int),
        ensures
            entries(r@) == set_entries_upto(*old(self), old(self).content_31@.len() as int),
            final(self).policy_set_id == old(self).policy_set_id,
            final(self).content_31@.len() == old(self).content_31@.len(),
            same_set_upto(*old(self), *final(self), old(self).content_31@.len() as int),
            match_texts(set_matches_upto(*final(self), final(self).content_31@.len() as int)) == key_texts(keys(r@)),
            keys(r@).no_duplicates(),
    {
        let mut used: Vec<u128> = Vec::new();
        let r = self.drill_avoiding(&mut used);
        proof {
            assert(used@ =~= keys(r@));
        }
        r
    }

    /// The same extraction, drawing each key so that it is none of `used`
    /// nor of the keys drawn before it, and adding the keys drawn to `used`.
    fn drill_avoiding(&mut self, used: &mut Vec<u128>) -> (r: Vec<(u128, AttributeValueWithId)>)
        requires
            set_named_upto(*old(self), old(self).content_31@.len() as int),
            old(used)@.no_duplicates(),
        ensures
            entries(r@) == set_entries_upto(*old(self), old(self).content_31@.len() as int),
            final(self).policy_set_id == old(self).policy_set_id,
            final(self).content_31@.len() == old(self).content_31@.len(),
            same_set_upto(*old(self), *final(self), old(self).content_31@.len() as int),
            match_texts(set_matches_upto(*final(self), final(self).content_31@.len() as int)) == key_texts(keys(r@)),
            final(used)@ == old(used)@ + keys(r@),
            final(used)@.no_duplicates(),
        decreases *old(self),
    {
        let ghost used0 = used@;
        let ghost before = *self;
        let ghost len = self.content_31@.len() as int;
        let mut out: Vec<(u128, AttributeValueWithId)> = Vec::new();
        let mut i: usize = 0;
        while i < self.content_31.len()
            invariant
                i <= self.content_31.len(),
                self.content_31@.len() == len,
                before.content_31@.len() == len,
                before == *old(self),
                self.policy_set_id == before.policy_set_id,
                set_named_upto(before, len),
                forall|j: int| i <= j < len ==> self.content_31@[j] == before.content_31@[j],
                same_set_upto(before, *self, i as int),
                entries(out@) =~= set_entries_upto(before, i as int),
                match_texts(set_matches_upto(*self, i as int)) =~= key_texts(keys(out@)),
                used@ == used0 + keys(out@),
                used@.no_duplicates(),
            decreases self.content_31.len() - i,
        {
            proof {
                lemma_named_at(before, len, i as int);
                assert(decreases_to!(before => before.content_31));
                assert(decreases_to!(before.content_31 => before.content_31@));
                assert(decreases_to!(before.content_31@ => before.content_31@[i as int]));
            }
            let ghost out0 = out@;
            let ghost cur0 = *self;
            let mut more = self.content_31[i].drill_avoiding(used);
            let ghost more0 = more@;
            out.append(&mut more);
            proof {
                lemma_upto_prefix(cur0, *self, before, i as int);
                lemma_extend(out0, more0);
                lemma_matches_concat(set_matches_upto(*self, i as int), set_content_matches(self.content_31@[i as int]));
            }
            proof {
                assert(used@ =~= used0 + keys(out@));
            }
            i = i + 1;
        }
        out
    }
}

/// The values extracted from a loadout, in document order.
pub open spec fn loadout_entries(l: Loadout) -> Seq<(Seq<char>, Seq<char>, Seq<char>, Option<Seq<char>>)> {
    match l {
        Loadout::Policy(p) => contents_entries(p.content_41@),
        Loadout::PolicySet(ps) => set_entries_upto(ps, ps.content_31@.len() as int),
    }
}

/// The matches in the rule targets of a loadout, in document order.
pub open spec fn loadout_matches(l: Loadout) -> Seq<MatchType> {
    match l {
        Loadout::Policy(p) => contents_matches(p.content_41@),
        Loadout::PolicySet(ps) => set_matches_upto(ps, ps.content_31@.len() as int),
    }
}

/// Two loadouts agree but for the texts of their rules' matches.
pub open spec fn same_loadout(a: Loadout, b: Loadout) -> bool {
    match (a, b) {
        (Loadout::Policy(p), Loadout::Policy(p2)) => p.policy_id == p2.policy_id && same_contents(
            p.content_41@,
            p2.content_41@,
        ),
        (Loadout::PolicySet(q), Loadout::PolicySet(q2)) => q.policy_set_id == q2.policy_set_id
            && q.content_31@.len() == q2.content_31@.len() && same_set_upto(q, q2, q.content_31@.len() as int),
        _ => false,
    }
}

/// Every attribute selector in the rule targets of a loadout names its
/// context selector.
pub open spec fn loadout_named(l: Loadout) -> bool {
    match l {
        Loadout::Policy(p) => contents_named(p.content_41@),
        Loadout::PolicySet(ps) => set_named_upto(ps, ps.content_31@.len() as int),
    }
}

impl Loadout {
    /// Extracts the attribute values of the matches in the rule targets of
    /// this loadout, in document order: each is returned under a fresh key,
    /// with its trimmed text and its rule's trimmed identifier, and the
    /// key's text takes its place in the loadout.
    pub fn drill_for_attributes_values_and_transform_values(&mut self) -> (r: Vec<(u128, AttributeValueWithId)>)
        requires
            loadout_named(*old(self)),
        ensures
            entries(r@) == loadout_entries(*old(self)),
            same_loadout(*old(self), *final(self)),
            match_texts(loadout_matches(*final(self))) == key_texts(keys(r@)),
            keys(r@).no_duplicates(),
    {
        let mut used: Vec<u128> = Vec::new();
        let r = self.drill_avoiding(&mut used);
        proof {
            assert(used@ =~= keys(r@));
        }
        r
    }

    /// The same extraction, drawing each key so that it is none of `used`
    /// nor of the keys drawn before it, and adding the keys drawn to `used`.
    fn drill_avoiding(&mut self, used: &mut Vec<u128>) -> (r: Vec<(u128, AttributeValueWithId)>)
        requires
            loadout_named(*old(self)),
            old(used)@.no_duplicates(),
        ensures
            entries(r@) == loadout_entries(*old(self)),
            same_loadout(*old(self), *final(self)),
            match_texts(loadout_matches(*final(self))) == key_texts(keys(r@)),
            final(used)@ == old(used)@ + keys(r@),
            final(used)@.no_duplicates(),
    {
        let ghost used0 = used@;
        match self {
            Loadout::Policy(p) => p.drill_avoiding(used),
            Loadout::PolicySet(ps) => ps.drill_avoiding(used),
        }
    }
}

} // verus!
