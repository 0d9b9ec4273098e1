//! The evaluation context of a request: the request itself, with the
//! attribute values that were extracted from it and from the policy, each
//! under the key whose text took its place.

use std::collections::HashMap;
use vstd::prelude::*;
use crate::cipher::Cipher;
use crate::drill::{key_string, key_text, keys, lemma_key_text_injective};
use crate::mixed::MixedTypes;
use crate::text::str_eq;
use crate::xacml_types::{AttributeValueWithId, AttributeType, AttributeValueType, AttributesType, Loadout, Request};

verus! {

/// A request together with the values that stand behind its keys.
pub struct Context {
    pub request: Request,
    /// The values of each request attribute, under their key.
    pub req_enc_attributes: HashMap<u128, Vec<MixedTypes>>,
    /// The values of the policy's matches, under their key.
    pub pol_enc_attributes: HashMap<u128, MixedTypes>,
    /// The encrypted effects of rules, under their key.
    pub encrypted_effects: HashMap<u128, Cipher>,
    pub enc_true: Cipher,
    pub enc_false: Cipher,
}

/// A loadout whose attribute values and effects were extracted and
/// encrypted, with the values under their keys.
pub struct EncryptedPolicyWrapper {
    pub loadout: Loadout,
    pub encrypted_atts: HashMap<u128, MixedTypes>,
    pub encrypted_effects: HashMap<u128, Cipher>,
    pub all_atts_encrypted_times_policy: HashMap<u128, u128>,
    pub nb_enc_atts: usize,
    pub nb_total_atts: usize,
    pub att_uuid_to_rule_id: HashMap<u128, String>,
}

/// The text of the first value among `vs` that has one.
pub open spec fn first_text(vs: Seq<AttributeValueType>) -> Option<Seq<char>>
    decreases vs.len(),
{
    if vs.len() == 0 {
        None
    } else {
        match vs[0].text {
            Some(t) => Some(t@),
            None => first_text(vs.drop_first()),
        }
    }
}

/// The texts found for attribute `id` among attributes `s`: for each
/// attribute of that identifier that has a text, its first text, in order.
pub open spec fn texts_in_attributes(s: Seq<AttributeType>, id: Seq<char>) -> Seq<Seq<char>>
    decreases s.len(),
{
    if s.len() == 0 {
        Seq::empty()
    } else {
        let here = if s[0].attribute_id@ == id {
            match first_text(s[0].attribute_value@) {
                Some(t) => seq![t],
                None => Seq::empty(),
            }
        } else {
            Seq::empty()
        };
        here + texts_in_attributes(s.drop_first(), id)
    }
}

/// The texts found for attribute `id` across the categories `s`, in order.
pub open spec fn texts_in_categories(s: Seq<AttributesType>, id: Seq<char>) -> Seq<Seq<char>>
    decreases s.len(),
{
    if s.len() == 0 {
        Seq::empty()
    } else {
        texts_in_attributes(s[0].attribute@, id) + texts_in_categories(s.drop_first(), id)
    }
}

/// The key text that a request gives for attribute `id`: the first one found.
pub open spec fn request_key_text(r: Request, id: Seq<char>) -> Option<Seq<char>> {
    let ts = texts_in_categories(r.attributes@, id);
    if ts.len() > 0 {
        Some(ts[0])
    } else {
        None
    }
}

/// The value that `m` holds under the key whose text is `t`, if any (key
/// texts are distinct, so there is at most one such key).
pub open spec fn value_under_text<V>(m: Map<u128, V>, t: Seq<char>) -> Option<V> {
    if exists|k: u128| m.contains_key(k) && #[trigger] key_text(k) == t {
        Some(m[choose|k: u128| m.contains_key(k) && #[trigger] key_text(k) == t])
    } else {
        None
    }
}

/// The value that `m` holds under key `k`, if any.
pub open spec fn value_under_key<V>(m: Map<u128, V>, k: u128) -> Option<V> {
    if m.contains_key(k) {
        Some(m[k])
    } else {
        None
    }
}

/// The map that the entries `s` give when inserted in order: a later entry
/// under a key replaces an earlier one.
pub open spec fn pairs_map<V>(s: Seq<(u128, V)>) -> Map<u128, V>
    decreases s.len(),
{
    if s.len() == 0 {
        Map::empty()
    } else {
        pairs_map(s.drop_last()).insert(s.last().0, s.last().1)
    }
}

/// Where no key occurs twice among the entries `s`, the map they give holds
/// each entry's value under that entry's key: every key leads back to
/// exactly the value it was given with.
pub proof fn lemma_pairs_map_distinct<V>(s: Seq<(u128, V)>)
    requires
        forall|i: int, j: int| 0 <= i < j < s.len() ==> #[trigger] s[i].0 != #[trigger] s[j].0,
    ensures
        forall|i: int|
            0 <= i < s.len() ==> pairs_map(s).contains_key(#[trigger] s[i].0) && pairs_map(s)[s[i].0] == s[i].1,
    decreases s.len(),
{
    if s.len() > 0 {
        let t = s.drop_last();
        assert forall|i: int, j: int| 0 <= i < j < t.len() implies #[trigger] t[i].0 != #[trigger] t[j].0 by {
            assert(s[i].0 != s[j].0);
        }
        lemma_pairs_map_distinct(t);
        assert forall|i: int| 0 <= i < s.len() implies pairs_map(s).contains_key(#[trigger] s[i].0) && pairs_map(
            s,
        )[s[i].0] == s[i].1 by {
            if i < s.len() - 1 {
                assert(t[i] == s[i]);
                assert(s[i].0 != s[s.len() - 1].0);
            }
        }
    }
}

/// The values extracted from a policy, made into a map, are found again
/// under their own keys: extraction draws distinct keys, so the key written
/// in place of each match leads back to the value extracted from that match.
pub proof fn lemma_extracted_values_found_under_their_keys(r: Seq<(u128, AttributeValueWithId)>)
    requires
        keys(r).no_duplicates(),
    ensures
        forall|i: int|
            0 <= i < r.len() ==> pairs_map(r).contains_key(#[trigger] r[i].0) && pairs_map(r)[r[i].0] == r[i].1,
{
    assert forall|i: int, j: int| 0 <= i < j < r.len() implies #[trigger] r[i].0 != #[trigger] r[j].0 by {
        assert(keys(r)[i] == r[i].0 && keys(r)[j] == r[j].0);
    }
    lemma_pairs_map_distinct(r);
}

/// The map holding the entries `v` (as extraction hands them out), each
/// inserted in order.
pub fn map_of_pairs<V>(v: Vec<(u128, V)>) -> (r: HashMap<u128, V>)
    ensures
        r@ == pairs_map(v@),
{
    broadcast use vstd::std_specs::hash::group_hash_axioms;
    let ghost s = v@;
    let mut m: HashMap<u128, V> = HashMap::new();
    let mut rest = v;
    let mut rev: Vec<(u128, V)> = Vec::new();
    while rest.len() > 0
        invariant
            rest@ == s.subrange(0, rest.len() as int),
            rev.len() + rest.len() == s.len(),
            forall|j: int| 0 <= j < rev.len() ==> #[trigger] rev@[j] == s[s.len() - 1 - j],
        decreases rest.len(),
    {
        let x = rest.pop().unwrap();
        rev.push(x);
    }
    while rev.len() > 0
        invariant
            rev.len() <= s.len(),
            forall|j: int| 0 <= j < rev.len() ==> #[trigger] rev@[j] == s[s.len() - 1 - j],
            m@ == pairs_map(s.subrange(0, s.len() - rev.len())),
        decreases rev.len(),
    {
        let ghost n = s.len() - rev.len();
        let (k, x) = rev.pop().unwrap();
        assert(s.subrange(0, n + 1).drop_last() =~= s.subrange(0, n));
        m.insert(k, x);
    }
    assert(s.subrange(0, s.len() as int) =~= s);
    m
}

/// The value under the key whose text is `t`, found by going through the
/// entries of `m` and comparing each key's text with `t`.
fn find_under_text<'a, V>(m: &'a HashMap<u128, V>, t: &str) -> (r: Option<&'a V>)
    ensures
        match r {
            Some(v) => value_under_text(m@, t@) == Some(*v),
            None => value_under_text(m@, t@) is None,
        },
{
    broadcast use vstd::std_specs::hash::group_hash_axioms;
    let ghost all = vstd::std_specs::iter::IteratorSpec::remaining(&vstd::std_specs::hash::spec_hash_map_iter(m));
    for pair in it: m.iter()
        invariant
            all == it.seq(),
            all.len() == m@.dom().len(),
            forall|k: u128| #[trigger] m@.contains_key(k) ==> all.contains((&k, &m@[k])),
            forall|i: int| 0 <= i < all.len() ==> m@.contains_key(*all[i].0) && m@[*all[i].0] == *all[i].1,
            forall|j: int| 0 <= j < it.index() ==> key_text(*(#[trigger] all[j]).0) != t@,
    {
        let (k, v) = pair;
        let text = key_string(*k);
        if str_eq(text.as_str(), t) {
            proof {
                let i = it.index();
                assert(all[i] == (k, v));
                assert(m@.contains_key(*k) && key_text(*k) == t@);
                let c = choose|c: u128| m@.contains_key(c) && #[trigger] key_text(c) == t@;
                lemma_key_text_injective(c, *k);
            }
            return Some(v);
        }
    }
    proof {
        assert forall|k: u128| m@.contains_key(k) implies #[trigger] key_text(k) != t@ by {
            assert(all.contains((&k, &m@[k])));
            let j = choose|j: int| 0 <= j < all.len() && all[j] == (&k, &m@[k]);
            assert(key_text(*all[j].0) != t@);
        }
    }
    None
}

/// The first text of the values `vs`.
fn find_first_text(vs: &Vec<AttributeValueType>) -> (r: Option<&String>)
    ensures
        match r {
            Some(t) => first_text(vs@) == Some(t@),
            None => first_text(vs@) is None,
        },
{
    assert(vs@.skip(0) =~= vs@);
    let mut i: usize = 0;
    while i < vs.len()
        invariant
            i <= vs.len(),
            first_text(vs@) == first_text(vs@.skip(i as int)),
        decreases vs.len() - i,
    {
        assert(vs@.skip(i as int).drop_first() =~= vs@.skip(i + 1));
        match &vs[i].text {
            Some(t) => {
                return Some(t);
            },
            None => {},
        }
        i = i + 1;
    }
    None
}

/// The first text found for attribute `id` among the attributes `s`.
fn find_in_attributes<'a>(s: &'a Vec<AttributeType>, id: &str) -> (r: Option<&'a String>)
    ensures
        match r {
            Some(t) => texts_in_attributes(s@, id@).len() > 0 && texts_in_attributes(s@, id@)[0] == t@,
            None => texts_in_attributes(s@, id@).len() == 0,
        },
{
    assert(s@.skip(0) =~= s@);
    let mut i: usize = 0;
    while i < s.len()
        invariant
            i <= s.len(),
            texts_in_attributes(s@, id@) == texts_in_attributes(s@.skip(i as int), id@),
        decreases s.len() - i,
    {
        assert(s@.skip(i as int).drop_first() =~= s@.skip(i + 1));
        if str_eq(s[i].attribute_id.as_str(), id) {
            match find_first_text(&s[i].attribute_value) {
                Some(t) => {
                    return Some(t);
                },
                None => {},
            }
        }
        assert(texts_in_attributes(s@.skip(i as int), id@) =~= texts_in_attributes(s@.skip(i + 1), id@));
        i = i + 1;
    }
    None
}

/// The key text that the request gives for attribute `id`.
fn find_request_text<'a>(req: &'a Request, id: &str) -> (r: Option<&'a String>)
    ensures
        match r {
            Some(t) => request_key_text(*req, id@) == Some(t@),
            None => request_key_text(*req, id@) is None,
        },
{
    let s = &req.attributes;
    assert(s@.skip(0) =~= s@);
    let mut i: usize = 0;
    while i < s.len()
        invariant
            i <= s.len(),
            s@ == req.attributes@,
            texts_in_categories(s@, id@) == texts_in_categories(s@.skip(i as int), id@),
        decreases s.len() - i,
    {
        assert(s@.skip(i as int).drop_first() =~= s@.skip(i + 1));
        match find_in_attributes(&s[i].attribute, id) {
            Some(t) => {
                assert(s@.skip(i as int)[0] == s@[i as int]);
                assert(texts_in_categories(s@.skip(i as int), id@) == texts_in_attributes(s@[i as int].attribute@, id@)
                    + texts_in_categories(s@.skip(i + 1), id@));
                let ghost a = texts_in_attributes(s@[i as int].attribute@, id@);
                let ghost b = texts_in_categories(s@.skip(i + 1), id@);
                assert((a + b)[0] == a[0]);
                return Some(t);
            },
            None => {},
        }
        assert(texts_in_categories(s@.skip(i as int), id@) =~= texts_in_categories(s@.skip(i + 1), id@));
        i = i + 1;
    }
    None
}

impl Context {
    /// The values of the request attribute `att_id`: the first value text
    /// that the request gives for it names a key, and the values under that
    /// key are returned.
    pub fn get_req_attr<'a>(&'a self, att_id: &str) -> (r: Option<&'a Vec<MixedTypes>>)
        ensures
            match request_key_text(self.request, att_id@) {
                None => r is None,
                Some(t) => match r {
                    Some(v) => value_under_text(self.req_enc_attributes@, t) == Some(*v),
                    None => value_under_text(self.req_enc_attributes@, t) is None,
                },
            },
    {
        match find_request_text(&self.request, att_id) {
            Some(t) => find_under_text(&self.req_enc_attributes, t.as_str()),
            None => None,
        }
    }

    /// The policy value under the key whose text is `uuid`.
    pub fn get_policy_attr_from_uuid<'a>(&'a self, uuid: &str) -> (r: Option<&'a MixedTypes>)
        ensures
            match r {
                Some(v) => value_under_text(self.pol_enc_attributes@, uuid@) == Some(*v),
                None => value_under_text(self.pol_enc_attributes@, uuid@) is None,
            },
    {
        find_under_text(&self.pol_enc_attributes, uuid)
    }

    /// The encrypted effect under key `uuid`.
    pub fn get_effect<'a>(&'a self, uuid: &u128) -> (r: Option<&'a Cipher>)
        ensures
            match r {
                Some(v) => value_under_key(self.encrypted_effects@, *uuid) == Some(*v),
                None => value_under_key(self.encrypted_effects@, *uuid) is None,
            },
    {
        broadcast use vstd::std_specs::hash::group_hash_axioms;
        self.encrypted_effects.get(uuid)
    }
}

/// A value looked up by the text of a key is the value looked up by the
/// key itself: the text that extraction writes in place of a value leads
/// back to what was stored under its key.
pub proof fn lemma_lookup_by_text<V>(m: Map<u128, V>, k: u128)
    ensures
        value_under_text(m, key_text(k)) == value_under_key(m, k),
{
    if m.contains_key(k) {
        assert(m.contains_key(k) && key_text(k) == key_text(k));
        let c = choose|c: u128| m.contains_key(c) && #[trigger] key_text(c) == key_text(k);
        lemma_key_text_injective(c, k);
    } else if exists|c: u128| m.contains_key(c) && #[trigger] key_text(c) == key_text(k) {
        let c = choose|c: u128| m.contains_key(c) && #[trigger] key_text(c) == key_text(k);
        lemma_key_text_injective(c, k);
    }
}

} // verus!
