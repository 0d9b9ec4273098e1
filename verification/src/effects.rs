//! Encryption of the effects of rules: each rule's permit or deny becomes an
//! encrypted truth value kept under a fresh key, and the rule records that
//! key in place of its effect.

use vstd::prelude::*;
use crate::cipher::{Cipher, Circ, Clear, ClearV};
use crate::context::{lemma_pairs_map_distinct, pairs_map};
use crate::drill::fresh_key_avoiding;
use crate::agreement::decrypt;
use crate::encrypt::{clears, env_of, Encryptor};
use crate::xacml_types::{
    EffectType, Loadout, PolicyContent41Type, PolicySetContent31Type, PolicySetType, PolicyType, RuleType,
};

verus! {

/// The keys of encrypted effects, in order.
pub open spec fn effect_keys(r: Seq<(u128, Cipher)>) -> Seq<u128> {
    r.map_values(|p: (u128, Cipher)| p.0)
}

/// The computations of encrypted effects, in order.
pub open spec fn effect_circs(r: Seq<(u128, Cipher)>) -> Seq<Circ> {
    r.map_values(|p: (u128, Cipher)| p.1.circ())
}

/// Fresh ciphertexts, issued from handle `h` on.
pub open spec fn fresh_inputs(h: int, n: nat) -> Seq<Circ> {
    Seq::new(n, |i: int| Circ::Input((h + i) as u64))
}

/// The plaintexts of encrypted truth values.
pub open spec fn bool_plaintexts(bs: Seq<bool>) -> Seq<ClearV> {
    bs.map_values(|b: bool| ClearV::Bool(b))
}

/// The effects that keys leave in rules.
pub open spec fn decisions(ks: Seq<u128>) -> Seq<EffectType> {
    ks.map_values(|k: u128| EffectType::EncryptedDecision(k))
}

/// Whether a rule's effect is still in the clear.
pub open spec fn plain_effect(r: RuleType) -> bool {
    !(r.effect is EncryptedDecision)
}

/// Two rules agree but for their effects.
pub open spec fn same_but_effect(a: RuleType, b: RuleType) -> bool {
    a.rule_id == b.rule_id && a.target == b.target
}

/// The truth value a policy element contributes (whether its rule permits).
pub open spec fn content_permits(c: PolicyContent41Type) -> Seq<bool> {
    match c {
        PolicyContent41Type::Rule(r) => seq![r.effect is Permit],
        _ => Seq::empty(),
    }
}

/// The effect a policy element holds, if it is a rule.
pub open spec fn content_effects(c: PolicyContent41Type) -> Seq<EffectType> {
    match c {
        PolicyContent41Type::Rule(r) => seq![r.effect],
        _ => Seq::empty(),
    }
}

/// Whether the rules among policy elements permit, in order.
pub open spec fn contents_permits(s: Seq<PolicyContent41Type>) -> Seq<bool>
    decreases s.len(),
{
    if s.len() == 0 {
        Seq::empty()
    } else {
        contents_permits(s.drop_last()) + content_permits(s.last())
    }
}

/// The effects of the rules among policy elements, in order.
pub open spec fn contents_effects(s: Seq<PolicyContent41Type>) -> Seq<EffectType>
    decreases s.len(),
{
    if s.len() == 0 {
        Seq::empty()
    } else {
        contents_effects(s.drop_last()) + content_effects(s.last())
    }
}

/// Two policy elements agree but for the effect of a rule.
pub open spec fn same_content_but_effect(a: PolicyContent41Type, b: PolicyContent41Type) -> bool {
    match (a, b) {
        (PolicyContent41Type::Rule(x), PolicyContent41Type::Rule(y)) => same_but_effect(x, y),
        _ => !(a is Rule) && a == b,
    }
}

/// Every rule among policy elements has its effect in the clear.
pub open spec fn contents_plain(s: Seq<PolicyContent41Type>) -> bool {
    forall|i: int| 0 <= i < s.len() ==> (#[trigger] s[i] matches PolicyContent41Type::Rule(r) ==> plain_effect(r))
}

impl RuleType {
    /// Encrypts this rule's effect (whether it permits) under a fresh key,
    /// and records the key as the rule's effect.
    pub fn encrypt_effect(&mut self, pk: &mut Encryptor) -> (r: Vec<(u128, Cipher)>)
        requires
            plain_effect(*old(self)),
            old(pk).plaintexts.len() < u64::MAX,
        ensures
            r.len() == 1,
            final(self).effect == EffectType::EncryptedDecision(r@[0].0),
            same_but_effect(*old(self), *final(self)),
            r@[0].1.circ() == Circ::Input(old(pk).plaintexts.len() as u64),
            final(pk).plaintexts.len() == old(pk).plaintexts.len() + 1,
            clears(final(pk).plaintexts@) == clears(old(pk).plaintexts@).push(
                ClearV::Bool(old(self).effect is Permit),
            ),
            effect_keys(r@).no_duplicates(),
    {
        let mut used: Vec<u128> = Vec::new();
        let r = self.encrypt_effect_avoiding(pk, &mut used);
        proof {
            assert(used@ =~= effect_keys(r@));
        }
        r
    }

    /// The same encryption, drawing each key so that it is none of `used`
    /// nor of the keys drawn before it, and adding the keys drawn to `used`.
    fn encrypt_effect_avoiding(&mut self, pk: &mut Encryptor, used: &mut Vec<u128>) -> (r: Vec<(u128, Cipher)>)
        requires
            plain_effect(*old(self)),
            old(pk).plaintexts.len() < u64::MAX,
            old(used)@.no_duplicates(),
        ensures
            r.len() == 1,
            final(self).effect == EffectType::EncryptedDecision(r@[0].0),
            same_but_effect(*old(self), *final(self)),
            r@[0].1.circ() == Circ::Input(old(pk).plaintexts.len() as u64),
            final(pk).plaintexts.len() == old(pk).plaintexts.len() + 1,
            clears(final(pk).plaintexts@) == clears(old(pk).plaintexts@).push(
                ClearV::Bool(old(self).effect is Permit),
            ),
            final(used)@ == old(used)@ + effect_keys(r@),
            final(used)@.no_duplicates(),
    {
        let ghost used0 = used@;
        let permit = match self.effect {
            EffectType::Permit => true,
            _ => false,
        };
        let ghost p0 = pk.plaintexts@;
        let c = pk.issue(Clear::Bool(permit));
        assert(clears(pk.plaintexts@) =~= clears(p0).push(ClearV::Bool(permit)));
        let id = fresh_key_avoiding(used);
        self.effect = EffectType::EncryptedDecision(id);
        let mut out: Vec<(u128, Cipher)> = Vec::new();
        out.push((id, c));
        used.push(id);
        proof {
            assert forall|a: int, b: int| 0 <= a < b < used@.len() implies used@[a] != used@[b] by {
                if b == used0.len() {
                    assert(used0.contains(used0[a]));
                }
            }
            assert(effect_keys(out@) =~= seq![id]);
        }
        out
    }
}

impl PolicyType {
    /// Encrypts the effects of this policy's rules, in order, each under a
    /// fresh key that the rule records.
    pub fn encrypt_effect(&mut self, pk: &mut Encryptor) -> (r: Vec<(u128, Cipher)>)
        requires
            contents_plain(old(self).content_41@),
            old(pk).plaintexts.len() + contents_permits(old(self).content_41@).len() <= u64::MAX,
        ensures
            final(self).policy_id == old(self).policy_id,
            final(self).content_41@.len() == old(self).content_41@.len(),
            forall|i: int|
                0 <= i < old(self).content_41@.len() ==> same_content_but_effect(
                    #[trigger] old(self).content_41@[i],
                    final(self).content_41@[i],
                ),
            contents_effects(final(self).content_41@) == decisions(effect_keys(r@)),
            effect_circs(r@) == fresh_inputs(
                old(pk).plaintexts.len() as int,
                contents_permits(old(self).content_41@).len(),
            ),
            final(pk).plaintexts.len() == old(pk).plaintexts.len() + contents_permits(old(self).content_41@).len(),
            clears(final(pk).plaintexts@) == clears(old(pk).plaintexts@) + bool_plaintexts(
                contents_permits(old(self).content_41@),
            ),
            effect_keys(r@).no_duplicates(),
    {
        let mut used: Vec<u128> = Vec::new();
        let r = self.encrypt_effect_avoiding(pk, &mut used);
        proof {
            assert(used@ =~= effect_keys(r@));
        }
        r
    }

    /// The same encryption, drawing each key so that it is none of `used`
    /// nor of the keys drawn before it, and adding the keys drawn to `used`.
    fn encrypt_effect_avoiding(&mut self, pk: &mut Encryptor, used: &mut Vec<u128>) -> (r: Vec<(u128, Cipher)>)
        requires
            contents_plain(old(self).content_41@),
            old(pk).plaintexts.len() + contents_permits(old(self).content_41@).len() <= u64::MAX,
            old(used)@.no_duplicates(),
        ensures
            final(self).policy_id == old(self).policy_id,
            final(self).content_41@.len() == old(self).content_41@.len(),
            forall|i: int|
                0 <= i < old(self).content_41@.len() ==> same_content_but_effect(
                    #[trigger] old(self).content_41@[i],
                    final(self).content_41@[i],
                ),
            contents_effects(final(self).content_41@) == decisions(effect_keys(r@)),
            effect_circs(r@) == fresh_inputs(
                old(pk).plaintexts.len() as int,
                contents_permits(old(self).content_41@).len(),
            ),
            final(pk).plaintexts.len() == old(pk).plaintexts.len() + contents_permits(old(self).content_41@).len(),
            clears(final(pk).plaintexts@) == clears(old(pk).plaintexts@) + bool_plaintexts(
                contents_permits(old(self).content_41@),
            ),
            final(used)@ == old(used)@ + effect_keys(r@),
            final(used)@.no_duplicates(),
    {
        let ghost used0 = used@;
        let ghost before = self.content_41@;
        let ghost p0 = clears(pk.plaintexts@);
        let ghost h = pk.plaintexts.len() as int;
        let mut out: Vec<(u128, Cipher)> = Vec::new();
        let mut i: usize = 0;
        proof {
            lemma_contents_permits_mono(before, 0, before.len() as int);
        }
        while i < self.content_41.len()
            invariant
                i <= self.content_41.len(),
                self.content_41@.len() == before.len(),
                self.policy_id == old(self).policy_id,
                before == old(self).content_41@,
                contents_plain(before),
                h + contents_permits(before).len() <= u64::MAX,
                forall|j: int| i <= j < before.len() ==> self.content_41@[j] == before[j],
                forall|j: int| 0 <= j < i ==> same_content_but_effect(#[trigger] before[j], self.content_41@[j]),
                contents_effects(self.content_41@.take(i as int)) =~= decisions(effect_keys(out@)),
                effect_circs(out@) =~= fresh_inputs(h, contents_permits(before.take(i as int)).len()),
                pk.plaintexts.len() == h + contents_permits(before.take(i as int)).len(),
                clears(pk.plaintexts@) =~= p0 + bool_plaintexts(contents_permits(before.take(i as int))),
                used@ == used0 + effect_keys(out@),
                used@.no_duplicates(),
            decreases self.content_41.len() - i,
        {
            proof {
                assert(before.take(i + 1).drop_last() =~= before.take(i as int));
                lemma_contents_permits_mono(before, i + 1, before.len() as int);
                assert(before.take(before.len() as int) =~= before);
            }
            let ghost cur0 = self.content_41@;
            let ghost out0 = out@;
            let ghost n0 = contents_permits(before.take(i as int)).len();
            match &mut self.content_41[i] {
                PolicyContent41Type::Rule(r) => {
                    let mut more = r.encrypt_effect_avoiding(pk, used);
                    let ghost m0 = more@;
                    out.append(&mut more);
                    proof {
                        assert(out@ =~= out0 + m0);
                        assert(effect_keys(out@) =~= effect_keys(out0) + effect_keys(m0));
                        assert(used@ =~= used0 + effect_keys(out@));
                    }
                },
                _ => {},
            }
            proof {
                assert(self.content_41@.take(i as int) =~= cur0.take(i as int));
                assert(self.content_41@.take(i + 1).drop_last() =~= self.content_41@.take(i as int));
                assert(effect_keys(out@) =~= effect_keys(out0) + effect_keys(out@.skip(out0.len() as int)));
                assert(fresh_inputs(h, n0 + content_permits(before[i as int]).len()) =~= fresh_inputs(h, n0)
                    + fresh_inputs(h + n0, content_permits(before[i as int]).len()));
            }
            proof {
                assert(used@ =~= used0 + effect_keys(out@));
            }
            i = i + 1;
        }
        assert(before.take(before.len() as int) =~= before);
        assert(self.content_41@.take(self.content_41@.len() as int) =~= self.content_41@);
        out
    }
}

proof fn lemma_contents_permits_mono(s: Seq<PolicyContent41Type>, i: int, n: int)
    requires
        0 <= i <= n <= s.len(),
    ensures
        contents_permits(s.take(i)).len() <= contents_permits(s.take(n)).len(),
    decreases n - i,
{
    if i < n {
        lemma_contents_permits_mono(s, i, n - 1);
        assert(s.take(n).drop_last() =~= s.take(n - 1));
    }
}

/// Whether the rules of a policy-set element permit, in order.
pub open spec fn set_content_permits(c: PolicySetContent31Type) -> Seq<bool>
    decreases c, 0int,
{
    match c {
        PolicySetContent31Type::Policy(p) => contents_permits(p.content_41@),
        PolicySetContent31Type::PolicySet(q) => set_permits_upto(q, q.content_31@.len() as int),
        _ => Seq::empty(),
    }
}

/// Whether the rules of the first `n` elements of a policy set permit, in order.
pub open spec fn set_permits_upto(ps: PolicySetType, n: int) -> Seq<bool>
    decreases ps, n,
{
    if n <= 0 || n > ps.content_31@.len() {
        Seq::empty()
    } else {
        proof {
            assert(decreases_to!(ps => ps.content_31));
            assert(decreases_to!(ps.content_31 => ps.content_31@));
            assert(decreases_to!(ps.content_31@ => ps.content_31@[n - 1]));
        }
        set_permits_upto(ps, n - 1) + set_content_permits(ps.content_31@[n - 1])
    }
}

/// The effects of the rules of a policy-set element, in order.
pub open spec fn set_content_effects(c: PolicySetContent31Type) -> Seq<EffectType>
    decreases c, 0int,
{
    match c {
        PolicySetContent31Type::Policy(p) => contents_effects(p.content_41@),
        PolicySetContent31Type::PolicySet(q) => set_effects_upto(q, q.content_31@.len() as int),
        _ => Seq::empty(),
    }
}

/// The effects of the rules of the first `n` elements of a policy set, in order.
pub open spec fn set_effects_upto(ps: PolicySetType, n: int) -> Seq<EffectType>
    decreases ps, n,
{
    if n <= 0 || n > ps.content_31@.len() {
        Seq::empty()
    } else {
        proof {
            assert(decreases_to!(ps => ps.content_31));
            assert(decreases_to!(ps.content_31 => ps.content_31@));
            assert(decreases_to!(ps.content_31@ => ps.content_31@[n - 1]));
        }
        set_effects_upto(ps, n - 1) + set_content_effects(ps.content_31@[n - 1])
    }
}

/// Every rule of a policy-set element has its effect in the clear.
pub open spec fn set_content_plain(c: PolicySetContent31Type) -> bool
    decreases c, 0int,
{
    match c {
        PolicySetContent31Type::Policy(p) => contents_plain(p.content_41@),
        PolicySetContent31Type::PolicySet(q) => set_plain_upto(q, q.content_31@.len() as int),
        _ => true,
    }
}

/// Every rule of the first `n` elements of a policy set has its effect in the clear.
pub open spec fn set_plain_upto(ps: PolicySetType, n: int) -> bool
    decreases ps, n,
{
    if n <= 0 || n > ps.content_31@.len() {
        true
    } else {
        proof {
            assert(decreases_to!(ps => ps.content_31));
            assert(decreases_to!(ps.content_31 => ps.content_31@));
            assert(decreases_to!(ps.content_31@ => ps.content_31@[n - 1]));
        }
        set_content_plain(ps.content_31@[n - 1]) && set_plain_upto(ps, n - 1)
    }
}

/// Two policy-set elements agree but for the effects of their rules.
pub open spec fn same_set_content_but_effect(x: PolicySetContent31Type, y: PolicySetContent31Type) -> bool
    decreases x, 0int,
{
    match (x, y) {
        (PolicySetContent31Type::Policy(p), PolicySetContent31Type::Policy(p2)) => p.policy_id == p2.policy_id
            && p.content_41@.len() == p2.content_41@.len() && forall|i: int|
            0 <= i < p.content_41@.len() ==> same_content_but_effect(#[trigger] p.content_41@[i], p2.content_41@[i]),
        (PolicySetContent31Type::PolicySet(q), PolicySetContent31Type::PolicySet(q2)) => q.policy_set_id
            == q2.policy_set_id && q.content_31@.len() == q2.content_31@.len() && same_set_but_effect_upto(
            q,
            q2,
            q.content_31@.len() as int,
        ),
        _ => !(x is Policy) && !(x is PolicySet) && x == y,
    }
}

/// The first `n` elements of two policy sets agree but for the effects of
/// their rules.
pub open spec fn same_set_but_effect_upto(a: PolicySetType, b: PolicySetType, n: int) -> bool
    decreases a, n,
{
    if n <= 0 || n > a.content_31@.len() {
        true
    } else {
        proof {
            assert(decreases_to!(a => a.content_31));
            assert(decreases_to!(a.content_31 => a.content_31@));
            assert(decreases_to!(a.content_31@ => a.content_31@[n - 1]));
        }
        same_set_content_but_effect(a.content_31@[n - 1], b.content_31@[n - 1]) && same_set_but_effect_upto(
            a,
            b,
            n - 1,
        )
    }
}

proof fn lemma_set_plain_at(ps: PolicySetType, n: int, j: int)
    requires
        set_plain_upto(ps, n),
        0 <= j < n <= ps.content_31@.len(),
    ensures
        set_content_plain(ps.content_31@[j]),
    decreases n,
{
    if j < n - 1 {
        lemma_set_plain_at(ps, n - 1, j);
    }
}

proof fn lemma_set_permits_mono(ps: PolicySetType, i: int, n: int)
    requires
        0 <= i <= n <= ps.content_31@.len(),
    ensures
        set_permits_upto(ps, i).len() <= set_permits_upto(ps, n).len(),
    decreases n - i,
{
    if i < n {
        lemma_set_permits_mono(ps, i, n - 1);
    }
}

proof fn lemma_set_effects_prefix(a: PolicySetType, b: PolicySetType, c: PolicySetType, n: int)
    requires
        0 <= n <= a.content_31@.len(),
        n <= b.content_31@.len(),
        a.content_31@.len() == c.content_31@.len(),
        forall|j: int| 0 <= j < n ==> a.content_31@[j] == b.content_31@[j],
    ensures
        set_effects_upto(a, n) == set_effects_upto(b, n),
        same_set_but_effect_upto(c, a, n) == same_set_but_effect_upto(c, b, n),
    decreases n,
{
    if n > 0 {
        lemma_set_effects_prefix(a, b, c, n - 1);
    }
}

impl PolicySetType {
    /// Encrypts the effects of the rules of this policy set, nested policy
    /// sets included, in document order, each under a fresh key that the
    /// rule records.
    pub fn encrypt_effect(&mut self, pk: &mut Encryptor) -> (r: Vec<(u128, Cipher)>)
        requires
            set_plain_upto(*old(self), old(self).content_31@.len() as int),
            old(pk).plaintexts.len() + set_permits_upto(*old(self), old(self).content_31@.len() as int).len()
                <= u64::MAX,
        ensures
            final(self).policy_set_id == old(self).policy_set_id,
            final(self).content_31@.len() == old(self).content_31@.len(),
            same_set_but_effect_upto(*old(self), *final(self), old(self).content_31@.len() as int),
            set_effects_upto(*final(self), final(self).content_31@.len() as int) == decisions(effect_keys(r@)),
            effect_circs(r@) == fresh_inputs(
                old(pk).plaintexts.len() as int,
                set_permits_upto(*old(self), old(self).content_31@.len() as int).len(),
            ),
            final(pk).plaintexts.len() == old(pk).plaintexts.len() + set_permits_upto(
                *old(self),
                old(self).content_31@.len() as int,
            ).len(),
            clears(final(pk).plaintexts@) == clears(old(pk).plaintexts@) + bool_plaintexts(
                set_permits_upto(*old(self), old(self).content_31@.len() as int),
            ),
            effect_keys(r@).no_duplicates(),
    {
        let mut used: Vec<u128> = Vec::new();
        let r = self.encrypt_effect_avoiding(pk, &mut used);
        proof {
            assert(used@ =~= effect_keys(r@));
        }
        r
    }

    /// The same encryption, drawing each key so that it is none of `used`
    /// nor of the keys drawn before it, and adding the keys drawn to `used`.
    fn encrypt_effect_avoiding(&mut self, pk: &mut Encryptor, used: &mut Vec<u128>) -> (r: Vec<(u128, Cipher)>)
        requires
            set_plain_upto(*old(self), old(self).content_31@.len() as int),
            old(pk).plaintexts.len() + set_permits_upto(*old(self), old(self).content_31@.len() as int).len()
                <= u64::MAX,
            old(used)@.no_duplicates(),
        ensures
            final(self).policy_set_id == old(self).policy_set_id,
            final(self).content_31@.len() == old(self).content_31@.len(),
            same_set_but_effect_upto(*old(self), *final(self), old(self).content_31@.len() as int),
            set_effects_upto(*final(self), final(self).content_31@.len() as int) == decisions(effect_keys(r@)),
            effect_circs(r@) == fresh_inputs(
                old(pk).plaintexts.len() as int,
                set_permits_upto(*old(self), old(self).content_31@.len() as int).len(),
            ),
            final(pk).plaintexts.len() == old(pk).plaintexts.len() + set_permits_upto(
                *old(self),
                old(self).content_31@.len() as int,
            ).len(),
            clears(final(pk).plaintexts@) == clears(old(pk).plaintexts@) + bool_plaintexts(
                set_permits_upto(*old(self), old(self).content_31@.len() as int),
            ),
            final(used)@ == old(used)@ + effect_keys(r@),
            final(used)@.no_duplicates(),
        decreases *old(self),
    {
        let ghost used0 = used@;
        let ghost before = *self;
        let ghost len = self.content_31@.len() as int;
        let ghost p0 = clears(pk.plaintexts@);
        let ghost h = pk.plaintexts.len() as int;
        let mut out: Vec<(u128, Cipher)> = Vec::new();
        let mut i: usize = 0;
        while i < self.content_31.len()
            invariant
                i <= self.content_31.len(),
                self.content_31@.len() == len,
                before.content_31@.len() == len,
                before == *old(self),
                self.policy_set_id == before.policy_set_id,
                set_plain_upto(before, len),
                h + set_permits_upto(before, len).len() <= u64::MAX,
                forall|j: int| i <= j < len ==> self.content_31@[j] == before.content_31@[j],
                same_set_but_effect_upto(before, *self, i as int),
                set_effects_upto(*self, i as int) =~= decisions(effect_keys(out@)),
                effect_circs(out@) =~= fresh_inputs(h, set_permits_upto(before, i as int).len()),
                pk.plaintexts.len() == h + set_permits_upto(before, i as int).len(),
                clears(pk.plaintexts@) =~= p0 + bool_plaintexts(set_permits_upto(before, i as int)),
                used@ == used0 + effect_keys(out@),
                used@.no_duplicates(),
            decreases self.content_31.len() - i,
        {
            proof {
                lemma_set_plain_at(before, len, i as int);
                lemma_set_permits_mono(before, i + 1, len);
                assert(decreases_to!(before => before.content_31));
                assert(decreases_to!(before.content_31 => before.content_31@));
                assert(decreases_to!(before.content_31@ => before.content_31@[i as int]));
            }
            let ghost out0 = out@;
            let ghost cur0 = *self;
            let ghost n0 = set_permits_upto(before, i as int).len();
            let ghost elem = before.content_31@[i as int];
            assert(set_permits_upto(before, i + 1) == set_permits_upto(before, i as int) + set_content_permits(elem));
            match &mut self.content_31[i] {
                PolicySetContent31Type::Policy(p) => {
                    let mut more = p.encrypt_effect_avoiding(pk, used);
                    let ghost m0 = more@;
                    out.append(&mut more);
                    proof {
                        assert(out@ =~= out0 + m0);
                        assert(effect_keys(out@) =~= effect_keys(out0) + effect_keys(m0));
                        assert(used@ =~= used0 + effect_keys(out@));
                    }
                },
                PolicySetContent31Type::PolicySet(q) => {
                    let mut more = q.encrypt_effect_avoiding(pk, used);
                    let ghost m0 = more@;
                    out.append(&mut more);
                    proof {
                        assert(out@ =~= out0 + m0);
                        assert(effect_keys(out@) =~= effect_keys(out0) + effect_keys(m0));
                        assert(used@ =~= used0 + effect_keys(out@));
                    }
                },
                _ => {},
            }
            proof {
                let now = *self;
                assert(decreases_to!(now => now.content_31));
                assert(decreases_to!(now.content_31 => now.content_31@));
                assert(decreases_to!(now.content_31@ => now.content_31@[i as int]));
                assert(same_set_content_but_effect(elem, now.content_31@[i as int]));
                lemma_set_effects_prefix(cur0, *self, before, i as int);
                assert(set_effects_upto(now, i + 1) == set_effects_upto(now, i as int) + set_content_effects(
                    now.content_31@[i as int],
                ));
                assert(effect_keys(out@) =~= effect_keys(out0) + effect_keys(out@.skip(out0.len() as int)));
                assert(fresh_inputs(h, n0 + set_content_permits(elem).len()) =~= fresh_inputs(h, n0) + fresh_inputs(
                    h + n0,
                    set_content_permits(elem).len(),
                ));
                assert(bool_plaintexts(set_permits_upto(before, i + 1)) =~= bool_plaintexts(
                    set_permits_upto(before, i as int),
                ) + bool_plaintexts(set_content_permits(elem)));
            }
            proof {
                assert(used@ =~= used0 + effect_keys(out@));
            }
            i = i + 1;
        }
        out
    }
}

/// Whether the rules of a loadout permit, in document order.
pub open spec fn loadout_permits(l: Loadout) -> Seq<bool> {
    match l {
        Loadout::Policy(p) => contents_permits(p.content_41@),
        Loadout::PolicySet(ps) => set_permits_upto(ps, ps.content_31@.len() as int),
    }
}

/// The effects of the rules of a loadout, in document order.
pub open spec fn loadout_effects(l: Loadout) -> Seq<EffectType> {
    match l {
        Loadout::Policy(p) => contents_effects(p.content_41@),
        Loadout::PolicySet(ps) => set_effects_upto(ps, ps.content_31@.len() as int),
    }
}

/// Every rule of a loadout has its effect in the clear.
pub open spec fn loadout_plain(l: Loadout) -> bool {
    match l {
        Loadout::Policy(p) => contents_plain(p.content_41@),
        Loadout::PolicySet(ps) => set_plain_upto(ps, ps.content_31@.len() as int),
    }
}

/// Two loadouts agree but for the effects of their rules.
pub open spec fn same_loadout_but_effect(a: Loadout, b: Loadout) -> bool {
    match (a, b) {
        (Loadout::Policy(p), Loadout::Policy(p2)) => same_set_content_but_effect(
            PolicySetContent31Type::Policy(p),
            PolicySetContent31Type::Policy(p2),
        ),
        (Loadout::PolicySet(q), Loadout::PolicySet(q2)) => same_set_content_but_effect(
            PolicySetContent31Type::PolicySet(q),
            PolicySetContent31Type::PolicySet(q2),
        ),
        _ => false,
    }
}

impl Loadout {
    /// Encrypts the effects of the rules of this loadout, in document order,
    /// each under a fresh key that the rule records. Each encrypted effect
    /// decrypts to whether its rule permits.
    pub fn encrypt_effect(&mut self, pk: &mut Encryptor) -> (r: Vec<(u128, Cipher)>)
        requires
            loadout_plain(*old(self)),
            old(pk).plaintexts.len() + loadout_permits(*old(self)).len() <= u64::MAX,
        ensures
            same_loadout_but_effect(*old(self), *final(self)),
            loadout_effects(*final(self)) == decisions(effect_keys(r@)),
            effect_circs(r@) == fresh_inputs(old(pk).plaintexts.len() as int, loadout_permits(*old(self)).len()),
            clears(final(pk).plaintexts@) == clears(old(pk).plaintexts@) + bool_plaintexts(
                loadout_permits(*old(self)),
            ),
            r.len() == loadout_permits(*old(self)).len(),
            forall|i: int|
                0 <= i < r.len() ==> decrypt((#[trigger] r@[i]).1.circ(), env_of(clears(final(pk).plaintexts@)))
                    == ClearV::Bool(loadout_permits(*old(self))[i]),
            effect_keys(r@).no_duplicates(),
    {
        let mut used: Vec<u128> = Vec::new();
        let r = self.encrypt_effect_avoiding(pk, &mut used);
        proof {
            assert(used@ =~= effect_keys(r@));
        }
        r
    }

    /// The same encryption, drawing each key so that it is none of `used`
    /// nor of the keys drawn before it, and adding the keys drawn to `used`.
    fn encrypt_effect_avoiding(&mut self, pk: &mut Encryptor, used: &mut Vec<u128>) -> (r: Vec<(u128, Cipher)>)
        requires
            loadout_plain(*old(self)),
            old(pk).plaintexts.len() + loadout_permits(*old(self)).len() <= u64::MAX,
            old(used)@.no_duplicates(),
        ensures
            same_loadout_but_effect(*old(self), *final(self)),
            loadout_effects(*final(self)) == decisions(effect_keys(r@)),
            effect_circs(r@) == fresh_inputs(old(pk).plaintexts.len() as int, loadout_permits(*old(self)).len()),
            clears(final(pk).plaintexts@) == clears(old(pk).plaintexts@) + bool_plaintexts(
                loadout_permits(*old(self)),
            ),
            r.len() == loadout_permits(*old(self)).len(),
            forall|i: int|
                0 <= i < r.len() ==> decrypt((#[trigger] r@[i]).1.circ(), env_of(clears(final(pk).plaintexts@)))
                    == ClearV::Bool(loadout_permits(*old(self))[i]),
            final(used)@ == old(used)@ + effect_keys(r@),
            final(used)@.no_duplicates(),
    {
        let ghost used0 = used@;
        let ghost h = pk.plaintexts.len() as int;
        let ghost bs = loadout_permits(*self);
        let r = match self {
            Loadout::Policy(p) => p.encrypt_effect_avoiding(pk, used),
            Loadout::PolicySet(ps) => ps.encrypt_effect_avoiding(pk, used),
        };
        proof {
            let cs = clears(pk.plaintexts@);
            assert(effect_circs(r@).len() == r@.len());
            assert forall|i: int| 0 <= i < r.len() implies decrypt(
                (#[trigger] r@[i]).1.circ(),
                env_of(cs),
            ) == ClearV::Bool(bs[i]) by {
                assert(effect_circs(r@)[i] == r@[i].1.circ());
                assert(r@[i].1.circ() == Circ::Input((h + i) as u64));
                assert(cs[h + i] == bool_plaintexts(bs)[i]);
            }
        }
        r
    }
}

/// The encrypted effects, made into a map, are found again under their own
/// keys: encryption draws distinct keys, so the key that each rule records
/// leads back to that rule's own encrypted effect.
pub proof fn lemma_effects_found_under_their_keys(r: Seq<(u128, Cipher)>)
    requires
        effect_keys(r).no_duplicates(),
    ensures
        forall|i: int|
            0 <= i < r.len() ==> pairs_map(r).contains_key(#[trigger] r[i].0) && pairs_map(r)[r[i].0] == r[i].1,
{
    assert forall|i: int, j: int| 0 <= i < j < r.len() implies #[trigger] r[i].0 != #[trigger] r[j].0 by {
        assert(effect_keys(r)[i] == r[i].0 && effect_keys(r)[j] == r[j].0);
    }
    lemma_pairs_map_distinct(r);
}

} // verus!
