//! Encryption of plain attribute values under a public key.
//!
//! Each scalar of a value becomes a fresh ciphertext. A ciphertext is known
//! by its handle; the key holder keeps, for each handle, the plaintext that
//! the ciphertext carries. Strings are trimmed before they are encrypted.

use vstd::prelude::*;
use crate::agreement::{agrees, decrypt, encrypts, lemma_encrypted_binary_agrees, refinable};
use crate::constants::XacmlFunction;
use crate::enc_spec::esem_binary;
use crate::plain_spec::sem_binary;
use crate::cipher::{Cipher, Circ, Clear, ClearV, EValue, EncryptedTypes, HDnsName, HRfc822Name, HX500Name};
use crate::intermediate::{copy_bytes, IntermediateTypes, Value, X500Name};
use crate::lexical::{trim, trim_ws};

verus! {

/// The plaintexts behind the ciphertexts issued under a public key: the
/// ciphertext with handle `h` carries `plaintexts[h]`.
pub struct Encryptor {
    pub plaintexts: Vec<Clear>,
}

/// The models of plaintexts.
pub open spec fn clears(p: Seq<Clear>) -> Seq<ClearV> {
    p.map_values(|c: Clear| c.view())
}

/// What each handle decrypts to, given the plaintexts in handle order.
pub open spec fn env_of(cs: Seq<ClearV>) -> Map<u64, ClearV> {
    Map::new(|h: u64| (h as int) < cs.len(), |h: u64| cs[h as int])
}

/// A string that encryption accepts: ASCII, without NUL characters.
pub open spec fn ascii_text(s: Seq<char>) -> bool {
    forall|i: int| 0 <= i < s.len() ==> 0 < (#[trigger] s[i] as int) < 128
}

/// Whether every string of `v`, once trimmed, can be encrypted.
pub open spec fn encryptable(v: Value) -> bool
    decreases v,
{
    match v {
        Value::Str(s) => ascii_text(trim_ws(s)),
        Value::AnyUri(s) => ascii_text(trim_ws(s)),
        Value::IpAddress(s) => ascii_text(trim_ws(s)),
        Value::Rfc822Name(l, d) => ascii_text(trim_ws(l)) && ascii_text(trim_ws(d)),
        Value::X500Name(m) => forall|i: int| 0 <= i < m.len() ==> ascii_text(trim_ws((#[trigger] m[i]).1)),
        Value::DnsName(a, _, _) => ascii_text(trim_ws(a)),
        Value::Bag(vs) => forall|i: int| 0 <= i < vs.len() ==> encryptable(#[trigger] vs[i]),
        _ => true,
    }
}

/// The value that an encryption of `v` stands for: `v` with its strings trimmed.
pub open spec fn trim_value(v: Value) -> Value
    decreases v,
{
    match v {
        Value::Str(s) => Value::Str(trim_ws(s)),
        Value::AnyUri(s) => Value::AnyUri(trim_ws(s)),
        Value::IpAddress(s) => Value::IpAddress(trim_ws(s)),
        Value::Rfc822Name(l, d) => Value::Rfc822Name(trim_ws(l), trim_ws(d)),
        Value::X500Name(m) => Value::X500Name(m.map_values(|p: (Seq<char>, Seq<char>)| (p.0, trim_ws(p.1)))),
        Value::DnsName(a, s, e) => Value::DnsName(trim_ws(a), s, e),
        Value::Bag(vs) => Value::Bag(
            Seq::new(vs.len(), |i: int| if 0 <= i < vs.len() { trim_value(vs[i]) } else { Value::Nothing }),
        ),
        other => other,
    }
}

/// The plaintexts that encrypting `v` issues, in order.
pub open spec fn plain_parts(v: Value) -> Seq<ClearV>
    decreases v, 0int,
{
    match v {
        Value::Str(s) => seq![ClearV::Str(trim_ws(s))],
        Value::Integer(x) => seq![ClearV::Int(x as i128)],
        Value::Double(x) => seq![ClearV::Int(x)],
        Value::Boolean(b) => seq![ClearV::Bool(b)],
        Value::Time(t) => seq![ClearV::Int(t as i128)],
        Value::Date(x) => seq![ClearV::Int(x as i128)],
        Value::DateTime(x) => seq![ClearV::Int(x as i128)],
        Value::DayTimeDuration(x) => seq![ClearV::Int(x as i128)],
        Value::YearMonthDuration(x) => seq![ClearV::Int(x as i128)],
        Value::AnyUri(s) => seq![ClearV::Str(trim_ws(s))],
        Value::HexBinary(b) => seq![ClearV::Bytes(b)],
        Value::Base64Binary(b) => seq![ClearV::Bytes(b)],
        Value::Rfc822Name(l, d) => seq![ClearV::Str(trim_ws(l)), ClearV::Str(trim_ws(d))],
        Value::X500Name(m) => m.map_values(|p: (Seq<char>, Seq<char>)| ClearV::Str(trim_ws(p.1))),
        Value::DnsName(a, s, e) => seq![ClearV::Str(trim_ws(a)), ClearV::Int(s as i128), ClearV::Int(e as i128)],
        Value::IpAddress(s) => seq![ClearV::Str(trim_ws(s))],
        Value::Bag(vs) => bag_parts_upto(vs, vs.len() as int),
        Value::Nothing => Seq::empty(),
    }
}

/// The plaintexts that encrypting the first `n` values of a bag issues.
pub open spec fn bag_parts_upto(vs: Seq<Value>, n: int) -> Seq<ClearV>
    decreases vs, n,
{
    if n <= 0 || n > vs.len() {
        Seq::empty()
    } else {
        bag_parts_upto(vs, n - 1) + plain_parts(vs[n - 1])
    }
}

/// The encrypted form of `v` whose ciphertexts are issued from handle `h`
/// on, one per scalar, in order.
pub open spec fn fresh_shape(v: Value, h: int) -> EValue
    decreases v,
{
    match v {
        Value::Str(_) => EValue::Str(Circ::Input(h as u64)),
        Value::Integer(_) => EValue::Integer(Circ::Input(h as u64)),
        Value::Double(_) => EValue::Double(Circ::Input(h as u64)),
        Value::Boolean(_) => EValue::Boolean(Circ::Input(h as u64)),
        Value::Time(_) => EValue::Time(Circ::Input(h as u64)),
        Value::Date(_) => EValue::Date(Circ::Input(h as u64)),
        Value::DateTime(_) => EValue::DateTime(Circ::Input(h as u64)),
        Value::DayTimeDuration(_) => EValue::DayTimeDuration(Circ::Input(h as u64)),
        Value::YearMonthDuration(_) => EValue::YearMonthDuration(Circ::Input(h as u64)),
        Value::AnyUri(_) => EValue::AnyUri(Circ::Input(h as u64)),
        Value::HexBinary(_) => EValue::HexBinary(Circ::Input(h as u64)),
        Value::Base64Binary(_) => EValue::Base64Binary(Circ::Input(h as u64)),
        Value::Rfc822Name(_, _) => EValue::Rfc822Name(Circ::Input(h as u64), Circ::Input((h + 1) as u64)),
        Value::X500Name(m) => EValue::X500Name(
            Seq::new(m.len(), |i: int| (m[i].0, Circ::Input((h + i) as u64))),
        ),
        Value::DnsName(_, _, _) => EValue::DnsName(
            Circ::Input(h as u64),
            Circ::Input((h + 1) as u64),
            Circ::Input((h + 2) as u64),
        ),
        Value::IpAddress(_) => EValue::IpAddress(Circ::Input(h as u64)),
        Value::Bag(vs) => EValue::Bag(
            Seq::new(
                vs.len(),
                |i: int| if 0 <= i < vs.len() {
                    fresh_shape(vs[i], h + bag_parts_upto(vs, i).len())
                } else {
                    EValue::Nothing
                },
            ),
        ),
        Value::Nothing => EValue::Nothing,
    }
}

impl Encryptor {
    /// A key holder that has issued no ciphertext yet.
    pub fn new() -> (r: Encryptor)
        ensures
            r.plaintexts@ == Seq::<Clear>::empty(),
    {
        Encryptor { plaintexts: Vec::new() }
    }

    /// A fresh ciphertext of `c`.
    pub(crate) fn issue(&mut self, c: Clear) -> (r: Cipher)
        requires
            old(self).plaintexts.len() < u64::MAX,
        ensures
            r.circ() == Circ::Input(old(self).plaintexts.len() as u64),
            final(self).plaintexts@ == old(self).plaintexts@.push(c),
    {
        let h = self.plaintexts.len() as u64;
        self.plaintexts.push(c);
        Cipher::Input(h)
    }
}

proof fn lemma_bag_parts_mono(vs: Seq<Value>, i: int, n: int)
    requires
        0 <= i <= n <= vs.len(),
    ensures
        bag_parts_upto(vs, i).len() <= bag_parts_upto(vs, n).len(),
    decreases n - i,
{
    if i < n {
        lemma_bag_parts_mono(vs, i, n - 1);
    }
}

proof fn lemma_clears_push(p: Seq<Clear>, c: Clear)
    ensures
        clears(p.push(c)) =~= clears(p).push(c.view()),
{
}

/// A fresh ciphertext of the trimmed string `s`.
fn issue_text(pk: &mut Encryptor, s: &String) -> (r: Cipher)
    requires
        old(pk).plaintexts.len() < u64::MAX,
    ensures
        r.circ() == Circ::Input(old(pk).plaintexts.len() as u64),
        clears(final(pk).plaintexts@) == clears(old(pk).plaintexts@).push(ClearV::Str(trim_ws(s@))),
        final(pk).plaintexts.len() == old(pk).plaintexts.len() + 1,
{
    let t = trim(s.as_str());
    proof {
        lemma_clears_push(pk.plaintexts@, Clear::Str(t));
    }
    pk.issue(Clear::Str(t))
}

/// A fresh ciphertext of the integer `x`.
fn issue_int(pk: &mut Encryptor, x: i128) -> (r: Cipher)
    requires
        old(pk).plaintexts.len() < u64::MAX,
    ensures
        r.circ() == Circ::Input(old(pk).plaintexts.len() as u64),
        clears(final(pk).plaintexts@) == clears(old(pk).plaintexts@).push(ClearV::Int(x)),
        final(pk).plaintexts.len() == old(pk).plaintexts.len() + 1,
{
    proof {
        lemma_clears_push(pk.plaintexts@, Clear::Int(x));
    }
    pk.issue(Clear::Int(x))
}

/// Encrypts the values of an X.500 name, keeping the attribute names.
fn encrypt_x500(n: &X500Name, pk: &mut Encryptor) -> (r: HX500Name)
    requires
        encryptable(Value::X500Name(n.view_entries())),
        old(pk).plaintexts.len() + n.view_entries().len() <= u64::MAX,
    ensures
        EValue::X500Name(r.entries()) == fresh_shape(Value::X500Name(n.view_entries()), old(pk).plaintexts.len() as int),
        clears(final(pk).plaintexts@) == clears(old(pk).plaintexts@) + plain_parts(Value::X500Name(n.view_entries())),
{
    let ghost m = n.view_entries();
    let ghost p0 = clears(pk.plaintexts@);
    let ghost base = pk.plaintexts.len() as int;
    let ghost parts = plain_parts(Value::X500Name(m));
    let mut val: Vec<(String, Cipher)> = Vec::new();
    let mut i: usize = 0;
    while i < n.entries.len()
        invariant
            i <= n.entries.len(),
            m == n.view_entries(),
            m.len() == n.entries.len(),
            parts == plain_parts(Value::X500Name(m)),
            parts.len() == m.len(),
            base + m.len() <= u64::MAX,
            val.len() == i,
            pk.plaintexts.len() == base + i,
            clears(pk.plaintexts@) =~= p0 + parts.take(i as int),
            forall|j: int| 0 <= j < i ==> (#[trigger] val@[j]).0@ == m[j].0 && val@[j].1.circ()
                == Circ::Input((base + j) as u64),
        decreases n.entries.len() - i,
    {
        let c = issue_text(pk, &n.entries[i].1);
        val.push((n.entries[i].0.clone(), c));
        assert(parts.take(i + 1) =~= parts.take(i as int).push(ClearV::Str(trim_ws(m[i as int].1))));
        i = i + 1;
    }
    let r = HX500Name::new(val);
    assert(r.entries() =~= Seq::new(m.len(), |k: int| (m[k].0, Circ::Input((base + k) as u64))));
    assert(parts.take(m.len() as int) =~= parts);
    r
}

/// Encrypts the values of a bag, in order.
fn encrypt_bag(v: &Vec<IntermediateTypes>, pk: &mut Encryptor) -> (r: Vec<EncryptedTypes>)
    requires
        encryptable(Value::Bag(IntermediateTypes::values_of(v@))),
        old(pk).plaintexts.len() + plain_parts(Value::Bag(IntermediateTypes::values_of(v@))).len() <= u64::MAX,
    ensures
        EValue::Bag(EncryptedTypes::values_of(r@)) == fresh_shape(
            Value::Bag(IntermediateTypes::values_of(v@)),
            old(pk).plaintexts.len() as int,
        ),
        clears(final(pk).plaintexts@) == clears(old(pk).plaintexts@) + plain_parts(
            Value::Bag(IntermediateTypes::values_of(v@)),
        ),
    decreases v,
{
    let ghost vs = IntermediateTypes::values_of(v@);
    let ghost p0 = clears(pk.plaintexts@);
    let ghost base = pk.plaintexts.len() as int;
    let mut out: Vec<EncryptedTypes> = Vec::new();
    let mut i: usize = 0;
    while i < v.len()
        invariant
            vs == IntermediateTypes::values_of(v@),
            vs.len() == v.len(),
            encryptable(Value::Bag(vs)),
            i <= v.len(),
            base + bag_parts_upto(vs, vs.len() as int).len() <= u64::MAX,
            out.len() == i,
            pk.plaintexts.len() == base + bag_parts_upto(vs, i as int).len(),
            clears(pk.plaintexts@) =~= p0 + bag_parts_upto(vs, i as int),
            forall|j: int| 0 <= j < i ==> (#[trigger] out@[j]).value() == fresh_shape(
                vs[j],
                base + bag_parts_upto(vs, j).len(),
            ),
        decreases v.len() - i,
    {
        proof {
            assert(decreases_to!(*v => v@));
            assert(decreases_to!(v@ => v@[i as int]));
            assert(vs[i as int] == v@[i as int].value());
            let ghost bv = Value::Bag(vs);
            assert(decreases_to!(bv => bv->Bag_0));
            assert(decreases_to!(vs => vs[i as int]));
            assert(encryptable(vs[i as int]));
            lemma_bag_parts_mono(vs, i + 1, vs.len() as int);
        }
        let e = EncryptedTypes::encrypt_value(&v[i], pk);
        out.push(e);
        assert(bag_parts_upto(vs, i + 1) == bag_parts_upto(vs, i as int) + plain_parts(vs[i as int]));
        assert(clears(pk.plaintexts@) =~= p0 + bag_parts_upto(vs, i + 1));
        i = i + 1;
    }
    let ghost expected = Seq::new(
        vs.len(),
        |k: int| if 0 <= k < vs.len() {
            fresh_shape(vs[k], base + bag_parts_upto(vs, k).len())
        } else {
            EValue::Nothing
        },
    );
    assert(EncryptedTypes::values_of(out@) =~= expected);
    let ghost bv = Value::Bag(vs);
    assert(decreases_to!(bv => bv->Bag_0));
    assert(fresh_shape(bv, base) is Bag);
    assert(fresh_shape(bv, base)->Bag_0.len() == vs.len());
    assert forall|k: int| 0 <= k < vs.len() implies fresh_shape(bv, base)->Bag_0[k] == expected[k] by {
        assert(decreases_to!(vs => vs[k]));
    }
    assert(fresh_shape(bv, base)->Bag_0 =~= expected);
    out
}

impl EncryptedTypes {
    /// Encrypts a plain value under the public key: every scalar becomes a
    /// fresh ciphertext, issued in order, strings trimmed; X.500 attribute
    /// names stay public. The result decrypts to the value with its strings
    /// trimmed.
    pub fn encrypt(t: &IntermediateTypes, pk: &mut Encryptor) -> (r: EncryptedTypes)
        requires
            encryptable(t.value()),
            old(pk).plaintexts.len() + plain_parts(t.value()).len() <= u64::MAX,
        ensures
            r.value() == fresh_shape(t.value(), old(pk).plaintexts.len() as int),
            clears(final(pk).plaintexts@) == clears(old(pk).plaintexts@) + plain_parts(t.value()),
            encrypts(r.value(), env_of(clears(final(pk).plaintexts@)), trim_value(t.value())),
    {
        let ghost before = clears(pk.plaintexts@);
        let r = Self::encrypt_value(t, pk);
        proof {
            let cs = clears(pk.plaintexts@);
            let h = before.len() as int;
            assert forall|k: int| 0 <= k < plain_parts(t.value()).len() implies cs[h + k]
                == #[trigger] plain_parts(t.value())[k] by {}
            lemma_fresh_encrypts(t.value(), h, cs);
        }
        r
    }

    /// The fresh encryption of a plain value.
    #[verifier::rlimit(30)]
    fn encrypt_value(t: &IntermediateTypes, pk: &mut Encryptor) -> (r: EncryptedTypes)
        requires
            encryptable(t.value()),
            old(pk).plaintexts.len() + plain_parts(t.value()).len() <= u64::MAX,
        ensures
            r.value() == fresh_shape(t.value(), old(pk).plaintexts.len() as int),
            clears(final(pk).plaintexts@) == clears(old(pk).plaintexts@) + plain_parts(t.value()),
        decreases t,
    {
        match t {
            IntermediateTypes::String(s) => EncryptedTypes::String(issue_text(pk, s)),
            IntermediateTypes::Integer(x) => EncryptedTypes::Integer(issue_int(pk, *x as i128)),
            IntermediateTypes::Double(x) => EncryptedTypes::Double(issue_int(pk, *x)),
            IntermediateTypes::Boolean(b) => {
                proof {
                    lemma_clears_push(pk.plaintexts@, Clear::Bool(*b));
                }
                EncryptedTypes::Boolean(pk.issue(Clear::Bool(*b)))
            },
            IntermediateTypes::Time(x) => EncryptedTypes::Time(issue_int(pk, *x as i128)),
            IntermediateTypes::Date(x) => EncryptedTypes::Date(issue_int(pk, *x as i128)),
            IntermediateTypes::DateTime(x) => EncryptedTypes::DateTime(issue_int(pk, *x as i128)),
            IntermediateTypes::DayTimeDuration(x) => EncryptedTypes::DayTimeDuration(issue_int(pk, *x as i128)),
            IntermediateTypes::YearMonthDuration(x) => EncryptedTypes::YearMonthDuration(issue_int(pk, *x as i128)),
            IntermediateTypes::AnyUri(s) => EncryptedTypes::AnyUri(issue_text(pk, s)),
            IntermediateTypes::HexBinary(b) => {
                let c = Clear::Bytes(copy_bytes(b));
                proof {
                    lemma_clears_push(pk.plaintexts@, c);
                }
                EncryptedTypes::HexBinary(pk.issue(c))
            },
            IntermediateTypes::Base64Binary(b) => {
                let c = Clear::Bytes(copy_bytes(b));
                proof {
                    lemma_clears_push(pk.plaintexts@, c);
                }
                EncryptedTypes::Base64Binary(pk.issue(c))
            },
            IntermediateTypes::Rfc822Name(l, d) => {
                let ghost p0 = clears(pk.plaintexts@);
                let cl = issue_text(pk, l);
                let cd = issue_text(pk, d);
                assert(clears(pk.plaintexts@) =~= p0 + plain_parts(t.value()));
                EncryptedTypes::Rfc822Name(HRfc822Name::new(cl, cd))
            },
            IntermediateTypes::DnsName(a, s, e) => {
                let ghost p0 = clears(pk.plaintexts@);
                let ca = issue_text(pk, a);
                let cs = issue_int(pk, *s as i128);
                let ce = issue_int(pk, *e as i128);
                assert(clears(pk.plaintexts@) =~= p0 + plain_parts(t.value()));
                EncryptedTypes::DnsName(HDnsName::new(ca, cs, ce))
            },
            IntermediateTypes::IpAddress(s) => EncryptedTypes::IpAddress(issue_text(pk, s)),
            IntermediateTypes::X500Name(n) => EncryptedTypes::X500Name(encrypt_x500(n, pk)),
            IntermediateTypes::Bag(v) => EncryptedTypes::Bag(encrypt_bag(v, pk)),
            IntermediateTypes::Nothing => {
                assert(clears(pk.plaintexts@) + Seq::<ClearV>::empty() =~= clears(pk.plaintexts@));
                EncryptedTypes::Nothing
            },
        }
    }
}

proof fn lemma_bag_parts_slice(vs: Seq<Value>, i: int, n: int)
    requires
        0 <= i < n <= vs.len(),
    ensures
        bag_parts_upto(vs, i).len() + plain_parts(vs[i]).len() <= bag_parts_upto(vs, n).len(),
        forall|k: int|
            0 <= k < plain_parts(vs[i]).len() ==> bag_parts_upto(vs, n)[bag_parts_upto(vs, i).len() + k]
                == #[trigger] plain_parts(vs[i])[k],
    decreases n,
{
    if n > i + 1 {
        lemma_bag_parts_slice(vs, i, n - 1);
    }
}

/// Encryption is correct: the fresh ciphertexts of a value, issued from
/// handle `h` on, decrypt to the value with its strings trimmed, provided
/// the key holder's plaintexts from `h` on are the ones that encryption
/// issued.
pub proof fn lemma_fresh_encrypts(v: Value, h: int, cs: Seq<ClearV>)
    requires
        0 <= h,
        h + plain_parts(v).len() <= cs.len(),
        cs.len() <= u64::MAX,
        forall|k: int| 0 <= k < plain_parts(v).len() ==> cs[h + k] == #[trigger] plain_parts(v)[k],
    ensures
        encrypts(fresh_shape(v, h), env_of(cs), trim_value(v)),
    decreases v,
{
    let env = env_of(cs);
    match v {
        Value::Rfc822Name(l, d) => {
            assert(plain_parts(v)[0] == ClearV::Str(trim_ws(l)));
            assert(plain_parts(v)[1] == ClearV::Str(trim_ws(d)));
        },
        Value::DnsName(a, st, e) => {
            assert(plain_parts(v)[0] == ClearV::Str(trim_ws(a)));
            assert(plain_parts(v)[1] == ClearV::Int(st as i128));
            assert(plain_parts(v)[2] == ClearV::Int(e as i128));
        },
        Value::X500Name(m) => {
            let em = fresh_shape(v, h)->X500Name_0;
            let tm = trim_value(v)->X500Name_0;
            assert forall|i: int| 0 <= i < em.len() implies (#[trigger] em[i]).0 == tm[i].0 && decrypt(em[i].1, env)
                == ClearV::Str(tm[i].1) by {
                assert(plain_parts(v)[i] == ClearV::Str(trim_ws(m[i].1)));
            }
        },
        Value::Bag(vs) => {
            let es = fresh_shape(v, h)->Bag_0;
            let ts = trim_value(v)->Bag_0;
            assert(decreases_to!(v => v->Bag_0));
            assert forall|i: int| 0 <= i < es.len() implies encrypts(#[trigger] es[i], env, ts[i]) by {
                assert(decreases_to!(vs => vs[i]));
                let off = bag_parts_upto(vs, i).len() as int;
                lemma_bag_parts_slice(vs, i, vs.len() as int);
                assert forall|k: int| 0 <= k < plain_parts(vs[i]).len() implies cs[h + off + k]
                    == #[trigger] plain_parts(vs[i])[k] by {
                    assert(plain_parts(v)[off + k] == plain_parts(vs[i])[k]);
                }
                lemma_fresh_encrypts(vs[i], h + off, cs);
            }
        },
        _ => {
            assert(plain_parts(v)[0] == plain_parts(v)[0]);
        },
    }
}

/// Encrypting two plain values and evaluating a two-argument function over
/// the ciphertexts agrees with evaluating it over the (trimmed) plain values:
/// for a function in which no e-mail name equality or integer-mod occurs,
/// whenever the plain evaluation succeeds, the encrypted evaluation succeeds
/// too and its result decrypts to the plain result.
pub proof fn lemma_encrypt_then_evaluate(f: XacmlFunction, a: Value, b: Value, h: int, cs: Seq<ClearV>)
    requires
        refinable(f),
        0 <= h,
        h + plain_parts(a).len() + plain_parts(b).len() <= cs.len(),
        cs.len() <= u64::MAX,
        cs.subrange(h, h + plain_parts(a).len() + plain_parts(b).len()) == plain_parts(a) + plain_parts(b),
    ensures
        sem_binary(f, trim_value(a), trim_value(b)) matches Some(Ok(v)) ==> {
            let r = esem_binary(f, fresh_shape(a, h), fresh_shape(b, h + plain_parts(a).len()));
            r is Ok && encrypts(r->Ok_0, env_of(cs), v)
        },
{
    let na = plain_parts(a).len() as int;
    let nb = plain_parts(b).len() as int;
    assert forall|k: int| 0 <= k < na implies cs[h + k] == #[trigger] plain_parts(a)[k] by {
        assert(cs.subrange(h, h + na + nb)[k] == cs[h + k]);
    }
    assert forall|k: int| 0 <= k < nb implies cs[h + na + k] == #[trigger] plain_parts(b)[k] by {
        assert(cs.subrange(h, h + na + nb)[na + k] == cs[h + na + k]);
    }
    lemma_fresh_encrypts(a, h, cs);
    lemma_fresh_encrypts(b, h + na, cs);
    lemma_encrypted_binary_agrees(f, env_of(cs));
    assert(agrees(f, env_of(cs), fresh_shape(a, h), fresh_shape(b, h + na), trim_value(a), trim_value(b)));
}

} // verus!
