//! Encrypted attribute values.
//!
//! An encrypted value is described by the homomorphic computation that
//! yields it: a ciphertext handed in by the caller, a trivial (public)
//! encryption of a known value, or a homomorphic operation applied to other
//! encrypted values. The evaluators build these descriptions; a backend
//! that holds the keys runs them.

use vstd::prelude::*;
use crate::intermediate::{copy_bytes, IntermediateTypes, Value};

verus! {

/// A homomorphic operation.
#[derive(Debug, PartialEq, Eq, Clone, Copy)]
pub enum HOp {
    Eq,
    Gt,
    Ge,
    Lt,
    Le,
    Add,
    Sub,
    Mul,
    Div,
    Abs,
    Not,
    And,
    Or,
    EqIgnoreCase,
    Concat,
    Contains,
    StartsWith,
    EndsWith,
    ArrayEq,
}

/// A public value that is encrypted trivially.
#[derive(Debug, PartialEq)]
pub enum Clear {
    Int(i128),
    Bool(bool),
    Str(String),
    Bytes(Vec<u8>),
}

/// The model of a public value.
pub enum ClearV {
    Int(i128),
    Bool(bool),
    Str(Seq<char>),
    Bytes(Seq<u8>),
}

/// An encrypted scalar, described by how it is computed.
#[derive(Debug, PartialEq)]
pub enum Cipher {
    /// The ciphertext that the caller supplies under this handle.
    Input(u64),
    /// A trivial encryption of a public value.
    Trivial(Clear),
    Unary(HOp, Box<Cipher>),
    Binary(HOp, Box<Cipher>, Box<Cipher>),
    /// Homomorphic selection: the second value where the first holds, else the third.
    Select(Box<Cipher>, Box<Cipher>, Box<Cipher>),
}

/// The model of an encrypted scalar.
pub enum Circ {
    Input(u64),
    Trivial(ClearV),
    Unary(HOp, Box<Circ>),
    Binary(HOp, Box<Circ>, Box<Circ>),
    Select(Box<Circ>, Box<Circ>, Box<Circ>),
}

/// The computation `op(a)`.
pub open spec fn un(op: HOp, a: Circ) -> Circ {
    Circ::Unary(op, Box::new(a))
}

/// The computation `op(a, b)`.
pub open spec fn bin(op: HOp, a: Circ, b: Circ) -> Circ {
    Circ::Binary(op, Box::new(a), Box::new(b))
}

/// A trivially encrypted truth value.
pub open spec fn tbool(b: bool) -> Circ {
    Circ::Trivial(ClearV::Bool(b))
}

impl Clear {
    pub open spec fn view(self) -> ClearV {
        match self {
            Clear::Int(x) => ClearV::Int(x),
            Clear::Bool(b) => ClearV::Bool(b),
            Clear::Str(s) => ClearV::Str(s@),
            Clear::Bytes(v) => ClearV::Bytes(v@),
        }
    }

    pub fn duplicate(&self) -> (r: Clear)
        ensures
            r.view() == self.view(),
    {
        match self {
            Clear::Int(x) => Clear::Int(*x),
            Clear::Bool(b) => Clear::Bool(*b),
            Clear::Str(s) => Clear::Str(s.clone()),
            Clear::Bytes(v) => Clear::Bytes(copy_bytes(v)),
        }
    }
}

impl Cipher {
    /// The model of this computation.
    pub open spec fn circ(self) -> Circ
        decreases self,
    {
        match self {
            Cipher::Input(h) => Circ::Input(h),
            Cipher::Trivial(c) => Circ::Trivial(c.view()),
            Cipher::Unary(op, a) => Circ::Unary(op, Box::new(a.circ())),
            Cipher::Binary(op, a, b) => Circ::Binary(op, Box::new(a.circ()), Box::new(b.circ())),
            Cipher::Select(c, a, b) => Circ::Select(Box::new(c.circ()), Box::new(a.circ()), Box::new(b.circ())),
        }
    }

    /// A copy of this computation.
    pub fn duplicate(&self) -> (r: Cipher)
        ensures
            r.circ() == self.circ(),
        decreases self,
    {
        match self {
            Cipher::Input(h) => Cipher::Input(*h),
            Cipher::Trivial(c) => Cipher::Trivial(c.duplicate()),
            Cipher::Unary(op, a) => Cipher::Unary(*op, Box::new((**a).duplicate())),
            Cipher::Binary(op, a, b) => Cipher::Binary(*op, Box::new((**a).duplicate()), Box::new((**b).duplicate())),
            Cipher::Select(c, a, b) => Cipher::Select(
                Box::new((**c).duplicate()),
                Box::new((**a).duplicate()),
                Box::new((**b).duplicate()),
            ),
        }
    }

    /// The computation `op(a)`.
    pub fn unary(op: HOp, a: &Cipher) -> (r: Cipher)
        ensures
            r.circ() == un(op, a.circ()),
    {
        Cipher::Unary(op, Box::new(a.duplicate()))
    }

    /// The computation `op(a, b)`.
    pub fn binary(op: HOp, a: &Cipher, b: &Cipher) -> (r: Cipher)
        ensures
            r.circ() == bin(op, a.circ(), b.circ()),
    {
        Cipher::Binary(op, Box::new(a.duplicate()), Box::new(b.duplicate()))
    }

    /// A trivially encrypted truth value.
    pub fn trivial_bool(b: bool) -> (r: Cipher)
        ensures
            r.circ() == tbool(b),
    {
        Cipher::Trivial(Clear::Bool(b))
    }
}

/// An encrypted e-mail name: its local part and its domain part.
#[derive(Debug, PartialEq)]
pub struct HRfc822Name {
    pub localpart: Cipher,
    pub domainpart: Cipher,
}

impl HRfc822Name {
    pub fn new(localpart: Cipher, domainpart: Cipher) -> (r: HRfc822Name)
        ensures
            r.localpart == localpart,
            r.domainpart == domainpart,
    {
        HRfc822Name { localpart, domainpart }
    }
}

/// An encrypted X.500 name: public attribute names with encrypted values,
/// held as a list whose attribute names are distinct.
#[derive(Debug, PartialEq)]
pub struct HX500Name {
    pub val: Vec<(String, Cipher)>,
}

impl HX500Name {
    pub fn new(val: Vec<(String, Cipher)>) -> (r: HX500Name)
        ensures
            r.val == val,
    {
        HX500Name { val }
    }

    /// The (attribute, value) pairs of this name.
    pub open spec fn entries(self) -> Seq<(Seq<char>, Circ)> {
        self.val@.map_values(|p: (String, Cipher)| (p.0@, p.1.circ()))
    }
}

/// An encrypted DNS name: the host and the port range.
#[derive(Debug, PartialEq)]
pub struct HDnsName {
    pub adr: Cipher,
    pub start_port: Cipher,
    pub end_port: Cipher,
}

impl HDnsName {
    pub fn new(adr: Cipher, start_port: Cipher, end_port: Cipher) -> (r: HDnsName)
        ensures
            r.adr == adr,
            r.start_port == start_port,
            r.end_port == end_port,
    {
        HDnsName { adr, start_port, end_port }
    }
}

/// An encrypted attribute value.
#[derive(Debug, PartialEq)]
pub enum EncryptedTypes {
    Integer(Cipher),
    Double(Cipher),
    String(Cipher),
    Boolean(Cipher),
    Time(Cipher),
    Date(Cipher),
    DateTime(Cipher),
    DayTimeDuration(Cipher),
    YearMonthDuration(Cipher),
    AnyUri(Cipher),
    HexBinary(Cipher),
    Base64Binary(Cipher),
    Rfc822Name(HRfc822Name),
    X500Name(HX500Name),
    DnsName(HDnsName),
    IpAddress(Cipher),
    Bag(Vec<EncryptedTypes>),
    Nothing,
}

/// The model of an encrypted attribute value.
pub enum EValue {
    Integer(Circ),
    Double(Circ),
    Str(Circ),
    Boolean(Circ),
    Time(Circ),
    Date(Circ),
    DateTime(Circ),
    DayTimeDuration(Circ),
    YearMonthDuration(Circ),
    AnyUri(Circ),
    HexBinary(Circ),
    Base64Binary(Circ),
    Rfc822Name(Circ, Circ),
    X500Name(Seq<(Seq<char>, Circ)>),
    DnsName(Circ, Circ, Circ),
    IpAddress(Circ),
    Bag(Seq<EValue>),
    Nothing,
}

impl EncryptedTypes {
    /// The models of a sequence of values.
    pub open spec fn values_of(s: Seq<EncryptedTypes>) -> Seq<EValue>
        decreases s,
    {
        Seq::new(s.len(), |i: int| if 0 <= i < s.len() { s[i].value() } else { EValue::Nothing })
    }

    /// The model of this value.
    pub open spec fn value(self) -> EValue
        decreases self,
    {
        match self {
            EncryptedTypes::Integer(c) => EValue::Integer(c.circ()),
            EncryptedTypes::Double(c) => EValue::Double(c.circ()),
            EncryptedTypes::String(c) => EValue::Str(c.circ()),
            EncryptedTypes::Boolean(c) => EValue::Boolean(c.circ()),
            EncryptedTypes::Time(c) => EValue::Time(c.circ()),
            EncryptedTypes::Date(c) => EValue::Date(c.circ()),
            EncryptedTypes::DateTime(c) => EValue::DateTime(c.circ()),
            EncryptedTypes::DayTimeDuration(c) => EValue::DayTimeDuration(c.circ()),
            EncryptedTypes::YearMonthDuration(c) => EValue::YearMonthDuration(c.circ()),
            EncryptedTypes::AnyUri(c) => EValue::AnyUri(c.circ()),
            EncryptedTypes::HexBinary(c) => EValue::HexBinary(c.circ()),
            EncryptedTypes::Base64Binary(c) => EValue::Base64Binary(c.circ()),
            EncryptedTypes::Rfc822Name(n) => EValue::Rfc822Name(n.localpart.circ(), n.domainpart.circ()),
            EncryptedTypes::X500Name(n) => EValue::X500Name(n.entries()),
            EncryptedTypes::DnsName(n) => EValue::DnsName(n.adr.circ(), n.start_port.circ(), n.end_port.circ()),
            EncryptedTypes::IpAddress(c) => EValue::IpAddress(c.circ()),
            EncryptedTypes::Bag(v) => EValue::Bag(Self::values_of(v@)),
            EncryptedTypes::Nothing => EValue::Nothing,
        }
    }

    /// A copy of this value: the same computations.
    pub fn duplicate(&self) -> (r: EncryptedTypes)
        ensures
            r.value() == self.value(),
        decreases self,
    {
        match self {
            EncryptedTypes::Integer(c) => EncryptedTypes::Integer(c.duplicate()),
            EncryptedTypes::Double(c) => EncryptedTypes::Double(c.duplicate()),
            EncryptedTypes::String(c) => EncryptedTypes::String(c.duplicate()),
            EncryptedTypes::Boolean(c) => EncryptedTypes::Boolean(c.duplicate()),
            EncryptedTypes::Time(c) => EncryptedTypes::Time(c.duplicate()),
            EncryptedTypes::Date(c) => EncryptedTypes::Date(c.duplicate()),
            EncryptedTypes::DateTime(c) => EncryptedTypes::DateTime(c.duplicate()),
            EncryptedTypes::DayTimeDuration(c) => EncryptedTypes::DayTimeDuration(c.duplicate()),
            EncryptedTypes::YearMonthDuration(c) => EncryptedTypes::YearMonthDuration(c.duplicate()),
            EncryptedTypes::AnyUri(c) => EncryptedTypes::AnyUri(c.duplicate()),
            EncryptedTypes::HexBinary(c) => EncryptedTypes::HexBinary(c.duplicate()),
            EncryptedTypes::Base64Binary(c) => EncryptedTypes::Base64Binary(c.duplicate()),
            EncryptedTypes::Rfc822Name(n) => EncryptedTypes::Rfc822Name(
                HRfc822Name::new(n.localpart.duplicate(), n.domainpart.duplicate()),
            ),
            EncryptedTypes::X500Name(n) => {
                let mut val: Vec<(String, Cipher)> = Vec::new();
                let mut i: usize = 0;
                while i < n.val.len()
                    invariant
                        i <= n.val.len(),
                        val.len() == i,
                        forall|j: int| 0 <= j < i ==> (#[trigger] val@[j]).0@ == n.val@[j].0@
                            && val@[j].1.circ() == n.val@[j].1.circ(),
                    decreases n.val.len() - i,
                {
                    let k = n.val[i].0.clone();
                    let c = n.val[i].1.duplicate();
                    val.push((k, c));
                    i = i + 1;
                }
                let r = HX500Name::new(val);
                assert(r.entries() =~= n.entries());
                EncryptedTypes::X500Name(r)
            },
            EncryptedTypes::DnsName(n) => EncryptedTypes::DnsName(
                HDnsName::new(n.adr.duplicate(), n.start_port.duplicate(), n.end_port.duplicate()),
            ),
            EncryptedTypes::IpAddress(c) => EncryptedTypes::IpAddress(c.duplicate()),
            EncryptedTypes::Bag(v) => {
                let mut out: Vec<EncryptedTypes> = Vec::new();
                let mut i: usize = 0;
                while i < v.len()
                    invariant
                        *self == EncryptedTypes::Bag(*v),
                        i <= v.len(),
                        out.len() == i,
                        forall|j: int| 0 <= j < i ==> (#[trigger] out@[j]).value() == v@[j].value(),
                    decreases v.len() - i,
                {
                    proof {
                        assert(decreases_to!(*self => self->Bag_0));
                        assert(decreases_to!(*v => v@));
                        assert(decreases_to!(v@ => v@[i as int]));
                    }
                    let e = v[i].duplicate();
                    out.push(e);
                    i = i + 1;
                }
                assert(Self::values_of(out@) =~= Self::values_of(v@));
                EncryptedTypes::Bag(out)
            },
            EncryptedTypes::Nothing => EncryptedTypes::Nothing,
        }
    }
}

/// The model of an optional computation.
pub open spec fn ocirc(o: Option<Cipher>) -> Option<Circ> {
    match o {
        Some(c) => Some(c.circ()),
        None => None,
    }
}

/// A trivially encrypted public value.
pub open spec fn trivial(c: ClearV) -> Circ {
    Circ::Trivial(c)
}

/// The trivial encryption of a plain value: every scalar becomes a trivial
/// ciphertext of itself, X.500 attribute names stay public.
pub open spec fn trivial_value(v: Value) -> EValue
    decreases v,
{
    match v {
        Value::Str(s) => EValue::Str(trivial(ClearV::Str(s))),
        Value::Integer(x) => EValue::Integer(trivial(ClearV::Int(x as i128))),
        Value::Double(x) => EValue::Double(trivial(ClearV::Int(x))),
        Value::Boolean(b) => EValue::Boolean(trivial(ClearV::Bool(b))),
        Value::Time(t) => EValue::Time(trivial(ClearV::Int(t as i128))),
        Value::Date(x) => EValue::Date(trivial(ClearV::Int(x as i128))),
        Value::DateTime(x) => EValue::DateTime(trivial(ClearV::Int(x as i128))),
        Value::DayTimeDuration(x) => EValue::DayTimeDuration(trivial(ClearV::Int(x as i128))),
        Value::YearMonthDuration(x) => EValue::YearMonthDuration(trivial(ClearV::Int(x as i128))),
        Value::AnyUri(s) => EValue::AnyUri(trivial(ClearV::Str(s))),
        Value::HexBinary(b) => EValue::HexBinary(trivial(ClearV::Bytes(b))),
        Value::Base64Binary(b) => EValue::Base64Binary(trivial(ClearV::Bytes(b))),
        Value::Rfc822Name(l, d) => EValue::Rfc822Name(trivial(ClearV::Str(l)), trivial(ClearV::Str(d))),
        Value::X500Name(m) => EValue::X500Name(
            m.map_values(|p: (Seq<char>, Seq<char>)| (p.0, trivial(ClearV::Str(p.1)))),
        ),
        Value::DnsName(h, s, e) => EValue::DnsName(
            trivial(ClearV::Str(h)),
            trivial(ClearV::Int(s as i128)),
            trivial(ClearV::Int(e as i128)),
        ),
        Value::IpAddress(s) => EValue::IpAddress(trivial(ClearV::Str(s))),
        Value::Bag(vs) => EValue::Bag(
            Seq::new(vs.len(), |i: int| if 0 <= i < vs.len() { trivial_value(vs[i]) } else { EValue::Nothing }),
        ),
        Value::Nothing => EValue::Nothing,
    }
}

fn trivial_str(s: &String) -> (r: Cipher)
    ensures
        r.circ() == trivial(ClearV::Str(s@)),
{
    Cipher::Trivial(Clear::Str(s.clone()))
}

fn trivial_int(x: i128) -> (r: Cipher)
    ensures
        r.circ() == trivial(ClearV::Int(x)),
{
    Cipher::Trivial(Clear::Int(x))
}

impl IntermediateTypes {
    /// The trivial encryption of this value, so that it can meet encrypted
    /// values in a homomorphic evaluation.
    pub fn trivial_enc(&self) -> (r: EncryptedTypes)
        ensures
            r.value() == trivial_value(self.value()),
        decreases self,
    {
        match self {
            IntermediateTypes::String(v) => EncryptedTypes::String(trivial_str(v)),
            IntermediateTypes::Integer(v) => EncryptedTypes::Integer(trivial_int(*v as i128)),
            IntermediateTypes::Double(v) => EncryptedTypes::Double(trivial_int(*v)),
            IntermediateTypes::Boolean(v) => EncryptedTypes::Boolean(Cipher::trivial_bool(*v)),
            IntermediateTypes::Time(v) => EncryptedTypes::Time(trivial_int(*v as i128)),
            IntermediateTypes::DateTime(v) => EncryptedTypes::DateTime(trivial_int(*v as i128)),
            IntermediateTypes::Date(v) => EncryptedTypes::Date(trivial_int(*v as i128)),
            IntermediateTypes::DayTimeDuration(v) => EncryptedTypes::DayTimeDuration(trivial_int(*v as i128)),
            IntermediateTypes::YearMonthDuration(v) => EncryptedTypes::YearMonthDuration(trivial_int(*v as i128)),
            IntermediateTypes::AnyUri(v) => EncryptedTypes::AnyUri(trivial_str(v)),
            IntermediateTypes::HexBinary(v) => EncryptedTypes::HexBinary(Cipher::Trivial(Clear::Bytes(copy_bytes(v)))),
            IntermediateTypes::Base64Binary(v) => EncryptedTypes::Base64Binary(Cipher::Trivial(Clear::Bytes(copy_bytes(v)))),
            IntermediateTypes::Rfc822Name(v1, v2) => EncryptedTypes::Rfc822Name(
                HRfc822Name::new(trivial_str(v1), trivial_str(v2)),
            ),
            IntermediateTypes::X500Name(v) => {
                let mut val: Vec<(String, Cipher)> = Vec::new();
                let mut i: usize = 0;
                while i < v.entries.len()
                    invariant
                        i <= v.entries.len(),
                        val.len() == i,
                        forall|j: int| 0 <= j < i ==> (#[trigger] val@[j]).0@ == v.entries@[j].0@
                            && val@[j].1.circ() == trivial(ClearV::Str(v.entries@[j].1@)),
                    decreases v.entries.len() - i,
                {
                    let k = v.entries[i].0.clone();
                    let c = trivial_str(&v.entries[i].1);
                    val.push((k, c));
                    i = i + 1;
                }
                let n = HX500Name::new(val);
                let ghost tv = trivial_value(self.value());
                assert(tv is X500Name);
                assert(n.entries() =~= tv->X500Name_0);
                EncryptedTypes::X500Name(n)
            },
            IntermediateTypes::DnsName(v, start_port, end_port) => EncryptedTypes::DnsName(
                HDnsName::new(trivial_str(v), trivial_int(*start_port as i128), trivial_int(*end_port as i128)),
            ),
            IntermediateTypes::IpAddress(v) => EncryptedTypes::IpAddress(trivial_str(v)),
            IntermediateTypes::Bag(v) => {
                let mut out: Vec<EncryptedTypes> = Vec::new();
                let mut i: usize = 0;
                while i < v.len()
                    invariant
                        *self == IntermediateTypes::Bag(*v),
                        i <= v.len(),
                        out.len() == i,
                        forall|j: int| 0 <= j < i ==> (#[trigger] out@[j]).value() == trivial_value(v@[j].value()),
                    decreases v.len() - i,
                {
                    proof {
                        assert(decreases_to!(*self => self->Bag_0));
                        assert(decreases_to!(*v => v@));
                        assert(decreases_to!(v@ => v@[i as int]));
                    }
                    let e = v[i].trivial_enc();
                    out.push(e);
                    i = i + 1;
                }
                let ghost tv = trivial_value(self.value());
                assert(tv is Bag);
                assert(EncryptedTypes::values_of(out@) =~= tv->Bag_0);
                EncryptedTypes::Bag(out)
            },
            IntermediateTypes::Nothing => EncryptedTypes::Nothing,
        }
    }
}

} // verus!
