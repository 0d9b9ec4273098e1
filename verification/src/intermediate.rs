//! Plain (unencrypted) attribute values and their mathematical model.

use vstd::prelude::*;
use vstd::string::StrSliceExecFns;
use crate::constants::{Boolean, Double, NormalInteger, USmallInteger};
use crate::plain_spec::{has_key, value_at, value_at_from};

verus! {

/// An X.500 distinguished name, held as a list of (attribute, value) pairs.
/// A name read from text has distinct attributes (`wf`); where a name built
/// otherwise repeats an attribute, the evaluators read its first entry.
#[derive(Debug, PartialEq)]
pub struct X500Name {
    pub entries: Vec<(String, String)>,
}

/// A plain attribute value together with its data-type identifier and the
/// attribute it belongs to.
#[derive(Debug)]
pub struct IntermediateAttributeValueType {
    pub data_type: String,
    pub att_id: String,
    pub text: IntermediateTypes,
}

/// The model of a plain attribute value.
pub enum Value {
    Str(Seq<char>),
    Integer(i64),
    Double(i128),
    Boolean(bool),
    Time(u32),
    Date(i64),
    DateTime(i64),
    DayTimeDuration(i64),
    YearMonthDuration(i64),
    AnyUri(Seq<char>),
    HexBinary(Seq<u8>),
    Base64Binary(Seq<u8>),
    Rfc822Name(Seq<char>, Seq<char>),
    X500Name(Seq<(Seq<char>, Seq<char>)>),
    DnsName(Seq<char>, u32, u32),
    IpAddress(Seq<char>),
    Bag(Seq<Value>),
    Nothing,
}

/// A plain attribute value, as the policy decision point evaluates it.
#[derive(Debug, PartialEq)]
pub enum IntermediateTypes {
    String(String),
    Integer(NormalInteger),
    Double(Double),
    Boolean(Boolean),
    Time(USmallInteger),
    Date(NormalInteger),
    DateTime(NormalInteger),
    DayTimeDuration(NormalInteger),
    YearMonthDuration(NormalInteger),
    AnyUri(String),
    HexBinary(Vec<u8>),
    Base64Binary(Vec<u8>),
    Rfc822Name(String, String),
    X500Name(X500Name),
    DnsName(String, USmallInteger, USmallInteger),
    IpAddress(String),
    Bag(Vec<IntermediateTypes>),
    Nothing,
}

/// No attribute occurs twice among the entries `m`.
pub open spec fn distinct_keys(m: Seq<(Seq<char>, Seq<char>)>) -> bool {
    forall|i: int, j: int| 0 <= i < j < m.len() ==> #[trigger] m[i].0 != #[trigger] m[j].0
}

impl X500Name {
    /// Every attribute of this name occurs once.
    pub open spec fn wf(self) -> bool {
        distinct_keys(self.view_entries())
    }

    /// The (attribute, value) pairs of this name.
    pub open spec fn view_entries(self) -> Seq<(Seq<char>, Seq<char>)> {
        self.entries@.map_values(|p: (String, String)| (p.0@, p.1@))
    }

    /// Whether some entry has the attribute `k`.
    pub fn contains_key(&self, k: &String) -> (r: bool)
        ensures
            r == has_key(self.view_entries(), k@),
    {
        let ghost mv = self.view_entries();
        let mut i: usize = 0;
        while i < self.entries.len()
            invariant
                mv == self.view_entries(),
                i <= self.entries.len(),
                forall|j: int| 0 <= j < i ==> mv[j].0 != k@,
            decreases self.entries.len() - i,
        {
            if self.entries[i].0 == *k {
                assert(mv[i as int].0 == k@);
                return true;
            }
            i = i + 1;
        }
        false
    }

    /// Whether the value of the attribute `k` is `v`.
    pub fn value_matches(&self, k: &String, v: &String) -> (r: bool)
        ensures
            r == (value_at(self.view_entries(), k@) == v@),
    {
        let ghost mv = self.view_entries();
        let mut i: usize = 0;
        while i < self.entries.len()
            invariant
                mv == self.view_entries(),
                mv.len() == self.entries@.len(),
                i <= self.entries.len(),
                value_at(mv, k@) == value_at_from(mv, k@, i as int),
            decreases self.entries.len() - i,
        {
            if self.entries[i].0 == *k {
                return self.entries[i].1 == *v;
            }
            i = i + 1;
        }
        let l = v.as_str().unicode_len();
        proof {
            if l == 0 {
                assert(v@ =~= Seq::<char>::empty());
            }
        }
        l == 0
    }
}

impl IntermediateTypes {
    /// The models of a sequence of values.
    pub open spec fn values_of(s: Seq<IntermediateTypes>) -> Seq<Value>
        decreases s,
    {
        Seq::new(s.len(), |i: int| if 0 <= i < s.len() { s[i].value() } else { Value::Nothing })
    }

    /// The model of this value.
    pub open spec fn value(self) -> Value
        decreases self,
    {
        match self {
            IntermediateTypes::String(s) => Value::Str(s@),
            IntermediateTypes::Integer(x) => Value::Integer(x),
            IntermediateTypes::Double(x) => Value::Double(x),
            IntermediateTypes::Boolean(x) => Value::Boolean(x),
            IntermediateTypes::Time(x) => Value::Time(x),
            IntermediateTypes::Date(x) => Value::Date(x),
            IntermediateTypes::DateTime(x) => Value::DateTime(x),
            IntermediateTypes::DayTimeDuration(x) => Value::DayTimeDuration(x),
            IntermediateTypes::YearMonthDuration(x) => Value::YearMonthDuration(x),
            IntermediateTypes::AnyUri(s) => Value::AnyUri(s@),
            IntermediateTypes::HexBinary(v) => Value::HexBinary(v@),
            IntermediateTypes::Base64Binary(v) => Value::Base64Binary(v@),
            IntermediateTypes::Rfc822Name(l, d) => Value::Rfc822Name(l@, d@),
            IntermediateTypes::X500Name(n) => Value::X500Name(n.view_entries()),
            IntermediateTypes::DnsName(h, s, e) => Value::DnsName(h@, s, e),
            IntermediateTypes::IpAddress(s) => Value::IpAddress(s@),
            IntermediateTypes::Bag(v) => Value::Bag(Self::values_of(v@)),
            IntermediateTypes::Nothing => Value::Nothing,
        }
    }
}

impl X500Name {
    /// An empty name.
    pub fn new() -> (r: X500Name)
        ensures
            r.view_entries() == Seq::<(Seq<char>, Seq<char>)>::empty(),
    {
        X500Name { entries: Vec::new() }
    }

    /// A copy of this name.
    pub fn duplicate(&self) -> (r: X500Name)
        ensures
            r.view_entries() == self.view_entries(),
    {
        let mut entries: Vec<(String, String)> = Vec::new();
        let mut i: usize = 0;
        while i < self.entries.len()
            invariant
                i <= self.entries.len(),
                entries.len() == i,
                forall|j: int| 0 <= j < i ==> (#[trigger] entries@[j]).0@ == self.entries@[j].0@
                    && entries@[j].1@ == self.entries@[j].1@,
            decreases self.entries.len() - i,
        {
            let k = self.entries[i].0.clone();
            let v = self.entries[i].1.clone();
            entries.push((k, v));
            i = i + 1;
        }
        let r = X500Name { entries };
        assert(r.view_entries() =~= self.view_entries());
        r
    }
}

impl IntermediateTypes {
    /// A copy of this value.
    pub fn duplicate(&self) -> (r: IntermediateTypes)
        ensures
            r.value() == self.value(),
        decreases self,
    {
        match self {
            IntermediateTypes::String(s) => IntermediateTypes::String(s.clone()),
            IntermediateTypes::Integer(x) => IntermediateTypes::Integer(*x),
            IntermediateTypes::Double(x) => IntermediateTypes::Double(*x),
            IntermediateTypes::Boolean(x) => IntermediateTypes::Boolean(*x),
            IntermediateTypes::Time(x) => IntermediateTypes::Time(*x),
            IntermediateTypes::Date(x) => IntermediateTypes::Date(*x),
            IntermediateTypes::DateTime(x) => IntermediateTypes::DateTime(*x),
            IntermediateTypes::DayTimeDuration(x) => IntermediateTypes::DayTimeDuration(*x),
            IntermediateTypes::YearMonthDuration(x) => IntermediateTypes::YearMonthDuration(*x),
            IntermediateTypes::AnyUri(s) => IntermediateTypes::AnyUri(s.clone()),
            IntermediateTypes::HexBinary(v) => IntermediateTypes::HexBinary(copy_bytes(v)),
            IntermediateTypes::Base64Binary(v) => IntermediateTypes::Base64Binary(copy_bytes(v)),
            IntermediateTypes::Rfc822Name(l, d) => IntermediateTypes::Rfc822Name(l.clone(), d.clone()),
            IntermediateTypes::X500Name(n) => IntermediateTypes::X500Name(n.duplicate()),
            IntermediateTypes::DnsName(h, s, e) => IntermediateTypes::DnsName(h.clone(), *s, *e),
            IntermediateTypes::IpAddress(s) => IntermediateTypes::IpAddress(s.clone()),
            IntermediateTypes::Bag(v) => {
                let mut out: Vec<IntermediateTypes> = Vec::new();
                let mut i: usize = 0;
                while i < v.len()
                    invariant
                        *self == IntermediateTypes::Bag(*v),
                        i <= v.len(),
                        out.len() == i,
                        forall|j: int| 0 <= j < i ==> (#[trigger] out@[j]).value() == v@[j].value(),
                    decreases v.len() - i,
                {
                    proof {
                        assert(decreases_to!(*self => self->Bag_0));
                        assert(decreases_to!(*v => v@));
                        assert(decreases_to!(v@ => v@[i as int]));
                    }
                    let e = v[i].duplicate();
                    out.push(e);
                    i = i + 1;
                }
                assert(Self::values_of(out@) =~= Self::values_of(v@));
                IntermediateTypes::Bag(out)
            },
            IntermediateTypes::Nothing => IntermediateTypes::Nothing,
        }
    }
}

pub fn copy_bytes(v: &Vec<u8>) -> (r: Vec<u8>)
    ensures
        r@ == v@,
{
    let mut out: Vec<u8> = Vec::new();
    let mut i: usize = 0;
    while i < v.len()
        invariant
            i <= v.len(),
            out@ == v@.subrange(0, i as int),
        decreases v.len() - i,
    {
        out.push(v[i]);
        i = i + 1;
    }
    assert(out@ =~= v@);
    out
}

} // verus!
