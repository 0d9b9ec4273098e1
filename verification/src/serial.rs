//! The serialised forms of attribute values exchanged between the parties:
//! a data-type identifier together with the bytes of the ciphertexts.

use vstd::prelude::*;
use crate::cipher::{EValue, EncryptedTypes};
use crate::constants::XacmlDataTypesStrings;
use crate::intermediate::IntermediateTypes;

verus! {

/// The serialised parts of an encrypted e-mail name.
#[derive(Debug, PartialEq)]
pub struct HRfc822NameSerDeser {
    pub localpart: Vec<u8>,
    pub domainpart: Vec<u8>,
}

/// The serialised parts of an encrypted X.500 name: each attribute name with
/// the bytes of its encrypted value.
#[derive(Debug, PartialEq)]
pub struct HX500NameSerDeser {
    pub val: Vec<(String, Vec<u8>)>,
}

/// The serialised parts of an encrypted DNS name.
#[derive(Debug, PartialEq)]
pub struct HDnsNameSerDeser {
    pub adr: Vec<u8>,
    pub start_port: Vec<u8>,
    pub end_port: Vec<u8>,
}

/// A serialised encrypted attribute: its data-type identifier and its bytes.
#[derive(Debug, PartialEq)]
pub struct EncryptedAttributeSerStruct {
    pub type_: String,
    pub sered_value: Vec<u8>,
}

/// A serialised attribute that is either encrypted or plain.
#[derive(Debug, PartialEq)]
pub enum MixedAttributeSerStruct {
    EncryptedType(EncryptedAttributeSerStruct),
    IntermediateType(IntermediateTypes),
}

/// The data type under which an encrypted value is serialised; `None` for
/// the kinds that have no serialised form.
pub open spec fn serialised_type(v: EValue) -> Option<XacmlDataTypesStrings> {
    match v {
        EValue::Integer(_) => Some(XacmlDataTypesStrings::Integer),
        EValue::Double(_) => Some(XacmlDataTypesStrings::Double),
        EValue::Str(_) => Some(XacmlDataTypesStrings::String),
        EValue::Boolean(_) => Some(XacmlDataTypesStrings::Boolean),
        EValue::Time(_) => Some(XacmlDataTypesStrings::Time),
        EValue::DateTime(_) => Some(XacmlDataTypesStrings::DateTime),
        EValue::DayTimeDuration(_) => Some(XacmlDataTypesStrings::DayTimeDuration),
        EValue::YearMonthDuration(_) => Some(XacmlDataTypesStrings::YearMonthDuration),
        EValue::AnyUri(_) => Some(XacmlDataTypesStrings::AnyUri),
        EValue::Rfc822Name(_, _) => Some(XacmlDataTypesStrings::Rfc822Name),
        EValue::X500Name(_) => Some(XacmlDataTypesStrings::X500Name),
        EValue::DnsName(_, _, _) => Some(XacmlDataTypesStrings::DnsName),
        EValue::IpAddress(_) => Some(XacmlDataTypesStrings::IpAddress),
        _ => None,
    }
}

impl EncryptedTypes {
    /// The data-type identifier under which this value is serialised.
    pub fn get_type(&self) -> (r: String)
        requires
            serialised_type(self.value()) is Some,
        ensures
            r@ == serialised_type(self.value())->0.spec_identifier()@,
    {
        let t = match self {
            EncryptedTypes::Integer(_) => XacmlDataTypesStrings::Integer,
            EncryptedTypes::Double(_) => XacmlDataTypesStrings::Double,
            EncryptedTypes::String(_) => XacmlDataTypesStrings::String,
            EncryptedTypes::Boolean(_) => XacmlDataTypesStrings::Boolean,
            EncryptedTypes::Time(_) => XacmlDataTypesStrings::Time,
            EncryptedTypes::DateTime(_) => XacmlDataTypesStrings::DateTime,
            EncryptedTypes::DayTimeDuration(_) => XacmlDataTypesStrings::DayTimeDuration,
            EncryptedTypes::YearMonthDuration(_) => XacmlDataTypesStrings::YearMonthDuration,
            EncryptedTypes::AnyUri(_) => XacmlDataTypesStrings::AnyUri,
            EncryptedTypes::Rfc822Name(_) => XacmlDataTypesStrings::Rfc822Name,
            EncryptedTypes::X500Name(_) => XacmlDataTypesStrings::X500Name,
            EncryptedTypes::DnsName(_) => XacmlDataTypesStrings::DnsName,
            EncryptedTypes::IpAddress(_) => XacmlDataTypesStrings::IpAddress,
            EncryptedTypes::Date(_) | EncryptedTypes::HexBinary(_) | EncryptedTypes::Base64Binary(_)
            | EncryptedTypes::Bag(_) | EncryptedTypes::Nothing => {
                assert(false);
                XacmlDataTypesStrings::String
            },
        };
        t.to_string()
    }
}

} // verus!
