//! XACML function identifiers, data-type identifiers and combining algorithms.

use vstd::prelude::*;
use crate::text::str_eq;

verus! {

pub const STR_STRING: &'static str = "http://www.w3.org/2001/XMLSchema#string";
pub const STR_INTEGER: &'static str = "http://www.w3.org/2001/XMLSchema#integer";
pub const STR_DOUBLE: &'static str = "http://www.w3.org/2001/XMLSchema#double";
pub const STR_BOOLEAN: &'static str = "http://www.w3.org/2001/XMLSchema#boolean";
pub const STR_TIME: &'static str = "http://www.w3.org/2001/XMLSchema#time";
pub const STR_DATE: &'static str = "http://www.w3.org/2001/XMLSchema#date";
pub const STR_DATE_TIME: &'static str = "http://www.w3.org/2001/XMLSchema#dateTime";
pub const STR_DAY_TIME_DURATION: &'static str = "http://www.w3.org/2001/XMLSchema#dayTimeDuration";
pub const STR_YEAR_MONTH_DURATION: &'static str = "http://www.w3.org/2001/XMLSchema#yearMonthDuration";
pub const STR_ANY_URI: &'static str = "http://www.w3.org/2001/XMLSchema#anyUri";
pub const STR_HEX_BINARY: &'static str = "http://www.w3.org/2001/XMLSchema#hexBinary";
pub const STR_BASE_64_BINARY: &'static str = "http://www.w3.org/2001/XMLSchema#base64Binary";
pub const STR_RFC_822_NAME: &'static str = "urn:oasis:names:tc:xacml:1.0:data-type:rfc822Name";
pub const STR_X_500_NAME: &'static str = "urn:oasis:names:tc:xacml:1.0:data-type:x500Name";
pub const STR_DNS_NAME: &'static str = "urn:oasis:names:tc:xacml:2.0:data-type:dnsName";
pub const STR_IP_ADDRESS: &'static str = "urn:oasis:names:tc:xacml:2.0:data-type:ipAddress";

pub const STR_CAT_RESOURCE: &'static str = "urn:oasis:names:tc:xacml:3.0:attribute-category:resource";
pub const STR_CAT_ACTION: &'static str = "urn:oasis:names:tc:xacml:3.0:attribute-category:action";
pub const STR_CAT_ACCESS_SUBJECT: &'static str = "urn:oasis:names:tc:xacml:3.0:attribute-category:environment";

pub type USmallInteger = u32;
pub type SmallInteger = i32;
pub type NormalInteger = i64;
pub type LongInteger = i128;
pub type UnsignedSmallInteger = u32;
pub type UnsignedNormalInteger = u64;
pub type UnsignedLongInteger = u128;
/// Doubles are carried as fixed-point integers.
pub type Double = i128;
pub type Boolean = bool;

/// The XACML functions, identified by their URNs. The quantified functions
/// (`any-of` and its relatives) carry the predicate they apply.
#[derive(Debug, PartialEq, Eq, Hash)]
pub enum XacmlFunction {
    // --- Equality ---
    StringEqual,
    BooleanEqual,
    IntegerEqual,
    DoubleEqual,
    DateEqual,
    TimeEqual,
    DateTimeEqual,
    DayTimeDurationEqual,
    YearMonthDurationEqual,
    StringEqualIgnoreCase,
    AnyUriEqual,
    X500NameEqual,
    Rfc822NameEqual,
    HexBinaryEqual,
    Base64BinaryEqual,

    // --- Arithmetic & numeric ---
    IntegerAdd,
    DoubleAdd,
    IntegerSubtract,
    DoubleSubtract,
    IntegerMultiply,
    DoubleMultiply,
    IntegerDivide,
    DoubleDivide,
    IntegerMod,
    IntegerAbs,
    DoubleAbs,
    Round,
    Floor,

    // --- String normalization & casting ---
    StringNormalizeSpace,
    StringNormalizeToLowerCase,
    DoubleToInteger,
    IntegerToDouble,

    // --- Logical ---
    Or,
    And,
    NOf,
    Not,
    IfElse,

    // --- Numeric comparisons ---
    IntegerGreaterThan,
    IntegerGreaterThanOrEqual,
    IntegerLessThan,
    IntegerLessThanOrEqual,
    DoubleGreaterThan,
    DoubleGreaterThanOrEqual,
    DoubleLessThan,
    DoubleLessThanOrEqual,

    // --- Date/Time arithmetic (XACML 3.0) ---
    DateTimeAddDayTimeDuration,
    DateTimeAddYearMonthDuration,
    DateTimeSubtractDayTimeDuration,
    DateTimeSubtractYearMonthDuration,
    DateAddYearMonthDuration,
    DateSubtractYearMonthDuration,

    // --- String comparisons ---
    StringGreaterThan,
    StringGreaterThanOrEqual,
    StringLessThan,
    StringLessThanOrEqual,

    // --- Time/Date/DateTime comparisons + range ---
    TimeGreaterThan,
    TimeGreaterThanOrEqual,
    TimeLessThan,
    TimeLessThanOrEqual,
    TimeInRange,

    DateTimeGreaterThan,
    DateTimeGreaterThanOrEqual,
    DateTimeLessThan,
    DateTimeLessThanOrEqual,

    DateGreaterThan,
    DateGreaterThanOrEqual,
    DateLessThan,
    DateLessThanOrEqual,

    // --- Concatenation ---
    StringConcatenate,

    // --- Type conversions (string <-> type) ---
    BooleanFromString,
    StringFromBoolean,
    IntegerFromString,
    StringFromInteger,
    DoubleFromString,
    StringFromDouble,
    TimeFromString,
    StringFromTime,
    DateFromString,
    StringFromDate,
    DateTimeFromString,
    StringFromDateTime,
    AnyUriFromString,
    StringFromAnyUri,
    DayTimeDurationFromString,
    StringFromDayTimeDuration,
    YearMonthDurationFromString,
    StringFromYearMonthDuration,
    X500NameFromString,
    StringFromX500Name,
    Rfc822NameFromString,
    StringFromRfc822Name,
    IpAddressFromString,
    StringFromIpAddress,
    DnsNameFromString,
    StringFromDnsName,

    // --- String/URI pattern functions ---
    StringStartsWith,
    AnyUriStartsWith,
    StringEndsWith,
    AnyUriEndsWith,
    StringContains,
    AnyUriContains,
    StringSubstring,
    AnyUriSubstring,

    // --- Quantifier / set semantics ---
    AnyOf(Option<Box<XacmlFunction>>),
    AllOf(Option<Box<XacmlFunction>>),
    AnyOfAny(Option<Box<XacmlFunction>>),
    AllOfAny(Option<Box<XacmlFunction>>),
    AnyOfAll(Option<Box<XacmlFunction>>),
    AllOfAll(Option<Box<XacmlFunction>>),
    
    // --- Bagging functions ---
    StringOneAndOnly,
    StringBagSize,
    StringIsIn,
    StringBag,
    StringAtLeastOneMemberOf
}


impl XacmlFunction {
    /// True for the higher-order functions that carry an inner predicate.
    pub open spec fn is_quantifier(self) -> bool {
        ||| self is AnyOf
        ||| self is AllOf
        ||| self is AnyOfAny
        ||| self is AllOfAny
        ||| self is AnyOfAll
        ||| self is AllOfAll
    }

    /// The same function with its inner predicate attached.
    pub open spec fn with_inner(self, inner: XacmlFunction) -> XacmlFunction {
        match self {
            XacmlFunction::AnyOf(_) => XacmlFunction::AnyOf(Some(Box::new(inner))),
            XacmlFunction::AllOf(_) => XacmlFunction::AllOf(Some(Box::new(inner))),
            XacmlFunction::AnyOfAny(_) => XacmlFunction::AnyOfAny(Some(Box::new(inner))),
            XacmlFunction::AllOfAny(_) => XacmlFunction::AllOfAny(Some(Box::new(inner))),
            XacmlFunction::AnyOfAll(_) => XacmlFunction::AnyOfAll(Some(Box::new(inner))),
            XacmlFunction::AllOfAll(_) => XacmlFunction::AllOfAll(Some(Box::new(inner))),
            other => other,
        }
    }

    /// A copy of this function identifier, inner predicate included.
    pub fn copy(&self) -> (r: XacmlFunction)
        ensures
            r == *self,
        decreases self,
    {
        match self {
            XacmlFunction::AnyOf(i) => XacmlFunction::AnyOf(Self::copy_inner(i)),
            XacmlFunction::AllOf(i) => XacmlFunction::AllOf(Self::copy_inner(i)),
            XacmlFunction::AnyOfAny(i) => XacmlFunction::AnyOfAny(Self::copy_inner(i)),
            XacmlFunction::AllOfAny(i) => XacmlFunction::AllOfAny(Self::copy_inner(i)),
            XacmlFunction::AnyOfAll(i) => XacmlFunction::AnyOfAll(Self::copy_inner(i)),
            XacmlFunction::AllOfAll(i) => XacmlFunction::AllOfAll(Self::copy_inner(i)),
            XacmlFunction::StringEqual => XacmlFunction::StringEqual,
            XacmlFunction::BooleanEqual => XacmlFunction::BooleanEqual,
            XacmlFunction::IntegerEqual => XacmlFunction::IntegerEqual,
            XacmlFunction::DoubleEqual => XacmlFunction::DoubleEqual,
            XacmlFunction::DateEqual => XacmlFunction::DateEqual,
            XacmlFunction::TimeEqual => XacmlFunction::TimeEqual,
            XacmlFunction::DateTimeEqual => XacmlFunction::DateTimeEqual,
            XacmlFunction::DayTimeDurationEqual => XacmlFunction::DayTimeDurationEqual,
            XacmlFunction::YearMonthDurationEqual => XacmlFunction::YearMonthDurationEqual,
            XacmlFunction::StringEqualIgnoreCase => XacmlFunction::StringEqualIgnoreCase,
            XacmlFunction::AnyUriEqual => XacmlFunction::AnyUriEqual,
            XacmlFunction::X500NameEqual => XacmlFunction::X500NameEqual,
            XacmlFunction::Rfc822NameEqual => XacmlFunction::Rfc822NameEqual,
            XacmlFunction::HexBinaryEqual => XacmlFunction::HexBinaryEqual,
            XacmlFunction::Base64BinaryEqual => XacmlFunction::Base64BinaryEqual,
            XacmlFunction::IntegerAdd => XacmlFunction::IntegerAdd,
            XacmlFunction::DoubleAdd => XacmlFunction::DoubleAdd,
            XacmlFunction::IntegerSubtract => XacmlFunction::IntegerSubtract,
            XacmlFunction::DoubleSubtract => XacmlFunction::DoubleSubtract,
            XacmlFunction::IntegerMultiply => XacmlFunction::IntegerMultiply,
            XacmlFunction::DoubleMultiply => XacmlFunction::DoubleMultiply,
            XacmlFunction::IntegerDivide => XacmlFunction::IntegerDivide,
            XacmlFunction::DoubleDivide => XacmlFunction::DoubleDivide,
            XacmlFunction::IntegerMod => XacmlFunction::IntegerMod,
            XacmlFunction::IntegerAbs => XacmlFunction::IntegerAbs,
            XacmlFunction::DoubleAbs => XacmlFunction::DoubleAbs,
            XacmlFunction::Round => XacmlFunction::Round,
            XacmlFunction::Floor => XacmlFunction::Floor,
            XacmlFunction::StringNormalizeSpace => XacmlFunction::StringNormalizeSpace,
            XacmlFunction::StringNormalizeToLowerCase => XacmlFunction::StringNormalizeToLowerCase,
            XacmlFunction::DoubleToInteger => XacmlFunction::DoubleToInteger,
            XacmlFunction::IntegerToDouble => XacmlFunction::IntegerToDouble,
            XacmlFunction::Or => XacmlFunction::Or,
            XacmlFunction::And => XacmlFunction::And,
            XacmlFunction::NOf => XacmlFunction::NOf,
            XacmlFunction::Not => XacmlFunction::Not,
            XacmlFunction::IfElse => XacmlFunction::IfElse,
            XacmlFunction::IntegerGreaterThan => XacmlFunction::IntegerGreaterThan,
            XacmlFunction::IntegerGreaterThanOrEqual => XacmlFunction::IntegerGreaterThanOrEqual,
            XacmlFunction::IntegerLessThan => XacmlFunction::IntegerLessThan,
            XacmlFunction::IntegerLessThanOrEqual => XacmlFunction::IntegerLessThanOrEqual,
            XacmlFunction::DoubleGreaterThan => XacmlFunction::DoubleGreaterThan,
            XacmlFunction::DoubleGreaterThanOrEqual => XacmlFunction::DoubleGreaterThanOrEqual,
            XacmlFunction::DoubleLessThan => XacmlFunction::DoubleLessThan,
            XacmlFunction::DoubleLessThanOrEqual => XacmlFunction::DoubleLessThanOrEqual,
            XacmlFunction::DateTimeAddDayTimeDuration => XacmlFunction::DateTimeAddDayTimeDuration,
            XacmlFunction::DateTimeAddYearMonthDuration => XacmlFunction::DateTimeAddYearMonthDuration,
            XacmlFunction::DateTimeSubtractDayTimeDuration => XacmlFunction::DateTimeSubtractDayTimeDuration,
            XacmlFunction::DateTimeSubtractYearMonthDuration => XacmlFunction::DateTimeSubtractYearMonthDuration,
            XacmlFunction::DateAddYearMonthDuration => XacmlFunction::DateAddYearMonthDuration,
            XacmlFunction::DateSubtractYearMonthDuration => XacmlFunction::DateSubtractYearMonthDuration,
            XacmlFunction::StringGreaterThan => XacmlFunction::StringGreaterThan,
            XacmlFunction::StringGreaterThanOrEqual => XacmlFunction::StringGreaterThanOrEqual,
            XacmlFunction::StringLessThan => XacmlFunction::StringLessThan,
            XacmlFunction::StringLessThanOrEqual => XacmlFunction::StringLessThanOrEqual,
            XacmlFunction::TimeGreaterThan => XacmlFunction::TimeGreaterThan,
            XacmlFunction::TimeGreaterThanOrEqual => XacmlFunction::TimeGreaterThanOrEqual,
            XacmlFunction::TimeLessThan => XacmlFunction::TimeLessThan,
            XacmlFunction::TimeLessThanOrEqual => XacmlFunction::TimeLessThanOrEqual,
            XacmlFunction::TimeInRange => XacmlFunction::TimeInRange,
            XacmlFunction::DateTimeGreaterThan => XacmlFunction::DateTimeGreaterThan,
            XacmlFunction::DateTimeGreaterThanOrEqual => XacmlFunction::DateTimeGreaterThanOrEqual,
            XacmlFunction::DateTimeLessThan => XacmlFunction::DateTimeLessThan,
            XacmlFunction::DateTimeLessThanOrEqual => XacmlFunction::DateTimeLessThanOrEqual,
            XacmlFunction::DateGreaterThan => XacmlFunction::DateGreaterThan,
            XacmlFunction::DateGreaterThanOrEqual => XacmlFunction::DateGreaterThanOrEqual,
            XacmlFunction::DateLessThan => XacmlFunction::DateLessThan,
            XacmlFunction::DateLessThanOrEqual => XacmlFunction::DateLessThanOrEqual,
            XacmlFunction::StringConcatenate => XacmlFunction::StringConcatenate,
            XacmlFunction::BooleanFromString => XacmlFunction::BooleanFromString,
            XacmlFunction::StringFromBoolean => XacmlFunction::StringFromBoolean,
            XacmlFunction::IntegerFromString => XacmlFunction::IntegerFromString,
            XacmlFunction::StringFromInteger => XacmlFunction::StringFromInteger,
            XacmlFunction::DoubleFromString => XacmlFunction::DoubleFromString,
            XacmlFunction::StringFromDouble => XacmlFunction::StringFromDouble,
            XacmlFunction::TimeFromString => XacmlFunction::TimeFromString,
            XacmlFunction::StringFromTime => XacmlFunction::StringFromTime,
            XacmlFunction::DateFromString => XacmlFunction::DateFromString,
            XacmlFunction::StringFromDate => XacmlFunction::StringFromDate,
            XacmlFunction::DateTimeFromString => XacmlFunction::DateTimeFromString,
            XacmlFunction::StringFromDateTime => XacmlFunction::StringFromDateTime,
            XacmlFunction::AnyUriFromString => XacmlFunction::AnyUriFromString,
            XacmlFunction::StringFromAnyUri => XacmlFunction::StringFromAnyUri,
            XacmlFunction::DayTimeDurationFromString => XacmlFunction::DayTimeDurationFromString,
            XacmlFunction::StringFromDayTimeDuration => XacmlFunction::StringFromDayTimeDuration,
            XacmlFunction::YearMonthDurationFromString => XacmlFunction::YearMonthDurationFromString,
            XacmlFunction::StringFromYearMonthDuration => XacmlFunction::StringFromYearMonthDuration,
            XacmlFunction::X500NameFromString => XacmlFunction::X500NameFromString,
            XacmlFunction::StringFromX500Name => XacmlFunction::StringFromX500Name,
            XacmlFunction::Rfc822NameFromString => XacmlFunction::Rfc822NameFromString,
            XacmlFunction::StringFromRfc822Name => XacmlFunction::StringFromRfc822Name,
            XacmlFunction::IpAddressFromString => XacmlFunction::IpAddressFromString,
            XacmlFunction::StringFromIpAddress => XacmlFunction::StringFromIpAddress,
            XacmlFunction::DnsNameFromString => XacmlFunction::DnsNameFromString,
            XacmlFunction::StringFromDnsName => XacmlFunction::StringFromDnsName,
            XacmlFunction::StringStartsWith => XacmlFunction::StringStartsWith,
            XacmlFunction::AnyUriStartsWith => XacmlFunction::AnyUriStartsWith,
            XacmlFunction::StringEndsWith => XacmlFunction::StringEndsWith,
            XacmlFunction::AnyUriEndsWith => XacmlFunction::AnyUriEndsWith,
            XacmlFunction::StringContains => XacmlFunction::StringContains,
            XacmlFunction::AnyUriContains => XacmlFunction::AnyUriContains,
            XacmlFunction::StringSubstring => XacmlFunction::StringSubstring,
            XacmlFunction::AnyUriSubstring => XacmlFunction::AnyUriSubstring,
            XacmlFunction::StringOneAndOnly => XacmlFunction::StringOneAndOnly,
            XacmlFunction::StringBagSize => XacmlFunction::StringBagSize,
            XacmlFunction::StringIsIn => XacmlFunction::StringIsIn,
            XacmlFunction::StringBag => XacmlFunction::StringBag,
            XacmlFunction::StringAtLeastOneMemberOf => XacmlFunction::StringAtLeastOneMemberOf,
        }
    }

    fn copy_inner(i: &Option<Box<XacmlFunction>>) -> (r: Option<Box<XacmlFunction>>)
        ensures
            r == *i,
        decreases i,
    {
        match i {
            None => None,
            Some(b) => Some(Box::new((**b).copy())),
        }
    }

    pub open spec fn spec_urn(self) -> &'static str {
        match self {
            XacmlFunction::StringEqual => "urn:oasis:names:tc:xacml:1.0:function:string-equal",
            XacmlFunction::BooleanEqual => "urn:oasis:names:tc:xacml:1.0:function:boolean-equal",
            XacmlFunction::IntegerEqual => "urn:oasis:names:tc:xacml:1.0:function:integer-equal",
            XacmlFunction::DoubleEqual => "urn:oasis:names:tc:xacml:1.0:function:double-equal",
            XacmlFunction::DateEqual => "urn:oasis:names:tc:xacml:1.0:function:date-equal",
            XacmlFunction::TimeEqual => "urn:oasis:names:tc:xacml:1.0:function:time-equal",
            XacmlFunction::DateTimeEqual => "urn:oasis:names:tc:xacml:1.0:function:dateTime-equal",
            XacmlFunction::DayTimeDurationEqual => "urn:oasis:names:tc:xacml:3.0:function:dayTimeDuration-equal",
            XacmlFunction::YearMonthDurationEqual => "urn:oasis:names:tc:xacml:3.0:function:yearMonthDuration-equal",
            XacmlFunction::StringEqualIgnoreCase => "urn:oasis:names:tc:xacml:1.0:function:string-equal-ignore-case",
            XacmlFunction::AnyUriEqual => "urn:oasis:names:tc:xacml:1.0:function:anyURI-equal",
            XacmlFunction::X500NameEqual => "urn:oasis:names:tc:xacml:1.0:function:x500Name-equal",
            XacmlFunction::Rfc822NameEqual => "urn:oasis:names:tc:xacml:1.0:function:rfc822Name-equal",
            XacmlFunction::HexBinaryEqual => "urn:oasis:names:tc:xacml:1.0:function:hexBinary-equal",
            XacmlFunction::Base64BinaryEqual => "urn:oasis:names:tc:xacml:1.0:function:base64Binary-equal",
            XacmlFunction::IntegerAdd => "urn:oasis:names:tc:xacml:1.0:function:integer-add",
            XacmlFunction::DoubleAdd => "urn:oasis:names:tc:xacml:1.0:function:double-add",
            XacmlFunction::IntegerSubtract => "urn:oasis:names:tc:xacml:1.0:function:integer-subtract",
            XacmlFunction::DoubleSubtract => "urn:oasis:names:tc:xacml:1.0:function:double-subtract",
            XacmlFunction::IntegerMultiply => "urn:oasis:names:tc:xacml:1.0:function:integer-multiply",
            XacmlFunction::DoubleMultiply => "urn:oasis:names:tc:xacml:1.0:function:double-multiply",
            XacmlFunction::IntegerDivide => "urn:oasis:names:tc:xacml:1.0:function:integer-divide",
            XacmlFunction::DoubleDivide => "urn:oasis:names:tc:xacml:1.0:function:double-divide",
            XacmlFunction::IntegerMod => "urn:oasis:names:tc:xacml:1.0:function:integer-mod",
            XacmlFunction::IntegerAbs => "urn:oasis:names:tc:xacml:1.0:function:integer-abs",
            XacmlFunction::DoubleAbs => "urn:oasis:names:tc:xacml:1.0:function:double-abs",
            XacmlFunction::Round => "urn:oasis:names:tc:xacml:1.0:function:round",
            XacmlFunction::Floor => "urn:oasis:names:tc:xacml:1.0:function:floor",
            XacmlFunction::StringNormalizeSpace => "urn:oasis:names:tc:xacml:1.0:function:string-normalize-space",
            XacmlFunction::StringNormalizeToLowerCase => "urn:oasis:names:tc:xacml:1.0:function:string-normalize-to-lower-case",
            XacmlFunction::DoubleToInteger => "urn:oasis:names:tc:xacml:1.0:function:double-to-integer",
            XacmlFunction::IntegerToDouble => "urn:oasis:names:tc:xacml:1.0:function:integer-to-double",
            XacmlFunction::Or => "urn:oasis:names:tc:xacml:1.0:function:or",
            XacmlFunction::And => "urn:oasis:names:tc:xacml:1.0:function:and",
            XacmlFunction::NOf => "urn:oasis:names:tc:xacml:1.0:function:n-of",
            XacmlFunction::Not => "urn:oasis:names:tc:xacml:1.0:function:not",
            XacmlFunction::IfElse => "urn:oasis:names:tc:xacml:1.0:function:ifelse",
            XacmlFunction::IntegerGreaterThan => "urn:oasis:names:tc:xacml:1.0:function:integer-greater-than",
            XacmlFunction::IntegerGreaterThanOrEqual => "urn:oasis:names:tc:xacml:1.0:function:integer-greater-than-or-equal",
            XacmlFunction::IntegerLessThan => "urn:oasis:names:tc:xacml:1.0:function:integer-less-than",
            XacmlFunction::IntegerLessThanOrEqual => "urn:oasis:names:tc:xacml:1.0:function:integer-less-than-or-equal",
            XacmlFunction::DoubleGreaterThan => "urn:oasis:names:tc:xacml:1.0:function:double-greater-than",
            XacmlFunction::DoubleGreaterThanOrEqual => "urn:oasis:names:tc:xacml:1.0:function:double-greater-than-or-equal",
            XacmlFunction::DoubleLessThan => "urn:oasis:names:tc:xacml:1.0:function:double-less-than",
            XacmlFunction::DoubleLessThanOrEqual => "urn:oasis:names:tc:xacml:1.0:function:double-less-than-or-equal",
            XacmlFunction::DateTimeAddDayTimeDuration => "urn:oasis:names:tc:xacml:3.0:function:dateTime-add-dayTimeDuration",
            XacmlFunction::DateTimeAddYearMonthDuration => "urn:oasis:names:tc:xacml:3.0:function:dateTime-add-yearMonthDuration",
            XacmlFunction::DateTimeSubtractDayTimeDuration => "urn:oasis:names:tc:xacml:3.0:function:dateTime-subtract-dayTimeDuration",
            XacmlFunction::DateTimeSubtractYearMonthDuration => "urn:oasis:names:tc:xacml:3.0:function:dateTime-subtract-yearMonthDuration",
            XacmlFunction::DateAddYearMonthDuration => "urn:oasis:names:tc:xacml:3.0:function:date-add-yearMonthDuration",
            XacmlFunction::DateSubtractYearMonthDuration => "urn:oasis:names:tc:xacml:3.0:function:date-subtract-yearMonthDuration",
            XacmlFunction::StringGreaterThan => "urn:oasis:names:tc:xacml:1.0:function:string-greater-than",
            XacmlFunction::StringGreaterThanOrEqual => "urn:oasis:names:tc:xacml:1.0:function:string-greater-than-or-equal",
            XacmlFunction::StringLessThan => "urn:oasis:names:tc:xacml:1.0:function:string-less-than",
            XacmlFunction::StringLessThanOrEqual => "urn:oasis:names:tc:xacml:1.0:function:string-less-than-or-equal",
            XacmlFunction::TimeGreaterThan => "urn:oasis:names:tc:xacml:1.0:function:time-greater-than",
            XacmlFunction::TimeGreaterThanOrEqual => "urn:oasis:names:tc:xacml:1.0:function:time-greater-than-or-equal",
            XacmlFunction::TimeLessThan => "urn:oasis:names:tc:xacml:1.0:function:time-less-than",
            XacmlFunction::TimeLessThanOrEqual => "urn:oasis:names:tc:xacml:1.0:function:time-less-than-or-equal",
            XacmlFunction::TimeInRange => "urn:oasis:names:tc:xacml:2.0:function:time-in-range",
            XacmlFunction::DateTimeGreaterThan => "urn:oasis:names:tc:xacml:1.0:function:dateTime-greater-than",
            XacmlFunction::DateTimeGreaterThanOrEqual => "urn:oasis:names:tc:xacml:1.0:function:dateTime-greater-than-or-equal",
            XacmlFunction::DateTimeLessThan => "urn:oasis:names:tc:xacml:1.0:function:dateTime-less-than",
            XacmlFunction::DateTimeLessThanOrEqual => "urn:oasis:names:tc:xacml:1.0:function:dateTime-less-than-or-equal",
            XacmlFunction::DateGreaterThan => "urn:oasis:names:tc:xacml:1.0:function:date-greater-than",
            XacmlFunction::DateGreaterThanOrEqual => "urn:oasis:names:tc:xacml:1.0:function:date-greater-than-or-equal",
            XacmlFunction::DateLessThan => "urn:oasis:names:tc:xacml:1.0:function:date-less-than",
            XacmlFunction::DateLessThanOrEqual => "urn:oasis:names:tc:xacml:1.0:function:date-less-than-or-equal",
            XacmlFunction::StringConcatenate => "urn:oasis:names:tc:xacml:2.0:function:string-concatenate",
            XacmlFunction::BooleanFromString => "urn:oasis:names:tc:xacml:3.0:function:boolean-from-string",
            XacmlFunction::StringFromBoolean => "urn:oasis:names:tc:xacml:3.0:function:string-from-boolean",
            XacmlFunction::IntegerFromString => "urn:oasis:names:tc:xacml:3.0:function:integer-from-string",
            XacmlFunction::StringFromInteger => "urn:oasis:names:tc:xacml:3.0:function:string-from-integer",
            XacmlFunction::DoubleFromString => "urn:oasis:names:tc:xacml:3.0:function:double-from-string",
            XacmlFunction::StringFromDouble => "urn:oasis:names:tc:xacml:3.0:function:string-from-double",
            XacmlFunction::TimeFromString => "urn:oasis:names:tc:xacml:3.0:function:time-from-string",
            XacmlFunction::StringFromTime => "urn:oasis:names:tc:xacml:3.0:function:string-from-time",
            XacmlFunction::DateFromString => "urn:oasis:names:tc:xacml:3.0:function:date-from-string",
            XacmlFunction::StringFromDate => "urn:oasis:names:tc:xacml:3.0:function:string-from-date",
            XacmlFunction::DateTimeFromString => "urn:oasis:names:tc:xacml:3.0:function:dateTime-from-string",
            XacmlFunction::StringFromDateTime => "urn:oasis:names:tc:xacml:3.0:function:string-from-dateTime",
            XacmlFunction::AnyUriFromString => "urn:oasis:names:tc:xacml:3.0:function:anyURI-from-string",
            XacmlFunction::StringFromAnyUri => "urn:oasis:names:tc:xacml:3.0:function:string-from-anyURI",
            XacmlFunction::DayTimeDurationFromString => "urn:oasis:names:tc:xacml:3.0:function:dayTimeDuration-from-string",
            XacmlFunction::StringFromDayTimeDuration => "urn:oasis:names:tc:xacml:3.0:function:string-from-dayTimeDuration",
            XacmlFunction::YearMonthDurationFromString => "urn:oasis:names:tc:xacml:3.0:function:yearMonthDuration-from-string",
            XacmlFunction::StringFromYearMonthDuration => "urn:oasis:names:tc:xacml:3.0:function:string-from-yearMonthDuration",
            XacmlFunction::X500NameFromString => "urn:oasis:names:tc:xacml:3.0:function:x500Name-from-string",
            XacmlFunction::StringFromX500Name => "urn:oasis:names:tc:xacml:3.0:function:string-from-x500Name",
            XacmlFunction::Rfc822NameFromString => "urn:oasis:names:tc:xacml:3.0:function:rfc822Name-from-string",
            XacmlFunction::StringFromRfc822Name => "urn:oasis:names:tc:xacml:3.0:function:string-from-rfc822Name",
            XacmlFunction::IpAddressFromString => "urn:oasis:names:tc:xacml:3.0:function:ipAddress-from-string",
            XacmlFunction::StringFromIpAddress => "urn:oasis:names:tc:xacml:3.0:function:string-from-ipAddress",
            XacmlFunction::DnsNameFromString => "urn:oasis:names:tc:xacml:3.0:function:dnsName-from-string",
            XacmlFunction::StringFromDnsName => "urn:oasis:names:tc:xacml:3.0:function:string-from-dnsName",
            XacmlFunction::StringStartsWith => "urn:oasis:names:tc:xacml:3.0:function:string-starts-with",
            XacmlFunction::AnyUriStartsWith => "urn:oasis:names:tc:xacml:3.0:function:anyURI-starts-with",
            XacmlFunction::StringEndsWith => "urn:oasis:names:tc:xacml:3.0:function:string-ends-with",
            XacmlFunction::AnyUriEndsWith => "urn:oasis:names:tc:xacml:3.0:function:anyURI-ends-with",
            XacmlFunction::StringContains => "urn:oasis:names:tc:xacml:3.0:function:string-contains",
            XacmlFunction::AnyUriContains => "urn:oasis:names:tc:xacml:3.0:function:anyURI-contains",
            XacmlFunction::StringSubstring => "urn:oasis:names:tc:xacml:3.0:function:string-substring",
            XacmlFunction::AnyUriSubstring => "urn:oasis:names:tc:xacml:3.0:function:anyURI-substring",
            XacmlFunction::AnyOf(_) => "urn:oasis:names:tc:xacml:1.0:function:any-of",
            XacmlFunction::AllOf(_) => "urn:oasis:names:tc:xacml:1.0:function:all-of",
            XacmlFunction::AnyOfAny(_) => "urn:oasis:names:tc:xacml:1.0:function:any-of-any",
            XacmlFunction::AllOfAny(_) => "urn:oasis:names:tc:xacml:1.0:function:all-of-any",
            XacmlFunction::AnyOfAll(_) => "urn:oasis:names:tc:xacml:1.0:function:any-of-all",
            XacmlFunction::AllOfAll(_) => "urn:oasis:names:tc:xacml:1.0:function:all-of-all",
            XacmlFunction::StringOneAndOnly => "urn:oasis:names:tc:xacml:1.0:function:string-one-and-only",
            XacmlFunction::StringBagSize => "urn:oasis:names:tc:xacml:3.0:function:string-bag-size",
            XacmlFunction::StringIsIn => "urn:oasis:names:tc:xacml:3.0:function:string-is-in",
            XacmlFunction::StringBag => "urn:oasis:names:tc:xacml:1.0:function:string-bag",
            XacmlFunction::StringAtLeastOneMemberOf => "urn:oasis:names:tc:xacml:1.0:function:string-at-least-one-member-of",
        }
    }

    pub fn urn(&self) -> (r: &'static str)
        ensures
            r == self.spec_urn(),
    {
        match self {
            XacmlFunction::StringEqual => "urn:oasis:names:tc:xacml:1.0:function:string-equal",
            XacmlFunction::BooleanEqual => "urn:oasis:names:tc:xacml:1.0:function:boolean-equal",
            XacmlFunction::IntegerEqual => "urn:oasis:names:tc:xacml:1.0:function:integer-equal",
            XacmlFunction::DoubleEqual => "urn:oasis:names:tc:xacml:1.0:function:double-equal",
            XacmlFunction::DateEqual => "urn:oasis:names:tc:xacml:1.0:function:date-equal",
            XacmlFunction::TimeEqual => "urn:oasis:names:tc:xacml:1.0:function:time-equal",
            XacmlFunction::DateTimeEqual => "urn:oasis:names:tc:xacml:1.0:function:dateTime-equal",
            XacmlFunction::DayTimeDurationEqual => "urn:oasis:names:tc:xacml:3.0:function:dayTimeDuration-equal",
            XacmlFunction::YearMonthDurationEqual => "urn:oasis:names:tc:xacml:3.0:function:yearMonthDuration-equal",
            XacmlFunction::StringEqualIgnoreCase => "urn:oasis:names:tc:xacml:1.0:function:string-equal-ignore-case",
            XacmlFunction::AnyUriEqual => "urn:oasis:names:tc:xacml:1.0:function:anyURI-equal",
            XacmlFunction::X500NameEqual => "urn:oasis:names:tc:xacml:1.0:function:x500Name-equal",
            XacmlFunction::Rfc822NameEqual => "urn:oasis:names:tc:xacml:1.0:function:rfc822Name-equal",
            XacmlFunction::HexBinaryEqual => "urn:oasis:names:tc:xacml:1.0:function:hexBinary-equal",
            XacmlFunction::Base64BinaryEqual => "urn:oasis:names:tc:xacml:1.0:function:base64Binary-equal",
            XacmlFunction::IntegerAdd => "urn:oasis:names:tc:xacml:1.0:function:integer-add",
            XacmlFunction::DoubleAdd => "urn:oasis:names:tc:xacml:1.0:function:double-add",
            XacmlFunction::IntegerSubtract => "urn:oasis:names:tc:xacml:1.0:function:integer-subtract",
            XacmlFunction::DoubleSubtract => "urn:oasis:names:tc:xacml:1.0:function:double-subtract",
            XacmlFunction::IntegerMultiply => "urn:oasis:names:tc:xacml:1.0:function:integer-multiply",
            XacmlFunction::DoubleMultiply => "urn:oasis:names:tc:xacml:1.0:function:double-multiply",
            XacmlFunction::IntegerDivide => "urn:oasis:names:tc:xacml:1.0:function:integer-divide",
            XacmlFunction::DoubleDivide => "urn:oasis:names:tc:xacml:1.0:function:double-divide",
            XacmlFunction::IntegerMod => "urn:oasis:names:tc:xacml:1.0:function:integer-mod",
            XacmlFunction::IntegerAbs => "urn:oasis:names:tc:xacml:1.0:function:integer-abs",
            XacmlFunction::DoubleAbs => "urn:oasis:names:tc:xacml:1.0:function:double-abs",
            XacmlFunction::Round => "urn:oasis:names:tc:xacml:1.0:function:round",
            XacmlFunction::Floor => "urn:oasis:names:tc:xacml:1.0:function:floor",
            XacmlFunction::StringNormalizeSpace => "urn:oasis:names:tc:xacml:1.0:function:string-normalize-space",
            XacmlFunction::StringNormalizeToLowerCase => "urn:oasis:names:tc:xacml:1.0:function:string-normalize-to-lower-case",
            XacmlFunction::DoubleToInteger => "urn:oasis:names:tc:xacml:1.0:function:double-to-integer",
            XacmlFunction::IntegerToDouble => "urn:oasis:names:tc:xacml:1.0:function:integer-to-double",
            XacmlFunction::Or => "urn:oasis:names:tc:xacml:1.0:function:or",
            XacmlFunction::And => "urn:oasis:names:tc:xacml:1.0:function:and",
            XacmlFunction::NOf => "urn:oasis:names:tc:xacml:1.0:function:n-of",
            XacmlFunction::Not => "urn:oasis:names:tc:xacml:1.0:function:not",
            XacmlFunction::IfElse => "urn:oasis:names:tc:xacml:1.0:function:ifelse",
            XacmlFunction::IntegerGreaterThan => "urn:oasis:names:tc:xacml:1.0:function:integer-greater-than",
            XacmlFunction::IntegerGreaterThanOrEqual => "urn:oasis:names:tc:xacml:1.0:function:integer-greater-than-or-equal",
            XacmlFunction::IntegerLessThan => "urn:oasis:names:tc:xacml:1.0:function:integer-less-than",
            XacmlFunction::IntegerLessThanOrEqual => "urn:oasis:names:tc:xacml:1.0:function:integer-less-than-or-equal",
            XacmlFunction::DoubleGreaterThan => "urn:oasis:names:tc:xacml:1.0:function:double-greater-than",
            XacmlFunction::DoubleGreaterThanOrEqual => "urn:oasis:names:tc:xacml:1.0:function:double-greater-than-or-equal",
            XacmlFunction::DoubleLessThan => "urn:oasis:names:tc:xacml:1.0:function:double-less-than",
            XacmlFunction::DoubleLessThanOrEqual => "urn:oasis:names:tc:xacml:1.0:function:double-less-than-or-equal",
            XacmlFunction::DateTimeAddDayTimeDuration => "urn:oasis:names:tc:xacml:3.0:function:dateTime-add-dayTimeDuration",
            XacmlFunction::DateTimeAddYearMonthDuration => "urn:oasis:names:tc:xacml:3.0:function:dateTime-add-yearMonthDuration",
            XacmlFunction::DateTimeSubtractDayTimeDuration => "urn:oasis:names:tc:xacml:3.0:function:dateTime-subtract-dayTimeDuration",
            XacmlFunction::DateTimeSubtractYearMonthDuration => "urn:oasis:names:tc:xacml:3.0:function:dateTime-subtract-yearMonthDuration",
            XacmlFunction::DateAddYearMonthDuration => "urn:oasis:names:tc:xacml:3.0:function:date-add-yearMonthDuration",
            XacmlFunction::DateSubtractYearMonthDuration => "urn:oasis:names:tc:xacml:3.0:function:date-subtract-yearMonthDuration",
            XacmlFunction::StringGreaterThan => "urn:oasis:names:tc:xacml:1.0:function:string-greater-than",
            XacmlFunction::StringGreaterThanOrEqual => "urn:oasis:names:tc:xacml:1.0:function:string-greater-than-or-equal",
            XacmlFunction::StringLessThan => "urn:oasis:names:tc:xacml:1.0:function:string-less-than",
            XacmlFunction::StringLessThanOrEqual => "urn:oasis:names:tc:xacml:1.0:function:string-less-than-or-equal",
            XacmlFunction::TimeGreaterThan => "urn:oasis:names:tc:xacml:1.0:function:time-greater-than",
            XacmlFunction::TimeGreaterThanOrEqual => "urn:oasis:names:tc:xacml:1.0:function:time-greater-than-or-equal",
            XacmlFunction::TimeLessThan => "urn:oasis:names:tc:xacml:1.0:function:time-less-than",
            XacmlFunction::TimeLessThanOrEqual => "urn:oasis:names:tc:xacml:1.0:function:time-less-than-or-equal",
            XacmlFunction::TimeInRange => "urn:oasis:names:tc:xacml:2.0:function:time-in-range",
            XacmlFunction::DateTimeGreaterThan => "urn:oasis:names:tc:xacml:1.0:function:dateTime-greater-than",
            XacmlFunction::DateTimeGreaterThanOrEqual => "urn:oasis:names:tc:xacml:1.0:function:dateTime-greater-than-or-equal",
            XacmlFunction::DateTimeLessThan => "urn:oasis:names:tc:xacml:1.0:function:dateTime-less-than",
            XacmlFunction::DateTimeLessThanOrEqual => "urn:oasis:names:tc:xacml:1.0:function:dateTime-less-than-or-equal",
            XacmlFunction::DateGreaterThan => "urn:oasis:names:tc:xacml:1.0:function:date-greater-than",
            XacmlFunction::DateGreaterThanOrEqual => "urn:oasis:names:tc:xacml:1.0:function:date-greater-than-or-equal",
            XacmlFunction::DateLessThan => "urn:oasis:names:tc:xacml:1.0:function:date-less-than",
            XacmlFunction::DateLessThanOrEqual => "urn:oasis:names:tc:xacml:1.0:function:date-less-than-or-equal",
            XacmlFunction::StringConcatenate => "urn:oasis:names:tc:xacml:2.0:function:string-concatenate",
            XacmlFunction::BooleanFromString => "urn:oasis:names:tc:xacml:3.0:function:boolean-from-string",
            XacmlFunction::StringFromBoolean => "urn:oasis:names:tc:xacml:3.0:function:string-from-boolean",
            XacmlFunction::IntegerFromString => "urn:oasis:names:tc:xacml:3.0:function:integer-from-string",
            XacmlFunction::StringFromInteger => "urn:oasis:names:tc:xacml:3.0:function:string-from-integer",
            XacmlFunction::DoubleFromString => "urn:oasis:names:tc:xacml:3.0:function:double-from-string",
            XacmlFunction::StringFromDouble => "urn:oasis:names:tc:xacml:3.0:function:string-from-double",
            XacmlFunction::TimeFromString => "urn:oasis:names:tc:xacml:3.0:function:time-from-string",
            XacmlFunction::StringFromTime => "urn:oasis:names:tc:xacml:3.0:function:string-from-time",
            XacmlFunction::DateFromString => "urn:oasis:names:tc:xacml:3.0:function:date-from-string",
            XacmlFunction::StringFromDate => "urn:oasis:names:tc:xacml:3.0:function:string-from-date",
            XacmlFunction::DateTimeFromString => "urn:oasis:names:tc:xacml:3.0:function:dateTime-from-string",
            XacmlFunction::StringFromDateTime => "urn:oasis:names:tc:xacml:3.0:function:string-from-dateTime",
            XacmlFunction::AnyUriFromString => "urn:oasis:names:tc:xacml:3.0:function:anyURI-from-string",
            XacmlFunction::StringFromAnyUri => "urn:oasis:names:tc:xacml:3.0:function:string-from-anyURI",
            XacmlFunction::DayTimeDurationFromString => "urn:oasis:names:tc:xacml:3.0:function:dayTimeDuration-from-string",
            XacmlFunction::StringFromDayTimeDuration => "urn:oasis:names:tc:xacml:3.0:function:string-from-dayTimeDuration",
            XacmlFunction::YearMonthDurationFromString => "urn:oasis:names:tc:xacml:3.0:function:yearMonthDuration-from-string",
            XacmlFunction::StringFromYearMonthDuration => "urn:oasis:names:tc:xacml:3.0:function:string-from-yearMonthDuration",
            XacmlFunction::X500NameFromString => "urn:oasis:names:tc:xacml:3.0:function:x500Name-from-string",
            XacmlFunction::StringFromX500Name => "urn:oasis:names:tc:xacml:3.0:function:string-from-x500Name",
            XacmlFunction::Rfc822NameFromString => "urn:oasis:names:tc:xacml:3.0:function:rfc822Name-from-string",
            XacmlFunction::StringFromRfc822Name => "urn:oasis:names:tc:xacml:3.0:function:string-from-rfc822Name",
            XacmlFunction::IpAddressFromString => "urn:oasis:names:tc:xacml:3.0:function:ipAddress-from-string",
            XacmlFunction::StringFromIpAddress => "urn:oasis:names:tc:xacml:3.0:function:string-from-ipAddress",
            XacmlFunction::DnsNameFromString => "urn:oasis:names:tc:xacml:3.0:function:dnsName-from-string",
            XacmlFunction::StringFromDnsName => "urn:oasis:names:tc:xacml:3.0:function:string-from-dnsName",
            XacmlFunction::StringStartsWith => "urn:oasis:names:tc:xacml:3.0:function:string-starts-with",
            XacmlFunction::AnyUriStartsWith => "urn:oasis:names:tc:xacml:3.0:function:anyURI-starts-with",
            XacmlFunction::StringEndsWith => "urn:oasis:names:tc:xacml:3.0:function:string-ends-with",
            XacmlFunction::AnyUriEndsWith => "urn:oasis:names:tc:xacml:3.0:function:anyURI-ends-with",
            XacmlFunction::StringContains => "urn:oasis:names:tc:xacml:3.0:function:string-contains",
            XacmlFunction::AnyUriContains => "urn:oasis:names:tc:xacml:3.0:function:anyURI-contains",
            XacmlFunction::StringSubstring => "urn:oasis:names:tc:xacml:3.0:function:string-substring",
            XacmlFunction::AnyUriSubstring => "urn:oasis:names:tc:xacml:3.0:function:anyURI-substring",
            XacmlFunction::AnyOf(_) => "urn:oasis:names:tc:xacml:1.0:function:any-of",
            XacmlFunction::AllOf(_) => "urn:oasis:names:tc:xacml:1.0:function:all-of",
            XacmlFunction::AnyOfAny(_) => "urn:oasis:names:tc:xacml:1.0:function:any-of-any",
            XacmlFunction::AllOfAny(_) => "urn:oasis:names:tc:xacml:1.0:function:all-of-any",
            XacmlFunction::AnyOfAll(_) => "urn:oasis:names:tc:xacml:1.0:function:any-of-all",
            XacmlFunction::AllOfAll(_) => "urn:oasis:names:tc:xacml:1.0:function:all-of-all",
            XacmlFunction::StringOneAndOnly => "urn:oasis:names:tc:xacml:1.0:function:string-one-and-only",
            XacmlFunction::StringBagSize => "urn:oasis:names:tc:xacml:3.0:function:string-bag-size",
            XacmlFunction::StringIsIn => "urn:oasis:names:tc:xacml:3.0:function:string-is-in",
            XacmlFunction::StringBag => "urn:oasis:names:tc:xacml:1.0:function:string-bag",
            XacmlFunction::StringAtLeastOneMemberOf => "urn:oasis:names:tc:xacml:1.0:function:string-at-least-one-member-of",
        }
    }

    pub open spec fn spec_all() -> Seq<XacmlFunction> {
        seq![
            XacmlFunction::StringEqual,
            XacmlFunction::BooleanEqual,
            XacmlFunction::IntegerEqual,
            XacmlFunction::DoubleEqual,
            XacmlFunction::DateEqual,
            XacmlFunction::TimeEqual,
            XacmlFunction::DateTimeEqual,
            XacmlFunction::DayTimeDurationEqual,
            XacmlFunction::YearMonthDurationEqual,
            XacmlFunction::StringEqualIgnoreCase,
            XacmlFunction::AnyUriEqual,
            XacmlFunction::X500NameEqual,
            XacmlFunction::Rfc822NameEqual,
            XacmlFunction::HexBinaryEqual,
            XacmlFunction::Base64BinaryEqual,
            XacmlFunction::IntegerAdd,
            XacmlFunction::DoubleAdd,
            XacmlFunction::IntegerSubtract,
            XacmlFunction::DoubleSubtract,
            XacmlFunction::IntegerMultiply,
            XacmlFunction::DoubleMultiply,
            XacmlFunction::IntegerDivide,
            XacmlFunction::DoubleDivide,
            XacmlFunction::IntegerMod,
            XacmlFunction::IntegerAbs,
            XacmlFunction::DoubleAbs,
            XacmlFunction::Round,
            XacmlFunction::Floor,
            XacmlFunction::StringNormalizeSpace,
            XacmlFunction::StringNormalizeToLowerCase,
            XacmlFunction::DoubleToInteger,
            XacmlFunction::IntegerToDouble,
            XacmlFunction::Or,
            XacmlFunction::And,
            XacmlFunction::NOf,
            XacmlFunction::Not,
            XacmlFunction::IfElse,
            XacmlFunction::IntegerGreaterThan,
            XacmlFunction::IntegerGreaterThanOrEqual,
            XacmlFunction::IntegerLessThan,
            XacmlFunction::IntegerLessThanOrEqual,
            XacmlFunction::DoubleGreaterThan,
            XacmlFunction::DoubleGreaterThanOrEqual,
            XacmlFunction::DoubleLessThan,
            XacmlFunction::DoubleLessThanOrEqual,
            XacmlFunction::DateTimeAddDayTimeDuration,
            XacmlFunction::DateTimeAddYearMonthDuration,
            XacmlFunction::DateTimeSubtractDayTimeDuration,
            XacmlFunction::DateTimeSubtractYearMonthDuration,
            XacmlFunction::DateAddYearMonthDuration,
            XacmlFunction::DateSubtractYearMonthDuration,
            XacmlFunction::StringGreaterThan,
            XacmlFunction::StringGreaterThanOrEqual,
            XacmlFunction::StringLessThan,
            XacmlFunction::StringLessThanOrEqual,
            XacmlFunction::TimeGreaterThan,
            XacmlFunction::TimeGreaterThanOrEqual,
            XacmlFunction::TimeLessThan,
            XacmlFunction::TimeLessThanOrEqual,
            XacmlFunction::TimeInRange,
            XacmlFunction::DateTimeGreaterThan,
            XacmlFunction::DateTimeGreaterThanOrEqual,
            XacmlFunction::DateTimeLessThan,
            XacmlFunction::DateTimeLessThanOrEqual,
            XacmlFunction::DateGreaterThan,
            XacmlFunction::DateGreaterThanOrEqual,
            XacmlFunction::DateLessThan,
            XacmlFunction::DateLessThanOrEqual,
            XacmlFunction::StringConcatenate,
            XacmlFunction::BooleanFromString,
            XacmlFunction::StringFromBoolean,
            XacmlFunction::IntegerFromString,
            XacmlFunction::StringFromInteger,
            XacmlFunction::DoubleFromString,
            XacmlFunction::StringFromDouble,
            XacmlFunction::TimeFromString,
            XacmlFunction::StringFromTime,
            XacmlFunction::DateFromString,
            XacmlFunction::StringFromDate,
            XacmlFunction::DateTimeFromString,
            XacmlFunction::StringFromDateTime,
            XacmlFunction::AnyUriFromString,
            XacmlFunction::StringFromAnyUri,
            XacmlFunction::DayTimeDurationFromString,
            XacmlFunction::StringFromDayTimeDuration,
            XacmlFunction::YearMonthDurationFromString,
            XacmlFunction::StringFromYearMonthDuration,
            XacmlFunction::X500NameFromString,
            XacmlFunction::StringFromX500Name,
            XacmlFunction::Rfc822NameFromString,
            XacmlFunction::StringFromRfc822Name,
            XacmlFunction::IpAddressFromString,
            XacmlFunction::StringFromIpAddress,
            XacmlFunction::DnsNameFromString,
            XacmlFunction::StringFromDnsName,
            XacmlFunction::StringStartsWith,
            XacmlFunction::AnyUriStartsWith,
            XacmlFunction::StringEndsWith,
            XacmlFunction::AnyUriEndsWith,
            XacmlFunction::StringContains,
            XacmlFunction::AnyUriContains,
            XacmlFunction::StringSubstring,
            XacmlFunction::AnyUriSubstring,
            XacmlFunction::AnyOf(None),
            XacmlFunction::AllOf(None),
            XacmlFunction::AnyOfAny(None),
            XacmlFunction::AllOfAny(None),
            XacmlFunction::AnyOfAll(None),
            XacmlFunction::AllOfAll(None),
            XacmlFunction::StringOneAndOnly,
            XacmlFunction::StringBagSize,
            XacmlFunction::StringIsIn,
            XacmlFunction::StringBag,
            XacmlFunction::StringAtLeastOneMemberOf,
        ]
    }

    pub fn all() -> (r: Vec<XacmlFunction>)
        ensures
            r@ == Self::spec_all(),
    {
        vec![
            XacmlFunction::StringEqual,
            XacmlFunction::BooleanEqual,
            XacmlFunction::IntegerEqual,
            XacmlFunction::DoubleEqual,
            XacmlFunction::DateEqual,
            XacmlFunction::TimeEqual,
            XacmlFunction::DateTimeEqual,
            XacmlFunction::DayTimeDurationEqual,
            XacmlFunction::YearMonthDurationEqual,
            XacmlFunction::StringEqualIgnoreCase,
            XacmlFunction::AnyUriEqual,
            XacmlFunction::X500NameEqual,
            XacmlFunction::Rfc822NameEqual,
            XacmlFunction::HexBinaryEqual,
            XacmlFunction::Base64BinaryEqual,
            XacmlFunction::IntegerAdd,
            XacmlFunction::DoubleAdd,
            XacmlFunction::IntegerSubtract,
            XacmlFunction::DoubleSubtract,
            XacmlFunction::IntegerMultiply,
            XacmlFunction::DoubleMultiply,
            XacmlFunction::IntegerDivide,
            XacmlFunction::DoubleDivide,
            XacmlFunction::IntegerMod,
            XacmlFunction::IntegerAbs,
            XacmlFunction::DoubleAbs,
            XacmlFunction::Round,
            XacmlFunction::Floor,
            XacmlFunction::StringNormalizeSpace,
            XacmlFunction::StringNormalizeToLowerCase,
            XacmlFunction::DoubleToInteger,
            XacmlFunction::IntegerToDouble,
            XacmlFunction::Or,
            XacmlFunction::And,
            XacmlFunction::NOf,
            XacmlFunction::Not,
            XacmlFunction::IfElse,
            XacmlFunction::IntegerGreaterThan,
            XacmlFunction::IntegerGreaterThanOrEqual,
            XacmlFunction::IntegerLessThan,
            XacmlFunction::IntegerLessThanOrEqual,
            XacmlFunction::DoubleGreaterThan,
            XacmlFunction::DoubleGreaterThanOrEqual,
            XacmlFunction::DoubleLessThan,
            XacmlFunction::DoubleLessThanOrEqual,
            XacmlFunction::DateTimeAddDayTimeDuration,
            XacmlFunction::DateTimeAddYearMonthDuration,
            XacmlFunction::DateTimeSubtractDayTimeDuration,
            XacmlFunction::DateTimeSubtractYearMonthDuration,
            XacmlFunction::DateAddYearMonthDuration,
            XacmlFunction::DateSubtractYearMonthDuration,
            XacmlFunction::StringGreaterThan,
            XacmlFunction::StringGreaterThanOrEqual,
            XacmlFunction::StringLessThan,
            XacmlFunction::StringLessThanOrEqual,
            XacmlFunction::TimeGreaterThan,
            XacmlFunction::TimeGreaterThanOrEqual,
            XacmlFunction::TimeLessThan,
            XacmlFunction::TimeLessThanOrEqual,
            XacmlFunction::TimeInRange,
            XacmlFunction::DateTimeGreaterThan,
            XacmlFunction::DateTimeGreaterThanOrEqual,
            XacmlFunction::DateTimeLessThan,
            XacmlFunction::DateTimeLessThanOrEqual,
            XacmlFunction::DateGreaterThan,
            XacmlFunction::DateGreaterThanOrEqual,
            XacmlFunction::DateLessThan,
            XacmlFunction::DateLessThanOrEqual,
            XacmlFunction::StringConcatenate,
            XacmlFunction::BooleanFromString,
            XacmlFunction::StringFromBoolean,
            XacmlFunction::IntegerFromString,
            XacmlFunction::StringFromInteger,
            XacmlFunction::DoubleFromString,
            XacmlFunction::StringFromDouble,
            XacmlFunction::TimeFromString,
            XacmlFunction::StringFromTime,
            XacmlFunction::DateFromString,
            XacmlFunction::StringFromDate,
            XacmlFunction::DateTimeFromString,
            XacmlFunction::StringFromDateTime,
            XacmlFunction::AnyUriFromString,
            XacmlFunction::StringFromAnyUri,
            XacmlFunction::DayTimeDurationFromString,
            XacmlFunction::StringFromDayTimeDuration,
            XacmlFunction::YearMonthDurationFromString,
            XacmlFunction::StringFromYearMonthDuration,
            XacmlFunction::X500NameFromString,
            XacmlFunction::StringFromX500Name,
            XacmlFunction::Rfc822NameFromString,
            XacmlFunction::StringFromRfc822Name,
            XacmlFunction::IpAddressFromString,
            XacmlFunction::StringFromIpAddress,
            XacmlFunction::DnsNameFromString,
            XacmlFunction::StringFromDnsName,
            XacmlFunction::StringStartsWith,
            XacmlFunction::AnyUriStartsWith,
            XacmlFunction::StringEndsWith,
            XacmlFunction::AnyUriEndsWith,
            XacmlFunction::StringContains,
            XacmlFunction::AnyUriContains,
            XacmlFunction::StringSubstring,
            XacmlFunction::AnyUriSubstring,
            XacmlFunction::AnyOf(None),
            XacmlFunction::AllOf(None),
            XacmlFunction::AnyOfAny(None),
            XacmlFunction::AllOfAny(None),
            XacmlFunction::AnyOfAll(None),
            XacmlFunction::AllOfAll(None),
            XacmlFunction::StringOneAndOnly,
            XacmlFunction::StringBagSize,
            XacmlFunction::StringIsIn,
            XacmlFunction::StringBag,
            XacmlFunction::StringAtLeastOneMemberOf,
        ]
    }

    /// The first function of `spec_all`, from position `i` on, whose URN is `urn`.
    pub open spec fn lookup_from(urn: Seq<char>, i: int) -> Option<XacmlFunction>
        decreases Self::spec_all().len() - i,
    {
        if i < 0 || i >= Self::spec_all().len() {
            None
        } else if Self::spec_all()[i].spec_urn()@ == urn {
            Some(Self::spec_all()[i])
        } else {
            Self::lookup_from(urn, i + 1)
        }
    }

    /// The function whose URN is `urn`, looked up in the order of `spec_all`.
    pub open spec fn lookup(urn: Seq<char>) -> Option<XacmlFunction> {
        Self::lookup_from(urn, 0)
    }

    /// What `from_urn` accepts without failing: a quantifier URN must come
    /// with a second URN that names a function that is not a quantifier.
    pub open spec fn urn_accepted(urn: Seq<char>, urn2: Option<Seq<char>>) -> bool {
        match Self::lookup(urn) {
            Some(f) => f.is_quantifier() ==> match urn2 {
                Some(u2) => Self::lookup(u2) matches Some(g) && !g.is_quantifier(),
                None => false,
            },
            None => true,
        }
    }

    /// The function that `from_urn` yields.
    pub open spec fn spec_from_urn(urn: Seq<char>, urn2: Option<Seq<char>>) -> Option<XacmlFunction> {
        match Self::lookup(urn) {
            Some(f) => if f.is_quantifier() {
                Some(f.with_inner(Self::lookup(urn2.unwrap()).unwrap()))
            } else {
                Some(f)
            },
            None => None,
        }
    }

    fn find_urn(urn: &str) -> (r: Option<XacmlFunction>)
        ensures
            r == Self::lookup(urn@),
    {
        let all = Self::all();
        let ghost sall = Self::spec_all();
        let mut i: usize = 0;
        while i < all.len()
            invariant
                all@ == sall,
                sall == Self::spec_all(),
                i <= all.len(),
                Self::lookup(urn@) == Self::lookup_from(urn@, i as int),
            decreases all.len() - i,
        {
            if str_eq(all[i].urn(), urn) {
                return Some(all[i].copy());
            }
            i = i + 1;
        }
        None
    }

    /// Parses a function URN. A quantifier URN takes its predicate from `urn2`.
    pub fn from_urn(urn: &str, urn2: Option<&str>) -> (r: Option<XacmlFunction>)
        requires
            Self::urn_accepted(urn@, opt_view(urn2)),
        ensures
            r == Self::spec_from_urn(urn@, opt_view(urn2)),
    {
        match Self::find_urn(urn) {
            None => None,
            Some(f) => {
                match f {
                    XacmlFunction::AnyOf(_) => Some(XacmlFunction::AnyOf(Some(Box::new(Self::inner_from(urn2))))),
                    XacmlFunction::AllOf(_) => Some(XacmlFunction::AllOf(Some(Box::new(Self::inner_from(urn2))))),
                    XacmlFunction::AnyOfAny(_) => Some(XacmlFunction::AnyOfAny(Some(Box::new(Self::inner_from(urn2))))),
                    XacmlFunction::AllOfAny(_) => Some(XacmlFunction::AllOfAny(Some(Box::new(Self::inner_from(urn2))))),
                    XacmlFunction::AnyOfAll(_) => Some(XacmlFunction::AnyOfAll(Some(Box::new(Self::inner_from(urn2))))),
                    XacmlFunction::AllOfAll(_) => Some(XacmlFunction::AllOfAll(Some(Box::new(Self::inner_from(urn2))))),
                    other => Some(other),
                }
            }
        }
    }

    fn inner_from(urn2: Option<&str>) -> (r: XacmlFunction)
        requires
            urn2 is Some,
            Self::lookup(urn2.unwrap()@) is Some,
        ensures
            Some(r) == Self::lookup(urn2.unwrap()@),
    {
        match urn2 {
            Some(u) => match Self::find_urn(u) {
                Some(g) => g,
                None => XacmlFunction::StringBag,
            },
            None => XacmlFunction::StringBag,
        }
    }
}

/// The view of an optional string slice.
pub open spec fn opt_view(s: Option<&str>) -> Option<Seq<char>> {
    match s {
        Some(x) => Some(x@),
        None => None,
    }
}

/// The XACML data types, identified by their URIs.
#[derive(Debug, Clone, Copy, PartialEq, Eq, Hash)]
pub enum XacmlDataTypesStrings {
    String,
    Integer,
    Double,
    Boolean,
    Time,
    Date,
    DateTime,
    DayTimeDuration,
    YearMonthDuration,
    AnyUri,
    HexBinary,
    Base64Binary,
    Rfc822Name,
    X500Name,
    DnsName,
    IpAddress,
}

/// A data-type identifier that names no known data type.
#[derive(Debug, PartialEq)]
pub struct UnknownDataType {
    pub name: String,
}

impl XacmlDataTypesStrings {
    /// The identifier of this data type.
    pub open spec fn spec_identifier(self) -> &'static str {
        match self {
            XacmlDataTypesStrings::String => STR_STRING,
            XacmlDataTypesStrings::Integer => STR_INTEGER,
            XacmlDataTypesStrings::Double => STR_DOUBLE,
            XacmlDataTypesStrings::Boolean => STR_BOOLEAN,
            XacmlDataTypesStrings::Time => STR_TIME,
            XacmlDataTypesStrings::Date => STR_DATE,
            XacmlDataTypesStrings::DateTime => STR_DATE_TIME,
            XacmlDataTypesStrings::DayTimeDuration => STR_DAY_TIME_DURATION,
            XacmlDataTypesStrings::YearMonthDuration => STR_YEAR_MONTH_DURATION,
            XacmlDataTypesStrings::AnyUri => STR_ANY_URI,
            XacmlDataTypesStrings::HexBinary => STR_HEX_BINARY,
            XacmlDataTypesStrings::Base64Binary => STR_BASE_64_BINARY,
            XacmlDataTypesStrings::Rfc822Name => STR_RFC_822_NAME,
            XacmlDataTypesStrings::X500Name => STR_X_500_NAME,
            XacmlDataTypesStrings::DnsName => STR_DNS_NAME,
            XacmlDataTypesStrings::IpAddress => STR_IP_ADDRESS,
        }
    }

    /// The data type with identifier `s`, checked in the order in which the
    /// identifiers are tried.
    pub open spec fn spec_from_identifier(s: Seq<char>) -> Option<XacmlDataTypesStrings> {
        if s == STR_STRING@ {
            Some(XacmlDataTypesStrings::String)
        } else if s == STR_INTEGER@ {
            Some(XacmlDataTypesStrings::Integer)
        } else if s == STR_DOUBLE@ {
            Some(XacmlDataTypesStrings::Double)
        } else if s == STR_BOOLEAN@ {
            Some(XacmlDataTypesStrings::Boolean)
        } else if s == STR_TIME@ {
            Some(XacmlDataTypesStrings::Time)
        } else if s == STR_DATE_TIME@ {
            Some(XacmlDataTypesStrings::DateTime)
        } else if s == STR_DATE@ {
            Some(XacmlDataTypesStrings::Date)
        } else if s == STR_DAY_TIME_DURATION@ {
            Some(XacmlDataTypesStrings::DayTimeDuration)
        } else if s == STR_YEAR_MONTH_DURATION@ {
            Some(XacmlDataTypesStrings::YearMonthDuration)
        } else if s == STR_ANY_URI@ {
            Some(XacmlDataTypesStrings::AnyUri)
        } else if s == STR_HEX_BINARY@ {
            Some(XacmlDataTypesStrings::HexBinary)
        } else if s == STR_BASE_64_BINARY@ {
            Some(XacmlDataTypesStrings::Base64Binary)
        } else if s == STR_RFC_822_NAME@ {
            Some(XacmlDataTypesStrings::Rfc822Name)
        } else if s == STR_X_500_NAME@ {
            Some(XacmlDataTypesStrings::X500Name)
        } else if s == STR_DNS_NAME@ {
            Some(XacmlDataTypesStrings::DnsName)
        } else if s == STR_IP_ADDRESS@ {
            Some(XacmlDataTypesStrings::IpAddress)
        } else {
            None
        }
    }

    /// The identifier of this data type, as an owned string.
    pub fn to_string(&self) -> (r: String)
        ensures
            r@ == self.spec_identifier()@,
    {
        let id: &'static str = match self {
            XacmlDataTypesStrings::String => STR_STRING,
            XacmlDataTypesStrings::Integer => STR_INTEGER,
            XacmlDataTypesStrings::Double => STR_DOUBLE,
            XacmlDataTypesStrings::Boolean => STR_BOOLEAN,
            XacmlDataTypesStrings::Time => STR_TIME,
            XacmlDataTypesStrings::Date => STR_DATE,
            XacmlDataTypesStrings::DateTime => STR_DATE_TIME,
            XacmlDataTypesStrings::DayTimeDuration => STR_DAY_TIME_DURATION,
            XacmlDataTypesStrings::YearMonthDuration => STR_YEAR_MONTH_DURATION,
            XacmlDataTypesStrings::AnyUri => STR_ANY_URI,
            XacmlDataTypesStrings::HexBinary => STR_HEX_BINARY,
            XacmlDataTypesStrings::Base64Binary => STR_BASE_64_BINARY,
            XacmlDataTypesStrings::Rfc822Name => STR_RFC_822_NAME,
            XacmlDataTypesStrings::X500Name => STR_X_500_NAME,
            XacmlDataTypesStrings::DnsName => STR_DNS_NAME,
            XacmlDataTypesStrings::IpAddress => STR_IP_ADDRESS,
        };
        id.to_owned()
    }

    /// Parses a data-type identifier.
    pub fn from_str(s: &str) -> (r: Result<XacmlDataTypesStrings, UnknownDataType>)
        ensures
            match r {
                Ok(t) => Self::spec_from_identifier(s@) == Some(t),
                Err(e) => Self::spec_from_identifier(s@) is None && e.name@ == s@,
            },
    {
        if str_eq(s, STR_STRING) {
            return Ok(XacmlDataTypesStrings::String);
        }
        if str_eq(s, STR_INTEGER) {
            return Ok(XacmlDataTypesStrings::Integer);
        }
        if str_eq(s, STR_DOUBLE) {
            return Ok(XacmlDataTypesStrings::Double);
        }
        if str_eq(s, STR_BOOLEAN) {
            return Ok(XacmlDataTypesStrings::Boolean);
        }
        if str_eq(s, STR_TIME) {
            return Ok(XacmlDataTypesStrings::Time);
        }
        if str_eq(s, STR_DATE_TIME) {
            return Ok(XacmlDataTypesStrings::DateTime);
        }
        if str_eq(s, STR_DATE) {
            return Ok(XacmlDataTypesStrings::Date);
        }
        if str_eq(s, STR_DAY_TIME_DURATION) {
            return Ok(XacmlDataTypesStrings::DayTimeDuration);
        }
        if str_eq(s, STR_YEAR_MONTH_DURATION) {
            return Ok(XacmlDataTypesStrings::YearMonthDuration);
        }
        if str_eq(s, STR_ANY_URI) {
            return Ok(XacmlDataTypesStrings::AnyUri);
        }
        if str_eq(s, STR_HEX_BINARY) {
            return Ok(XacmlDataTypesStrings::HexBinary);
        }
        if str_eq(s, STR_BASE_64_BINARY) {
            return Ok(XacmlDataTypesStrings::Base64Binary);
        }
        if str_eq(s, STR_RFC_822_NAME) {
            return Ok(XacmlDataTypesStrings::Rfc822Name);
        }
        if str_eq(s, STR_X_500_NAME) {
            return Ok(XacmlDataTypesStrings::X500Name);
        }
        if str_eq(s, STR_DNS_NAME) {
            return Ok(XacmlDataTypesStrings::DnsName);
        }
        if str_eq(s, STR_IP_ADDRESS) {
            return Ok(XacmlDataTypesStrings::IpAddress);
        }
        Err(UnknownDataType { name: s.to_owned() })
    }
}

/// The XACML rule-combining algorithms.
#[derive(Debug, Clone, Copy, PartialEq, Eq, Hash)]
pub enum RuleCombiningAlg {
    DenyOverrides,
    PermitOverrides,
    FirstApplicable,
    OrderedDenyOverrides,
    OrderedPermitOverrides,
    DenyUnlessPermit,
    PermitUnlessDeny,
}

impl RuleCombiningAlg {
    /// The identifier of this algorithm.
    pub open spec fn spec_identifier(self) -> &'static str {
        match self {
            RuleCombiningAlg::DenyOverrides => "urn:oasis:names:tc:xacml:3.0:rule-combining-algorithm:deny-overrides",
            RuleCombiningAlg::PermitOverrides => "urn:oasis:names:tc:xacml:3.0:rule-combining-algorithm:permit-overrides",
            RuleCombiningAlg::FirstApplicable => "urn:oasis:names:tc:xacml:1.0:rule-combining-algorithm:first-applicable",
            RuleCombiningAlg::OrderedDenyOverrides => "urn:oasis:names:tc:xacml:3.0:rule-combining-algorithm:ordered-deny-overrides",
            RuleCombiningAlg::OrderedPermitOverrides => "urn:oasis:names:tc:xacml:3.0:rule-combining-algorithm:ordered-permit-overrides",
            RuleCombiningAlg::DenyUnlessPermit => "urn:oasis:names:tc:xacml:3.0:rule-combining-algorithm:deny-unless-permit",
            RuleCombiningAlg::PermitUnlessDeny => "urn:oasis:names:tc:xacml:3.0:rule-combining-algorithm:permit-unless-deny",
        }
    }

    /// The identifier of this algorithm.
    pub fn as_str(&self) -> (r: &'static str)
        ensures
            r == self.spec_identifier(),
    {
        match self {
            RuleCombiningAlg::DenyOverrides => "urn:oasis:names:tc:xacml:3.0:rule-combining-algorithm:deny-overrides",
            RuleCombiningAlg::PermitOverrides => "urn:oasis:names:tc:xacml:3.0:rule-combining-algorithm:permit-overrides",
            RuleCombiningAlg::FirstApplicable => "urn:oasis:names:tc:xacml:1.0:rule-combining-algorithm:first-applicable",
            RuleCombiningAlg::OrderedDenyOverrides => "urn:oasis:names:tc:xacml:3.0:rule-combining-algorithm:ordered-deny-overrides",
            RuleCombiningAlg::OrderedPermitOverrides => "urn:oasis:names:tc:xacml:3.0:rule-combining-algorithm:ordered-permit-overrides",
            RuleCombiningAlg::DenyUnlessPermit => "urn:oasis:names:tc:xacml:3.0:rule-combining-algorithm:deny-unless-permit",
            RuleCombiningAlg::PermitUnlessDeny => "urn:oasis:names:tc:xacml:3.0:rule-combining-algorithm:permit-unless-deny",
        }
    }
}

/// The XACML policy-combining algorithms.
#[derive(Debug, Clone, Copy, PartialEq, Eq, Hash)]
pub enum PolicyCombiningAlg {
    DenyOverrides,
    PermitOverrides,
    FirstApplicable,
    OnlyOneApplicable,
    OrderedDenyOverrides,
    OrderedPermitOverrides,
    DenyUnlessPermit,
    PermitUnlessDeny,
}

impl PolicyCombiningAlg {
    /// The identifier of this algorithm.
    pub open spec fn spec_identifier(self) -> &'static str {
        match self {
            PolicyCombiningAlg::DenyOverrides => "urn:oasis:names:tc:xacml:3.0:policy-combining-algorithm:deny-overrides",
            PolicyCombiningAlg::PermitOverrides => "urn:oasis:names:tc:xacml:3.0:policy-combining-algorithm:permit-overrides",
            PolicyCombiningAlg::FirstApplicable => "urn:oasis:names:tc:xacml:1.0:policy-combining-algorithm:first-applicable",
            PolicyCombiningAlg::OnlyOneApplicable => "urn:oasis:names:tc:xacml:1.0:policy-combining-algorithm:only-one-applicable",
            PolicyCombiningAlg::OrderedDenyOverrides => "urn:oasis:names:tc:xacml:3.0:policy-combining-algorithm:ordered-deny-overrides",
            PolicyCombiningAlg::OrderedPermitOverrides => "urn:oasis:names:tc:xacml:3.0:policy-combining-algorithm:ordered-permit-overrides",
            PolicyCombiningAlg::DenyUnlessPermit => "urn:oasis:names:tc:xacml:3.0:policy-combining-algorithm:deny-unless-permit",
            PolicyCombiningAlg::PermitUnlessDeny => "urn:oasis:names:tc:xacml:3.0:policy-combining-algorithm:permit-unless-deny",
        }
    }

    /// The identifier of this algorithm.
    pub fn as_str(&self) -> (r: &'static str)
        ensures
            r == self.spec_identifier(),
    {
        match self {
            PolicyCombiningAlg::DenyOverrides => "urn:oasis:names:tc:xacml:3.0:policy-combining-algorithm:deny-overrides",
            PolicyCombiningAlg::PermitOverrides => "urn:oasis:names:tc:xacml:3.0:policy-combining-algorithm:permit-overrides",
            PolicyCombiningAlg::FirstApplicable => "urn:oasis:names:tc:xacml:1.0:policy-combining-algorithm:first-applicable",
            PolicyCombiningAlg::OnlyOneApplicable => "urn:oasis:names:tc:xacml:1.0:policy-combining-algorithm:only-one-applicable",
            PolicyCombiningAlg::OrderedDenyOverrides => "urn:oasis:names:tc:xacml:3.0:policy-combining-algorithm:ordered-deny-overrides",
            PolicyCombiningAlg::OrderedPermitOverrides => "urn:oasis:names:tc:xacml:3.0:policy-combining-algorithm:ordered-permit-overrides",
            PolicyCombiningAlg::DenyUnlessPermit => "urn:oasis:names:tc:xacml:3.0:policy-combining-algorithm:deny-unless-permit",
            PolicyCombiningAlg::PermitUnlessDeny => "urn:oasis:names:tc:xacml:3.0:policy-combining-algorithm:permit-unless-deny",
        }
    }
}

/// Every data type is recognised from its own identifier: parsing the
/// identifier of `t` gives `t` back.
pub proof fn lemma_data_type_identifier_round_trip(t: XacmlDataTypesStrings)
    ensures
        XacmlDataTypesStrings::spec_from_identifier(t.spec_identifier()@) == Some(t),
{
    reveal_strlit("http://www.w3.org/2001/XMLSchema#string");
    reveal_strlit("http://www.w3.org/2001/XMLSchema#integer");
    reveal_strlit("http://www.w3.org/2001/XMLSchema#double");
    reveal_strlit("http://www.w3.org/2001/XMLSchema#boolean");
    reveal_strlit("http://www.w3.org/2001/XMLSchema#time");
    reveal_strlit("http://www.w3.org/2001/XMLSchema#date");
    reveal_strlit("http://www.w3.org/2001/XMLSchema#dateTime");
    reveal_strlit("http://www.w3.org/2001/XMLSchema#dayTimeDuration");
    reveal_strlit("http://www.w3.org/2001/XMLSchema#yearMonthDuration");
    reveal_strlit("http://www.w3.org/2001/XMLSchema#anyUri");
    reveal_strlit("http://www.w3.org/2001/XMLSchema#hexBinary");
    reveal_strlit("http://www.w3.org/2001/XMLSchema#base64Binary");
    reveal_strlit("urn:oasis:names:tc:xacml:1.0:data-type:rfc822Name");
    reveal_strlit("urn:oasis:names:tc:xacml:1.0:data-type:x500Name");
    reveal_strlit("urn:oasis:names:tc:xacml:2.0:data-type:dnsName");
    reveal_strlit("urn:oasis:names:tc:xacml:2.0:data-type:ipAddress");
    assert(STR_STRING@.len() == 39 && STR_STRING@[0] == 'h' && STR_STRING@[33] == 's');
    assert(STR_INTEGER@.len() == 40 && STR_INTEGER@[0] == 'h' && STR_INTEGER@[33] == 'i');
    assert(STR_DOUBLE@.len() == 39 && STR_DOUBLE@[0] == 'h' && STR_DOUBLE@[33] == 'd');
    assert(STR_BOOLEAN@.len() == 40 && STR_BOOLEAN@[0] == 'h' && STR_BOOLEAN@[33] == 'b');
    assert(STR_TIME@.len() == 37 && STR_TIME@[0] == 'h' && STR_TIME@[33] == 't');
    assert(STR_DATE@.len() == 37 && STR_DATE@[0] == 'h' && STR_DATE@[33] == 'd');
    assert(STR_DATE_TIME@.len() == 41 && STR_DATE_TIME@[0] == 'h' && STR_DATE_TIME@[33] == 'd');
    assert(STR_DAY_TIME_DURATION@.len() == 48 && STR_DAY_TIME_DURATION@[0] == 'h' && STR_DAY_TIME_DURATION@[33] == 'd');
    assert(STR_YEAR_MONTH_DURATION@.len() == 50 && STR_YEAR_MONTH_DURATION@[0] == 'h' && STR_YEAR_MONTH_DURATION@[33] == 'y');
    assert(STR_ANY_URI@.len() == 39 && STR_ANY_URI@[0] == 'h' && STR_ANY_URI@[33] == 'a');
    assert(STR_HEX_BINARY@.len() == 42 && STR_HEX_BINARY@[0] == 'h' && STR_HEX_BINARY@[33] == 'h');
    assert(STR_BASE_64_BINARY@.len() == 45 && STR_BASE_64_BINARY@[0] == 'h' && STR_BASE_64_BINARY@[33] == 'b');
    assert(STR_RFC_822_NAME@.len() == 49 && STR_RFC_822_NAME@[0] == 'u' && STR_RFC_822_NAME@[33] == '-');
    assert(STR_X_500_NAME@.len() == 47 && STR_X_500_NAME@[0] == 'u' && STR_X_500_NAME@[33] == '-');
    assert(STR_DNS_NAME@.len() == 46 && STR_DNS_NAME@[0] == 'u' && STR_DNS_NAME@[33] == '-');
    assert(STR_IP_ADDRESS@.len() == 48 && STR_IP_ADDRESS@[0] == 'u' && STR_IP_ADDRESS@[33] == '-');
}


/// The character at `k` of `u` as a number, or 0 past its end.
pub open spec fn char_code(u: Seq<char>, k: int) -> int {
    if 0 <= k < u.len() {
        u[k] as int
    } else {
        0
    }
}

/// A number that tells the function URNs apart: their length and three of
/// their characters.
pub open spec fn urn_signature(u: Seq<char>) -> int {
    u.len() * 16777216 + char_code(u, 40) * 65536 + char_code(u, 47) * 256 + char_code(u, 50)
}

/// The signatures of the URNs of `XacmlFunction::spec_all()`, in order.
pub open spec fn urn_signatures() -> Seq<int> {
    seq![846361856, 862941548, 863269228, 846558464, 812936192, 812477440, 880043361, 997814889, 1029784673, 1047688493, 846820608, 875586913, 912483697, 897068405, 947085613, 829711360, 812999680, 913601906, 896885345, 913601897, 896887920, 880044388, 863336037, 829714176, 829710848, 813003520, 729088000, 728694784, 1014133356, 1148351084, 930426228, 930377583, 671088640, 694419456, 711917568, 695468032, 744816640, 980710004, 1131704948, 930374957, 1081369901, 963994981, 1114989925, 913666932, 1064661876, 1114923309, 1148477741, 1198814068, 1232368500, 1081375090, 1165259380, 963798373, 1114793317, 913470324, 1064465268, 929920045, 1080914989, 879570273, 1030565217, 862806373, 997484385, 1148479329, 947154035, 1098148979, 930378797, 1081373741, 880029025, 1031023969, 947023476, 963605037, 963800930, 963932717, 963800937, 947220339, 947023716, 913124722, 913469300, 913583474, 913469284, 980706925, 980578148, 947482483, 947023713, 1098478185, 1098018660, 1130447969, 1131573113, 976250477, 980578168, 1013146994, 1014132594, 994127215, 997355369, 963867181, 963800932, 947020147, 947478899, 913466487, 913925239, 896691817, 897150569, 913465970, 913924722, 746127360, 745275392, 813267200, 812415232, 813263872, 812411904, 963798382, 896690025, 846343424, 812803840, 1131556193]
}

/// The position of a signature in `urn_signatures()`.
pub open spec fn signature_position(c: int) -> int {
    if c == 846361856 {
        0
    } else if c == 862941548 {
        1
    } else if c == 863269228 {
        2
    } else if c == 846558464 {
        3
    } else if c == 812936192 {
        4
    } else if c == 812477440 {
        5
    } else if c == 880043361 {
        6
    } else if c == 997814889 {
        7
    } else if c == 1029784673 {
        8
    } else if c == 1047688493 {
        9
    } else if c == 846820608 {
        10
    } else if c == 875586913 {
        11
    } else if c == 912483697 {
        12
    } else if c == 897068405 {
        13
    } else if c == 947085613 {
        14
    } else if c == 829711360 {
        15
    } else if c == 812999680 {
        16
    } else if c == 913601906 {
        17
    } else if c == 896885345 {
        18
    } else if c == 913601897 {
        19
    } else if c == 896887920 {
        20
    } else if c == 880044388 {
        21
    } else if c == 863336037 {
        22
    } else if c == 829714176 {
        23
    } else if c == 829710848 {
        24
    } else if c == 813003520 {
        25
    } else if c == 729088000 {
        26
    } else if c == 728694784 {
        27
    } else if c == 1014133356 {
        28
    } else if c == 1148351084 {
        29
    } else if c == 930426228 {
        30
    } else if c == 930377583 {
        31
    } else if c == 671088640 {
        32
    } else if c == 694419456 {
        33
    } else if c == 711917568 {
        34
    } else if c == 695468032 {
        35
    } else if c == 744816640 {
        36
    } else if c == 980710004 {
        37
    } else if c == 1131704948 {
        38
    } else if c == 930374957 {
        39
    } else if c == 1081369901 {
        40
    } else if c == 963994981 {
        41
    } else if c == 1114989925 {
        42
    } else if c == 913666932 {
        43
    } else if c == 1064661876 {
        44
    } else if c == 1114923309 {
        45
    } else if c == 1148477741 {
        46
    } else if c == 1198814068 {
        47
    } else if c == 1232368500 {
        48
    } else if c == 1081375090 {
        49
    } else if c == 1165259380 {
        50
    } else if c == 963798373 {
        51
    } else if c == 1114793317 {
        52
    } else if c == 913470324 {
        53
    } else if c == 1064465268 {
        54
    } else if c == 929920045 {
        55
    } else if c == 1080914989 {
        56
    } else if c == 879570273 {
        57
    } else if c == 1030565217 {
        58
    } else if c == 862806373 {
        59
    } else if c == 997484385 {
        60
    } else if c == 1148479329 {
        61
    } else if c == 947154035 {
        62
    } else if c == 1098148979 {
        63
    } else if c == 930378797 {
        64
    } else if c == 1081373741 {
        65
    } else if c == 880029025 {
        66
    } else if c == 1031023969 {
        67
    } else if c == 947023476 {
        68
    } else if c == 963605037 {
        69
    } else if c == 963800930 {
        70
    } else if c == 963932717 {
        71
    } else if c == 963800937 {
        72
    } else if c == 947220339 {
        73
    } else if c == 947023716 {
        74
    } else if c == 913124722 {
        75
    } else if c == 913469300 {
        76
    } else if c == 913583474 {
        77
    } else if c == 913469284 {
        78
    } else if c == 980706925 {
        79
    } else if c == 980578148 {
        80
    } else if c == 947482483 {
        81
    } else if c == 947023713 {
        82
    } else if c == 1098478185 {
        83
    } else if c == 1098018660 {
        84
    } else if c == 1130447969 {
        85
    } else if c == 1131573113 {
        86
    } else if c == 976250477 {
        87
    } else if c == 980578168 {
        88
    } else if c == 1013146994 {
        89
    } else if c == 1014132594 {
        90
    } else if c == 994127215 {
        91
    } else if c == 997355369 {
        92
    } else if c == 963867181 {
        93
    } else if c == 963800932 {
        94
    } else if c == 947020147 {
        95
    } else if c == 947478899 {
        96
    } else if c == 913466487 {
        97
    } else if c == 913925239 {
        98
    } else if c == 896691817 {
        99
    } else if c == 897150569 {
        100
    } else if c == 913465970 {
        101
    } else if c == 913924722 {
        102
    } else if c == 746127360 {
        103
    } else if c == 745275392 {
        104
    } else if c == 813267200 {
        105
    } else if c == 812415232 {
        106
    } else if c == 813263872 {
        107
    } else if c == 812411904 {
        108
    } else if c == 963798382 {
        109
    } else if c == 896690025 {
        110
    } else if c == 846343424 {
        111
    } else if c == 812803840 {
        112
    } else if c == 1131556193 {
        113
    } else {
        -1
    }
}

proof fn lemma_urn_signatures_0(k: int)
    requires
        0 <= k < 12,
    ensures
        urn_signature(XacmlFunction::spec_all()[k].spec_urn()@) == urn_signatures()[k],
        signature_position(urn_signatures()[k]) == k,
{
    if k == 0 {
        reveal_strlit("urn:oasis:names:tc:xacml:1.0:function:string-equal");
        assert(XacmlFunction::spec_all()[0].spec_urn()@.len() == 50);
        assert(XacmlFunction::spec_all()[0].spec_urn()@[40] == 'r');
        assert(XacmlFunction::spec_all()[0].spec_urn()@[47] == 'u');
    } else if k == 1 {
        reveal_strlit("urn:oasis:names:tc:xacml:1.0:function:boolean-equal");
        assert(XacmlFunction::spec_all()[1].spec_urn()@.len() == 51);
        assert(XacmlFunction::spec_all()[1].spec_urn()@[40] == 'o');
        assert(XacmlFunction::spec_all()[1].spec_urn()@[47] == 'q');
        assert(XacmlFunction::spec_all()[1].spec_urn()@[50] == 'l');
    } else if k == 2 {
        reveal_strlit("urn:oasis:names:tc:xacml:1.0:function:integer-equal");
        assert(XacmlFunction::spec_all()[2].spec_urn()@.len() == 51);
        assert(XacmlFunction::spec_all()[2].spec_urn()@[40] == 't');
        assert(XacmlFunction::spec_all()[2].spec_urn()@[47] == 'q');
        assert(XacmlFunction::spec_all()[2].spec_urn()@[50] == 'l');
    } else if k == 3 {
        reveal_strlit("urn:oasis:names:tc:xacml:1.0:function:double-equal");
        assert(XacmlFunction::spec_all()[3].spec_urn()@.len() == 50);
        assert(XacmlFunction::spec_all()[3].spec_urn()@[40] == 'u');
        assert(XacmlFunction::spec_all()[3].spec_urn()@[47] == 'u');
    } else if k == 4 {
        reveal_strlit("urn:oasis:names:tc:xacml:1.0:function:date-equal");
        assert(XacmlFunction::spec_all()[4].spec_urn()@.len() == 48);
        assert(XacmlFunction::spec_all()[4].spec_urn()@[40] == 't');
        assert(XacmlFunction::spec_all()[4].spec_urn()@[47] == 'l');
    } else if k == 5 {
        reveal_strlit("urn:oasis:names:tc:xacml:1.0:function:time-equal");
        assert(XacmlFunction::spec_all()[5].spec_urn()@.len() == 48);
        assert(XacmlFunction::spec_all()[5].spec_urn()@[40] == 'm');
        assert(XacmlFunction::spec_all()[5].spec_urn()@[47] == 'l');
    } else if k == 6 {
        reveal_strlit("urn:oasis:names:tc:xacml:1.0:function:dateTime-equal");
        assert(XacmlFunction::spec_all()[6].spec_urn()@.len() == 52);
        assert(XacmlFunction::spec_all()[6].spec_urn()@[40] == 't');
        assert(XacmlFunction::spec_all()[6].spec_urn()@[47] == 'e');
        assert(XacmlFunction::spec_all()[6].spec_urn()@[50] == 'a');
    } else if k == 7 {
        reveal_strlit("urn:oasis:names:tc:xacml:3.0:function:dayTimeDuration-equal");
        assert(XacmlFunction::spec_all()[7].spec_urn()@.len() == 59);
        assert(XacmlFunction::spec_all()[7].spec_urn()@[40] == 'y');
        assert(XacmlFunction::spec_all()[7].spec_urn()@[47] == 'r');
        assert(XacmlFunction::spec_all()[7].spec_urn()@[50] == 'i');
    } else if k == 8 {
        reveal_strlit("urn:oasis:names:tc:xacml:3.0:function:yearMonthDuration-equal");
        assert(XacmlFunction::spec_all()[8].spec_urn()@.len() == 61);
        assert(XacmlFunction::spec_all()[8].spec_urn()@[40] == 'a');
        assert(XacmlFunction::spec_all()[8].spec_urn()@[47] == 'D');
        assert(XacmlFunction::spec_all()[8].spec_urn()@[50] == 'a');
    } else if k == 9 {
        reveal_strlit("urn:oasis:names:tc:xacml:1.0:function:string-equal-ignore-case");
        assert(XacmlFunction::spec_all()[9].spec_urn()@.len() == 62);
        assert(XacmlFunction::spec_all()[9].spec_urn()@[40] == 'r');
        assert(XacmlFunction::spec_all()[9].spec_urn()@[47] == 'u');
        assert(XacmlFunction::spec_all()[9].spec_urn()@[50] == '-');
    } else if k == 10 {
        reveal_strlit("urn:oasis:names:tc:xacml:1.0:function:anyURI-equal");
        assert(XacmlFunction::spec_all()[10].spec_urn()@.len() == 50);
        assert(XacmlFunction::spec_all()[10].spec_urn()@[40] == 'y');
        assert(XacmlFunction::spec_all()[10].spec_urn()@[47] == 'u');
    } else if k == 11 {
        reveal_strlit("urn:oasis:names:tc:xacml:1.0:function:x500Name-equal");
        assert(XacmlFunction::spec_all()[11].spec_urn()@.len() == 52);
        assert(XacmlFunction::spec_all()[11].spec_urn()@[40] == '0');
        assert(XacmlFunction::spec_all()[11].spec_urn()@[47] == 'e');
        assert(XacmlFunction::spec_all()[11].spec_urn()@[50] == 'a');
    }
}

proof fn lemma_urn_signatures_12(k: int)
    requires
        12 <= k < 24,
    ensures
        urn_signature(XacmlFunction::spec_all()[k].spec_urn()@) == urn_signatures()[k],
        signature_position(urn_signatures()[k]) == k,
{
    if k == 12 {
        reveal_strlit("urn:oasis:names:tc:xacml:1.0:function:rfc822Name-equal");
        assert(XacmlFunction::spec_all()[12].spec_urn()@.len() == 54);
        assert(XacmlFunction::spec_all()[12].spec_urn()@[40] == 'c');
        assert(XacmlFunction::spec_all()[12].spec_urn()@[47] == 'e');
        assert(XacmlFunction::spec_all()[12].spec_urn()@[50] == 'q');
    } else if k == 13 {
        reveal_strlit("urn:oasis:names:tc:xacml:1.0:function:hexBinary-equal");
        assert(XacmlFunction::spec_all()[13].spec_urn()@.len() == 53);
        assert(XacmlFunction::spec_all()[13].spec_urn()@[40] == 'x');
        assert(XacmlFunction::spec_all()[13].spec_urn()@[47] == '-');
        assert(XacmlFunction::spec_all()[13].spec_urn()@[50] == 'u');
    } else if k == 14 {
        reveal_strlit("urn:oasis:names:tc:xacml:1.0:function:base64Binary-equal");
        assert(XacmlFunction::spec_all()[14].spec_urn()@.len() == 56);
        assert(XacmlFunction::spec_all()[14].spec_urn()@[40] == 's');
        assert(XacmlFunction::spec_all()[14].spec_urn()@[47] == 'a');
        assert(XacmlFunction::spec_all()[14].spec_urn()@[50] == '-');
    } else if k == 15 {
        reveal_strlit("urn:oasis:names:tc:xacml:1.0:function:integer-add");
        assert(XacmlFunction::spec_all()[15].spec_urn()@.len() == 49);
        assert(XacmlFunction::spec_all()[15].spec_urn()@[40] == 't');
        assert(XacmlFunction::spec_all()[15].spec_urn()@[47] == 'd');
    } else if k == 16 {
        reveal_strlit("urn:oasis:names:tc:xacml:1.0:function:double-add");
        assert(XacmlFunction::spec_all()[16].spec_urn()@.len() == 48);
        assert(XacmlFunction::spec_all()[16].spec_urn()@[40] == 'u');
        assert(XacmlFunction::spec_all()[16].spec_urn()@[47] == 'd');
    } else if k == 17 {
        reveal_strlit("urn:oasis:names:tc:xacml:1.0:function:integer-subtract");
        assert(XacmlFunction::spec_all()[17].spec_urn()@.len() == 54);
        assert(XacmlFunction::spec_all()[17].spec_urn()@[40] == 't');
        assert(XacmlFunction::spec_all()[17].spec_urn()@[47] == 'u');
        assert(XacmlFunction::spec_all()[17].spec_urn()@[50] == 'r');
    } else if k == 18 {
        reveal_strlit("urn:oasis:names:tc:xacml:1.0:function:double-subtract");
        assert(XacmlFunction::spec_all()[18].spec_urn()@.len() == 53);
        assert(XacmlFunction::spec_all()[18].spec_urn()@[40] == 'u');
        assert(XacmlFunction::spec_all()[18].spec_urn()@[47] == 'b');
        assert(XacmlFunction::spec_all()[18].spec_urn()@[50] == 'a');
    } else if k == 19 {
        reveal_strlit("urn:oasis:names:tc:xacml:1.0:function:integer-multiply");
        assert(XacmlFunction::spec_all()[19].spec_urn()@.len() == 54);
        assert(XacmlFunction::spec_all()[19].spec_urn()@[40] == 't');
        assert(XacmlFunction::spec_all()[19].spec_urn()@[47] == 'u');
        assert(XacmlFunction::spec_all()[19].spec_urn()@[50] == 'i');
    } else if k == 20 {
        reveal_strlit("urn:oasis:names:tc:xacml:1.0:function:double-multiply");
        assert(XacmlFunction::spec_all()[20].spec_urn()@.len() == 53);
        assert(XacmlFunction::spec_all()[20].spec_urn()@[40] == 'u');
        assert(XacmlFunction::spec_all()[20].spec_urn()@[47] == 'l');
        assert(XacmlFunction::spec_all()[20].spec_urn()@[50] == 'p');
    } else if k == 21 {
        reveal_strlit("urn:oasis:names:tc:xacml:1.0:function:integer-divide");
        assert(XacmlFunction::spec_all()[21].spec_urn()@.len() == 52);
        assert(XacmlFunction::spec_all()[21].spec_urn()@[40] == 't');
        assert(XacmlFunction::spec_all()[21].spec_urn()@[47] == 'i');
        assert(XacmlFunction::spec_all()[21].spec_urn()@[50] == 'd');
    } else if k == 22 {
        reveal_strlit("urn:oasis:names:tc:xacml:1.0:function:double-divide");
        assert(XacmlFunction::spec_all()[22].spec_urn()@.len() == 51);
        assert(XacmlFunction::spec_all()[22].spec_urn()@[40] == 'u');
        assert(XacmlFunction::spec_all()[22].spec_urn()@[47] == 'v');
        assert(XacmlFunction::spec_all()[22].spec_urn()@[50] == 'e');
    } else if k == 23 {
        reveal_strlit("urn:oasis:names:tc:xacml:1.0:function:integer-mod");
        assert(XacmlFunction::spec_all()[23].spec_urn()@.len() == 49);
        assert(XacmlFunction::spec_all()[23].spec_urn()@[40] == 't');
        assert(XacmlFunction::spec_all()[23].spec_urn()@[47] == 'o');
    }
}

proof fn lemma_urn_signatures_24(k: int)
    requires
        24 <= k < 36,
    ensures
        urn_signature(XacmlFunction::spec_all()[k].spec_urn()@) == urn_signatures()[k],
        signature_position(urn_signatures()[k]) == k,
{
    if k == 24 {
        reveal_strlit("urn:oasis:names:tc:xacml:1.0:function:integer-abs");
        assert(XacmlFunction::spec_all()[24].spec_urn()@.len() == 49);
        assert(XacmlFunction::spec_all()[24].spec_urn()@[40] == 't');
        assert(XacmlFunction::spec_all()[24].spec_urn()@[47] == 'b');
    } else if k == 25 {
        reveal_strlit("urn:oasis:names:tc:xacml:1.0:function:double-abs");
        assert(XacmlFunction::spec_all()[25].spec_urn()@.len() == 48);
        assert(XacmlFunction::spec_all()[25].spec_urn()@[40] == 'u');
        assert(XacmlFunction::spec_all()[25].spec_urn()@[47] == 's');
    } else if k == 26 {
        reveal_strlit("urn:oasis:names:tc:xacml:1.0:function:round");
        assert(XacmlFunction::spec_all()[26].spec_urn()@.len() == 43);
        assert(XacmlFunction::spec_all()[26].spec_urn()@[40] == 'u');
    } else if k == 27 {
        reveal_strlit("urn:oasis:names:tc:xacml:1.0:function:floor");
        assert(XacmlFunction::spec_all()[27].spec_urn()@.len() == 43);
        assert(XacmlFunction::spec_all()[27].spec_urn()@[40] == 'o');
    } else if k == 28 {
        reveal_strlit("urn:oasis:names:tc:xacml:1.0:function:string-normalize-space");
        assert(XacmlFunction::spec_all()[28].spec_urn()@.len() == 60);
        assert(XacmlFunction::spec_all()[28].spec_urn()@[40] == 'r');
        assert(XacmlFunction::spec_all()[28].spec_urn()@[47] == 'r');
        assert(XacmlFunction::spec_all()[28].spec_urn()@[50] == 'l');
    } else if k == 29 {
        reveal_strlit("urn:oasis:names:tc:xacml:1.0:function:string-normalize-to-lower-case");
        assert(XacmlFunction::spec_all()[29].spec_urn()@.len() == 68);
        assert(XacmlFunction::spec_all()[29].spec_urn()@[40] == 'r');
        assert(XacmlFunction::spec_all()[29].spec_urn()@[47] == 'r');
        assert(XacmlFunction::spec_all()[29].spec_urn()@[50] == 'l');
    } else if k == 30 {
        reveal_strlit("urn:oasis:names:tc:xacml:1.0:function:double-to-integer");
        assert(XacmlFunction::spec_all()[30].spec_urn()@.len() == 55);
        assert(XacmlFunction::spec_all()[30].spec_urn()@[40] == 'u');
        assert(XacmlFunction::spec_all()[30].spec_urn()@[47] == '-');
        assert(XacmlFunction::spec_all()[30].spec_urn()@[50] == 't');
    } else if k == 31 {
        reveal_strlit("urn:oasis:names:tc:xacml:1.0:function:integer-to-double");
        assert(XacmlFunction::spec_all()[31].spec_urn()@.len() == 55);
        assert(XacmlFunction::spec_all()[31].spec_urn()@[40] == 't');
        assert(XacmlFunction::spec_all()[31].spec_urn()@[47] == 'o');
        assert(XacmlFunction::spec_all()[31].spec_urn()@[50] == 'o');
    } else if k == 32 {
        reveal_strlit("urn:oasis:names:tc:xacml:1.0:function:or");
        assert(XacmlFunction::spec_all()[32].spec_urn()@.len() == 40);
    } else if k == 33 {
        reveal_strlit("urn:oasis:names:tc:xacml:1.0:function:and");
        assert(XacmlFunction::spec_all()[33].spec_urn()@.len() == 41);
        assert(XacmlFunction::spec_all()[33].spec_urn()@[40] == 'd');
    } else if k == 34 {
        reveal_strlit("urn:oasis:names:tc:xacml:1.0:function:n-of");
        assert(XacmlFunction::spec_all()[34].spec_urn()@.len() == 42);
        assert(XacmlFunction::spec_all()[34].spec_urn()@[40] == 'o');
    } else if k == 35 {
        reveal_strlit("urn:oasis:names:tc:xacml:1.0:function:not");
        assert(XacmlFunction::spec_all()[35].spec_urn()@.len() == 41);
        assert(XacmlFunction::spec_all()[35].spec_urn()@[40] == 't');
    }
}

proof fn lemma_urn_signatures_36(k: int)
    requires
        36 <= k < 48,
    ensures
        urn_signature(XacmlFunction::spec_all()[k].spec_urn()@) == urn_signatures()[k],
        signature_position(urn_signatures()[k]) == k,
{
    if k == 36 {
        reveal_strlit("urn:oasis:names:tc:xacml:1.0:function:ifelse");
        assert(XacmlFunction::spec_all()[36].spec_urn()@.len() == 44);
        assert(XacmlFunction::spec_all()[36].spec_urn()@[40] == 'e');
    } else if k == 37 {
        reveal_strlit("urn:oasis:names:tc:xacml:1.0:function:integer-greater-than");
        assert(XacmlFunction::spec_all()[37].spec_urn()@.len() == 58);
        assert(XacmlFunction::spec_all()[37].spec_urn()@[40] == 't');
        assert(XacmlFunction::spec_all()[37].spec_urn()@[47] == 'r');
        assert(XacmlFunction::spec_all()[37].spec_urn()@[50] == 't');
    } else if k == 38 {
        reveal_strlit("urn:oasis:names:tc:xacml:1.0:function:integer-greater-than-or-equal");
        assert(XacmlFunction::spec_all()[38].spec_urn()@.len() == 67);
        assert(XacmlFunction::spec_all()[38].spec_urn()@[40] == 't');
        assert(XacmlFunction::spec_all()[38].spec_urn()@[47] == 'r');
        assert(XacmlFunction::spec_all()[38].spec_urn()@[50] == 't');
    } else if k == 39 {
        reveal_strlit("urn:oasis:names:tc:xacml:1.0:function:integer-less-than");
        assert(XacmlFunction::spec_all()[39].spec_urn()@.len() == 55);
        assert(XacmlFunction::spec_all()[39].spec_urn()@[40] == 't');
        assert(XacmlFunction::spec_all()[39].spec_urn()@[47] == 'e');
        assert(XacmlFunction::spec_all()[39].spec_urn()@[50] == '-');
    } else if k == 40 {
        reveal_strlit("urn:oasis:names:tc:xacml:1.0:function:integer-less-than-or-equal");
        assert(XacmlFunction::spec_all()[40].spec_urn()@.len() == 64);
        assert(XacmlFunction::spec_all()[40].spec_urn()@[40] == 't');
        assert(XacmlFunction::spec_all()[40].spec_urn()@[47] == 'e');
        assert(XacmlFunction::spec_all()[40].spec_urn()@[50] == '-');
    } else if k == 41 {
        reveal_strlit("urn:oasis:names:tc:xacml:1.0:function:double-greater-than");
        assert(XacmlFunction::spec_all()[41].spec_urn()@.len() == 57);
        assert(XacmlFunction::spec_all()[41].spec_urn()@[40] == 'u');
        assert(XacmlFunction::spec_all()[41].spec_urn()@[47] == 'e');
        assert(XacmlFunction::spec_all()[41].spec_urn()@[50] == 'e');
    } else if k == 42 {
        reveal_strlit("urn:oasis:names:tc:xacml:1.0:function:double-greater-than-or-equal");
        assert(XacmlFunction::spec_all()[42].spec_urn()@.len() == 66);
        assert(XacmlFunction::spec_all()[42].spec_urn()@[40] == 'u');
        assert(XacmlFunction::spec_all()[42].spec_urn()@[47] == 'e');
        assert(XacmlFunction::spec_all()[42].spec_urn()@[50] == 'e');
    } else if k == 43 {
        reveal_strlit("urn:oasis:names:tc:xacml:1.0:function:double-less-than");
        assert(XacmlFunction::spec_all()[43].spec_urn()@.len() == 54);
        assert(XacmlFunction::spec_all()[43].spec_urn()@[40] == 'u');
        assert(XacmlFunction::spec_all()[43].spec_urn()@[47] == 's');
        assert(XacmlFunction::spec_all()[43].spec_urn()@[50] == 't');
    } else if k == 44 {
        reveal_strlit("urn:oasis:names:tc:xacml:1.0:function:double-less-than-or-equal");
        assert(XacmlFunction::spec_all()[44].spec_urn()@.len() == 63);
        assert(XacmlFunction::spec_all()[44].spec_urn()@[40] == 'u');
        assert(XacmlFunction::spec_all()[44].spec_urn()@[47] == 's');
        assert(XacmlFunction::spec_all()[44].spec_urn()@[50] == 't');
    } else if k == 45 {
        reveal_strlit("urn:oasis:names:tc:xacml:3.0:function:dateTime-add-dayTimeDuration");
        assert(XacmlFunction::spec_all()[45].spec_urn()@.len() == 66);
        assert(XacmlFunction::spec_all()[45].spec_urn()@[40] == 't');
        assert(XacmlFunction::spec_all()[45].spec_urn()@[47] == 'a');
        assert(XacmlFunction::spec_all()[45].spec_urn()@[50] == '-');
    } else if k == 46 {
        reveal_strlit("urn:oasis:names:tc:xacml:3.0:function:dateTime-add-yearMonthDuration");
        assert(XacmlFunction::spec_all()[46].spec_urn()@.len() == 68);
        assert(XacmlFunction::spec_all()[46].spec_urn()@[40] == 't');
        assert(XacmlFunction::spec_all()[46].spec_urn()@[47] == 'a');
        assert(XacmlFunction::spec_all()[46].spec_urn()@[50] == '-');
    } else if k == 47 {
        reveal_strlit("urn:oasis:names:tc:xacml:3.0:function:dateTime-subtract-dayTimeDuration");
        assert(XacmlFunction::spec_all()[47].spec_urn()@.len() == 71);
        assert(XacmlFunction::spec_all()[47].spec_urn()@[40] == 't');
        assert(XacmlFunction::spec_all()[47].spec_urn()@[47] == 's');
        assert(XacmlFunction::spec_all()[47].spec_urn()@[50] == 't');
    }
}

proof fn lemma_urn_signatures_48(k: int)
    requires
        48 <= k < 60,
    ensures
        urn_signature(XacmlFunction::spec_all()[k].spec_urn()@) == urn_signatures()[k],
        signature_position(urn_signatures()[k]) == k,
{
    if k == 48 {
        reveal_strlit("urn:oasis:names:tc:xacml:3.0:function:dateTime-subtract-yearMonthDuration");
        assert(XacmlFunction::spec_all()[48].spec_urn()@.len() == 73);
        assert(XacmlFunction::spec_all()[48].spec_urn()@[40] == 't');
        assert(XacmlFunction::spec_all()[48].spec_urn()@[47] == 's');
        assert(XacmlFunction::spec_all()[48].spec_urn()@[50] == 't');
    } else if k == 49 {
        reveal_strlit("urn:oasis:names:tc:xacml:3.0:function:date-add-yearMonthDuration");
        assert(XacmlFunction::spec_all()[49].spec_urn()@.len() == 64);
        assert(XacmlFunction::spec_all()[49].spec_urn()@[40] == 't');
        assert(XacmlFunction::spec_all()[49].spec_urn()@[47] == 'y');
        assert(XacmlFunction::spec_all()[49].spec_urn()@[50] == 'r');
    } else if k == 50 {
        reveal_strlit("urn:oasis:names:tc:xacml:3.0:function:date-subtract-yearMonthDuration");
        assert(XacmlFunction::spec_all()[50].spec_urn()@.len() == 69);
        assert(XacmlFunction::spec_all()[50].spec_urn()@[40] == 't');
        assert(XacmlFunction::spec_all()[50].spec_urn()@[47] == 'r');
        assert(XacmlFunction::spec_all()[50].spec_urn()@[50] == 't');
    } else if k == 51 {
        reveal_strlit("urn:oasis:names:tc:xacml:1.0:function:string-greater-than");
        assert(XacmlFunction::spec_all()[51].spec_urn()@.len() == 57);
        assert(XacmlFunction::spec_all()[51].spec_urn()@[40] == 'r');
        assert(XacmlFunction::spec_all()[51].spec_urn()@[47] == 'e');
        assert(XacmlFunction::spec_all()[51].spec_urn()@[50] == 'e');
    } else if k == 52 {
        reveal_strlit("urn:oasis:names:tc:xacml:1.0:function:string-greater-than-or-equal");
        assert(XacmlFunction::spec_all()[52].spec_urn()@.len() == 66);
        assert(XacmlFunction::spec_all()[52].spec_urn()@[40] == 'r');
        assert(XacmlFunction::spec_all()[52].spec_urn()@[47] == 'e');
        assert(XacmlFunction::spec_all()[52].spec_urn()@[50] == 'e');
    } else if k == 53 {
        reveal_strlit("urn:oasis:names:tc:xacml:1.0:function:string-less-than");
        assert(XacmlFunction::spec_all()[53].spec_urn()@.len() == 54);
        assert(XacmlFunction::spec_all()[53].spec_urn()@[40] == 'r');
        assert(XacmlFunction::spec_all()[53].spec_urn()@[47] == 's');
        assert(XacmlFunction::spec_all()[53].spec_urn()@[50] == 't');
    } else if k == 54 {
        reveal_strlit("urn:oasis:names:tc:xacml:1.0:function:string-less-than-or-equal");
        assert(XacmlFunction::spec_all()[54].spec_urn()@.len() == 63);
        assert(XacmlFunction::spec_all()[54].spec_urn()@[40] == 'r');
        assert(XacmlFunction::spec_all()[54].spec_urn()@[47] == 's');
        assert(XacmlFunction::spec_all()[54].spec_urn()@[50] == 't');
    } else if k == 55 {
        reveal_strlit("urn:oasis:names:tc:xacml:1.0:function:time-greater-than");
        assert(XacmlFunction::spec_all()[55].spec_urn()@.len() == 55);
        assert(XacmlFunction::spec_all()[55].spec_urn()@[40] == 'm');
        assert(XacmlFunction::spec_all()[55].spec_urn()@[47] == 't');
        assert(XacmlFunction::spec_all()[55].spec_urn()@[50] == '-');
    } else if k == 56 {
        reveal_strlit("urn:oasis:names:tc:xacml:1.0:function:time-greater-than-or-equal");
        assert(XacmlFunction::spec_all()[56].spec_urn()@.len() == 64);
        assert(XacmlFunction::spec_all()[56].spec_urn()@[40] == 'm');
        assert(XacmlFunction::spec_all()[56].spec_urn()@[47] == 't');
        assert(XacmlFunction::spec_all()[56].spec_urn()@[50] == '-');
    } else if k == 57 {
        reveal_strlit("urn:oasis:names:tc:xacml:1.0:function:time-less-than");
        assert(XacmlFunction::spec_all()[57].spec_urn()@.len() == 52);
        assert(XacmlFunction::spec_all()[57].spec_urn()@[40] == 'm');
        assert(XacmlFunction::spec_all()[57].spec_urn()@[47] == '-');
        assert(XacmlFunction::spec_all()[57].spec_urn()@[50] == 'a');
    } else if k == 58 {
        reveal_strlit("urn:oasis:names:tc:xacml:1.0:function:time-less-than-or-equal");
        assert(XacmlFunction::spec_all()[58].spec_urn()@.len() == 61);
        assert(XacmlFunction::spec_all()[58].spec_urn()@[40] == 'm');
        assert(XacmlFunction::spec_all()[58].spec_urn()@[47] == '-');
        assert(XacmlFunction::spec_all()[58].spec_urn()@[50] == 'a');
    } else if k == 59 {
        reveal_strlit("urn:oasis:names:tc:xacml:2.0:function:time-in-range");
        assert(XacmlFunction::spec_all()[59].spec_urn()@.len() == 51);
        assert(XacmlFunction::spec_all()[59].spec_urn()@[40] == 'm');
        assert(XacmlFunction::spec_all()[59].spec_urn()@[47] == 'a');
        assert(XacmlFunction::spec_all()[59].spec_urn()@[50] == 'e');
    }
}

proof fn lemma_urn_signatures_60(k: int)
    requires
        60 <= k < 72,
    ensures
        urn_signature(XacmlFunction::spec_all()[k].spec_urn()@) == urn_signatures()[k],
        signature_position(urn_signatures()[k]) == k,
{
    if k == 60 {
        reveal_strlit("urn:oasis:names:tc:xacml:1.0:function:dateTime-greater-than");
        assert(XacmlFunction::spec_all()[60].spec_urn()@.len() == 59);
        assert(XacmlFunction::spec_all()[60].spec_urn()@[40] == 't');
        assert(XacmlFunction::spec_all()[60].spec_urn()@[47] == 'g');
        assert(XacmlFunction::spec_all()[60].spec_urn()@[50] == 'a');
    } else if k == 61 {
        reveal_strlit("urn:oasis:names:tc:xacml:1.0:function:dateTime-greater-than-or-equal");
        assert(XacmlFunction::spec_all()[61].spec_urn()@.len() == 68);
        assert(XacmlFunction::spec_all()[61].spec_urn()@[40] == 't');
        assert(XacmlFunction::spec_all()[61].spec_urn()@[47] == 'g');
        assert(XacmlFunction::spec_all()[61].spec_urn()@[50] == 'a');
    } else if k == 62 {
        reveal_strlit("urn:oasis:names:tc:xacml:1.0:function:dateTime-less-than");
        assert(XacmlFunction::spec_all()[62].spec_urn()@.len() == 56);
        assert(XacmlFunction::spec_all()[62].spec_urn()@[40] == 't');
        assert(XacmlFunction::spec_all()[62].spec_urn()@[47] == 'l');
        assert(XacmlFunction::spec_all()[62].spec_urn()@[50] == 's');
    } else if k == 63 {
        reveal_strlit("urn:oasis:names:tc:xacml:1.0:function:dateTime-less-than-or-equal");
        assert(XacmlFunction::spec_all()[63].spec_urn()@.len() == 65);
        assert(XacmlFunction::spec_all()[63].spec_urn()@[40] == 't');
        assert(XacmlFunction::spec_all()[63].spec_urn()@[47] == 'l');
        assert(XacmlFunction::spec_all()[63].spec_urn()@[50] == 's');
    } else if k == 64 {
        reveal_strlit("urn:oasis:names:tc:xacml:1.0:function:date-greater-than");
        assert(XacmlFunction::spec_all()[64].spec_urn()@.len() == 55);
        assert(XacmlFunction::spec_all()[64].spec_urn()@[40] == 't');
        assert(XacmlFunction::spec_all()[64].spec_urn()@[47] == 't');
        assert(XacmlFunction::spec_all()[64].spec_urn()@[50] == '-');
    } else if k == 65 {
        reveal_strlit("urn:oasis:names:tc:xacml:1.0:function:date-greater-than-or-equal");
        assert(XacmlFunction::spec_all()[65].spec_urn()@.len() == 64);
        assert(XacmlFunction::spec_all()[65].spec_urn()@[40] == 't');
        assert(XacmlFunction::spec_all()[65].spec_urn()@[47] == 't');
        assert(XacmlFunction::spec_all()[65].spec_urn()@[50] == '-');
    } else if k == 66 {
        reveal_strlit("urn:oasis:names:tc:xacml:1.0:function:date-less-than");
        assert(XacmlFunction::spec_all()[66].spec_urn()@.len() == 52);
        assert(XacmlFunction::spec_all()[66].spec_urn()@[40] == 't');
        assert(XacmlFunction::spec_all()[66].spec_urn()@[47] == '-');
        assert(XacmlFunction::spec_all()[66].spec_urn()@[50] == 'a');
    } else if k == 67 {
        reveal_strlit("urn:oasis:names:tc:xacml:1.0:function:date-less-than-or-equal");
        assert(XacmlFunction::spec_all()[67].spec_urn()@.len() == 61);
        assert(XacmlFunction::spec_all()[67].spec_urn()@[40] == 't');
        assert(XacmlFunction::spec_all()[67].spec_urn()@[47] == '-');
        assert(XacmlFunction::spec_all()[67].spec_urn()@[50] == 'a');
    } else if k == 68 {
        reveal_strlit("urn:oasis:names:tc:xacml:2.0:function:string-concatenate");
        assert(XacmlFunction::spec_all()[68].spec_urn()@.len() == 56);
        assert(XacmlFunction::spec_all()[68].spec_urn()@[40] == 'r');
        assert(XacmlFunction::spec_all()[68].spec_urn()@[47] == 'n');
        assert(XacmlFunction::spec_all()[68].spec_urn()@[50] == 't');
    } else if k == 69 {
        reveal_strlit("urn:oasis:names:tc:xacml:3.0:function:boolean-from-string");
        assert(XacmlFunction::spec_all()[69].spec_urn()@.len() == 57);
        assert(XacmlFunction::spec_all()[69].spec_urn()@[40] == 'o');
        assert(XacmlFunction::spec_all()[69].spec_urn()@[47] == 'r');
        assert(XacmlFunction::spec_all()[69].spec_urn()@[50] == '-');
    } else if k == 70 {
        reveal_strlit("urn:oasis:names:tc:xacml:3.0:function:string-from-boolean");
        assert(XacmlFunction::spec_all()[70].spec_urn()@.len() == 57);
        assert(XacmlFunction::spec_all()[70].spec_urn()@[40] == 'r');
        assert(XacmlFunction::spec_all()[70].spec_urn()@[47] == 'o');
        assert(XacmlFunction::spec_all()[70].spec_urn()@[50] == 'b');
    } else if k == 71 {
        reveal_strlit("urn:oasis:names:tc:xacml:3.0:function:integer-from-string");
        assert(XacmlFunction::spec_all()[71].spec_urn()@.len() == 57);
        assert(XacmlFunction::spec_all()[71].spec_urn()@[40] == 't');
        assert(XacmlFunction::spec_all()[71].spec_urn()@[47] == 'r');
        assert(XacmlFunction::spec_all()[71].spec_urn()@[50] == '-');
    }
}

proof fn lemma_urn_signatures_72(k: int)
    requires
        72 <= k < 84,
    ensures
        urn_signature(XacmlFunction::spec_all()[k].spec_urn()@) == urn_signatures()[k],
        signature_position(urn_signatures()[k]) == k,
{
    if k == 72 {
        reveal_strlit("urn:oasis:names:tc:xacml:3.0:function:string-from-integer");
        assert(XacmlFunction::spec_all()[72].spec_urn()@.len() == 57);
        assert(XacmlFunction::spec_all()[72].spec_urn()@[40] == 'r');
        assert(XacmlFunction::spec_all()[72].spec_urn()@[47] == 'o');
        assert(XacmlFunction::spec_all()[72].spec_urn()@[50] == 'i');
    } else if k == 73 {
        reveal_strlit("urn:oasis:names:tc:xacml:3.0:function:double-from-string");
        assert(XacmlFunction::spec_all()[73].spec_urn()@.len() == 56);
        assert(XacmlFunction::spec_all()[73].spec_urn()@[40] == 'u');
        assert(XacmlFunction::spec_all()[73].spec_urn()@[47] == 'o');
        assert(XacmlFunction::spec_all()[73].spec_urn()@[50] == 's');
    } else if k == 74 {
        reveal_strlit("urn:oasis:names:tc:xacml:3.0:function:string-from-double");
        assert(XacmlFunction::spec_all()[74].spec_urn()@.len() == 56);
        assert(XacmlFunction::spec_all()[74].spec_urn()@[40] == 'r');
        assert(XacmlFunction::spec_all()[74].spec_urn()@[47] == 'o');
        assert(XacmlFunction::spec_all()[74].spec_urn()@[50] == 'd');
    } else if k == 75 {
        reveal_strlit("urn:oasis:names:tc:xacml:3.0:function:time-from-string");
        assert(XacmlFunction::spec_all()[75].spec_urn()@.len() == 54);
        assert(XacmlFunction::spec_all()[75].spec_urn()@[40] == 'm');
        assert(XacmlFunction::spec_all()[75].spec_urn()@[47] == '-');
        assert(XacmlFunction::spec_all()[75].spec_urn()@[50] == 'r');
    } else if k == 76 {
        reveal_strlit("urn:oasis:names:tc:xacml:3.0:function:string-from-time");
        assert(XacmlFunction::spec_all()[76].spec_urn()@.len() == 54);
        assert(XacmlFunction::spec_all()[76].spec_urn()@[40] == 'r');
        assert(XacmlFunction::spec_all()[76].spec_urn()@[47] == 'o');
        assert(XacmlFunction::spec_all()[76].spec_urn()@[50] == 't');
    } else if k == 77 {
        reveal_strlit("urn:oasis:names:tc:xacml:3.0:function:date-from-string");
        assert(XacmlFunction::spec_all()[77].spec_urn()@.len() == 54);
        assert(XacmlFunction::spec_all()[77].spec_urn()@[40] == 't');
        assert(XacmlFunction::spec_all()[77].spec_urn()@[47] == '-');
        assert(XacmlFunction::spec_all()[77].spec_urn()@[50] == 'r');
    } else if k == 78 {
        reveal_strlit("urn:oasis:names:tc:xacml:3.0:function:string-from-date");
        assert(XacmlFunction::spec_all()[78].spec_urn()@.len() == 54);
        assert(XacmlFunction::spec_all()[78].spec_urn()@[40] == 'r');
        assert(XacmlFunction::spec_all()[78].spec_urn()@[47] == 'o');
        assert(XacmlFunction::spec_all()[78].spec_urn()@[50] == 'd');
    } else if k == 79 {
        reveal_strlit("urn:oasis:names:tc:xacml:3.0:function:dateTime-from-string");
        assert(XacmlFunction::spec_all()[79].spec_urn()@.len() == 58);
        assert(XacmlFunction::spec_all()[79].spec_urn()@[40] == 't');
        assert(XacmlFunction::spec_all()[79].spec_urn()@[47] == 'f');
        assert(XacmlFunction::spec_all()[79].spec_urn()@[50] == 'm');
    } else if k == 80 {
        reveal_strlit("urn:oasis:names:tc:xacml:3.0:function:string-from-dateTime");
        assert(XacmlFunction::spec_all()[80].spec_urn()@.len() == 58);
        assert(XacmlFunction::spec_all()[80].spec_urn()@[40] == 'r');
        assert(XacmlFunction::spec_all()[80].spec_urn()@[47] == 'o');
        assert(XacmlFunction::spec_all()[80].spec_urn()@[50] == 'd');
    } else if k == 81 {
        reveal_strlit("urn:oasis:names:tc:xacml:3.0:function:anyURI-from-string");
        assert(XacmlFunction::spec_all()[81].spec_urn()@.len() == 56);
        assert(XacmlFunction::spec_all()[81].spec_urn()@[40] == 'y');
        assert(XacmlFunction::spec_all()[81].spec_urn()@[47] == 'o');
        assert(XacmlFunction::spec_all()[81].spec_urn()@[50] == 's');
    } else if k == 82 {
        reveal_strlit("urn:oasis:names:tc:xacml:3.0:function:string-from-anyURI");
        assert(XacmlFunction::spec_all()[82].spec_urn()@.len() == 56);
        assert(XacmlFunction::spec_all()[82].spec_urn()@[40] == 'r');
        assert(XacmlFunction::spec_all()[82].spec_urn()@[47] == 'o');
        assert(XacmlFunction::spec_all()[82].spec_urn()@[50] == 'a');
    } else if k == 83 {
        reveal_strlit("urn:oasis:names:tc:xacml:3.0:function:dayTimeDuration-from-string");
        assert(XacmlFunction::spec_all()[83].spec_urn()@.len() == 65);
        assert(XacmlFunction::spec_all()[83].spec_urn()@[40] == 'y');
        assert(XacmlFunction::spec_all()[83].spec_urn()@[47] == 'r');
        assert(XacmlFunction::spec_all()[83].spec_urn()@[50] == 'i');
    }
}

proof fn lemma_urn_signatures_84(k: int)
    requires
        84 <= k < 96,
    ensures
        urn_signature(XacmlFunction::spec_all()[k].spec_urn()@) == urn_signatures()[k],
        signature_position(urn_signatures()[k]) == k,
{
    if k == 84 {
        reveal_strlit("urn:oasis:names:tc:xacml:3.0:function:string-from-dayTimeDuration");
        assert(XacmlFunction::spec_all()[84].spec_urn()@.len() == 65);
        assert(XacmlFunction::spec_all()[84].spec_urn()@[40] == 'r');
        assert(XacmlFunction::spec_all()[84].spec_urn()@[47] == 'o');
        assert(XacmlFunction::spec_all()[84].spec_urn()@[50] == 'd');
    } else if k == 85 {
        reveal_strlit("urn:oasis:names:tc:xacml:3.0:function:yearMonthDuration-from-string");
        assert(XacmlFunction::spec_all()[85].spec_urn()@.len() == 67);
        assert(XacmlFunction::spec_all()[85].spec_urn()@[40] == 'a');
        assert(XacmlFunction::spec_all()[85].spec_urn()@[47] == 'D');
        assert(XacmlFunction::spec_all()[85].spec_urn()@[50] == 'a');
    } else if k == 86 {
        reveal_strlit("urn:oasis:names:tc:xacml:3.0:function:string-from-yearMonthDuration");
        assert(XacmlFunction::spec_all()[86].spec_urn()@.len() == 67);
        assert(XacmlFunction::spec_all()[86].spec_urn()@[40] == 'r');
        assert(XacmlFunction::spec_all()[86].spec_urn()@[47] == 'o');
        assert(XacmlFunction::spec_all()[86].spec_urn()@[50] == 'y');
    } else if k == 87 {
        reveal_strlit("urn:oasis:names:tc:xacml:3.0:function:x500Name-from-string");
        assert(XacmlFunction::spec_all()[87].spec_urn()@.len() == 58);
        assert(XacmlFunction::spec_all()[87].spec_urn()@[40] == '0');
        assert(XacmlFunction::spec_all()[87].spec_urn()@[47] == 'f');
        assert(XacmlFunction::spec_all()[87].spec_urn()@[50] == 'm');
    } else if k == 88 {
        reveal_strlit("urn:oasis:names:tc:xacml:3.0:function:string-from-x500Name");
        assert(XacmlFunction::spec_all()[88].spec_urn()@.len() == 58);
        assert(XacmlFunction::spec_all()[88].spec_urn()@[40] == 'r');
        assert(XacmlFunction::spec_all()[88].spec_urn()@[47] == 'o');
        assert(XacmlFunction::spec_all()[88].spec_urn()@[50] == 'x');
    } else if k == 89 {
        reveal_strlit("urn:oasis:names:tc:xacml:3.0:function:rfc822Name-from-string");
        assert(XacmlFunction::spec_all()[89].spec_urn()@.len() == 60);
        assert(XacmlFunction::spec_all()[89].spec_urn()@[40] == 'c');
        assert(XacmlFunction::spec_all()[89].spec_urn()@[47] == 'e');
        assert(XacmlFunction::spec_all()[89].spec_urn()@[50] == 'r');
    } else if k == 90 {
        reveal_strlit("urn:oasis:names:tc:xacml:3.0:function:string-from-rfc822Name");
        assert(XacmlFunction::spec_all()[90].spec_urn()@.len() == 60);
        assert(XacmlFunction::spec_all()[90].spec_urn()@[40] == 'r');
        assert(XacmlFunction::spec_all()[90].spec_urn()@[47] == 'o');
        assert(XacmlFunction::spec_all()[90].spec_urn()@[50] == 'r');
    } else if k == 91 {
        reveal_strlit("urn:oasis:names:tc:xacml:3.0:function:ipAddress-from-string");
        assert(XacmlFunction::spec_all()[91].spec_urn()@.len() == 59);
        assert(XacmlFunction::spec_all()[91].spec_urn()@[40] == 'A');
        assert(XacmlFunction::spec_all()[91].spec_urn()@[47] == '-');
        assert(XacmlFunction::spec_all()[91].spec_urn()@[50] == 'o');
    } else if k == 92 {
        reveal_strlit("urn:oasis:names:tc:xacml:3.0:function:string-from-ipAddress");
        assert(XacmlFunction::spec_all()[92].spec_urn()@.len() == 59);
        assert(XacmlFunction::spec_all()[92].spec_urn()@[40] == 'r');
        assert(XacmlFunction::spec_all()[92].spec_urn()@[47] == 'o');
        assert(XacmlFunction::spec_all()[92].spec_urn()@[50] == 'i');
    } else if k == 93 {
        reveal_strlit("urn:oasis:names:tc:xacml:3.0:function:dnsName-from-string");
        assert(XacmlFunction::spec_all()[93].spec_urn()@.len() == 57);
        assert(XacmlFunction::spec_all()[93].spec_urn()@[40] == 's');
        assert(XacmlFunction::spec_all()[93].spec_urn()@[47] == 'r');
        assert(XacmlFunction::spec_all()[93].spec_urn()@[50] == '-');
    } else if k == 94 {
        reveal_strlit("urn:oasis:names:tc:xacml:3.0:function:string-from-dnsName");
        assert(XacmlFunction::spec_all()[94].spec_urn()@.len() == 57);
        assert(XacmlFunction::spec_all()[94].spec_urn()@[40] == 'r');
        assert(XacmlFunction::spec_all()[94].spec_urn()@[47] == 'o');
        assert(XacmlFunction::spec_all()[94].spec_urn()@[50] == 'd');
    } else if k == 95 {
        reveal_strlit("urn:oasis:names:tc:xacml:3.0:function:string-starts-with");
        assert(XacmlFunction::spec_all()[95].spec_urn()@.len() == 56);
        assert(XacmlFunction::spec_all()[95].spec_urn()@[40] == 'r');
        assert(XacmlFunction::spec_all()[95].spec_urn()@[47] == 'a');
        assert(XacmlFunction::spec_all()[95].spec_urn()@[50] == 's');
    }
}

proof fn lemma_urn_signatures_96(k: int)
    requires
        96 <= k < 108,
    ensures
        urn_signature(XacmlFunction::spec_all()[k].spec_urn()@) == urn_signatures()[k],
        signature_position(urn_signatures()[k]) == k,
{
    if k == 96 {
        reveal_strlit("urn:oasis:names:tc:xacml:3.0:function:anyURI-starts-with");
        assert(XacmlFunction::spec_all()[96].spec_urn()@.len() == 56);
        assert(XacmlFunction::spec_all()[96].spec_urn()@[40] == 'y');
        assert(XacmlFunction::spec_all()[96].spec_urn()@[47] == 'a');
        assert(XacmlFunction::spec_all()[96].spec_urn()@[50] == 's');
    } else if k == 97 {
        reveal_strlit("urn:oasis:names:tc:xacml:3.0:function:string-ends-with");
        assert(XacmlFunction::spec_all()[97].spec_urn()@.len() == 54);
        assert(XacmlFunction::spec_all()[97].spec_urn()@[40] == 'r');
        assert(XacmlFunction::spec_all()[97].spec_urn()@[47] == 'd');
        assert(XacmlFunction::spec_all()[97].spec_urn()@[50] == 'w');
    } else if k == 98 {
        reveal_strlit("urn:oasis:names:tc:xacml:3.0:function:anyURI-ends-with");
        assert(XacmlFunction::spec_all()[98].spec_urn()@.len() == 54);
        assert(XacmlFunction::spec_all()[98].spec_urn()@[40] == 'y');
        assert(XacmlFunction::spec_all()[98].spec_urn()@[47] == 'd');
        assert(XacmlFunction::spec_all()[98].spec_urn()@[50] == 'w');
    } else if k == 99 {
        reveal_strlit("urn:oasis:names:tc:xacml:3.0:function:string-contains");
        assert(XacmlFunction::spec_all()[99].spec_urn()@.len() == 53);
        assert(XacmlFunction::spec_all()[99].spec_urn()@[40] == 'r');
        assert(XacmlFunction::spec_all()[99].spec_urn()@[47] == 'n');
        assert(XacmlFunction::spec_all()[99].spec_urn()@[50] == 'i');
    } else if k == 100 {
        reveal_strlit("urn:oasis:names:tc:xacml:3.0:function:anyURI-contains");
        assert(XacmlFunction::spec_all()[100].spec_urn()@.len() == 53);
        assert(XacmlFunction::spec_all()[100].spec_urn()@[40] == 'y');
        assert(XacmlFunction::spec_all()[100].spec_urn()@[47] == 'n');
        assert(XacmlFunction::spec_all()[100].spec_urn()@[50] == 'i');
    } else if k == 101 {
        reveal_strlit("urn:oasis:names:tc:xacml:3.0:function:string-substring");
        assert(XacmlFunction::spec_all()[101].spec_urn()@.len() == 54);
        assert(XacmlFunction::spec_all()[101].spec_urn()@[40] == 'r');
        assert(XacmlFunction::spec_all()[101].spec_urn()@[47] == 'b');
        assert(XacmlFunction::spec_all()[101].spec_urn()@[50] == 'r');
    } else if k == 102 {
        reveal_strlit("urn:oasis:names:tc:xacml:3.0:function:anyURI-substring");
        assert(XacmlFunction::spec_all()[102].spec_urn()@.len() == 54);
        assert(XacmlFunction::spec_all()[102].spec_urn()@[40] == 'y');
        assert(XacmlFunction::spec_all()[102].spec_urn()@[47] == 'b');
        assert(XacmlFunction::spec_all()[102].spec_urn()@[50] == 'r');
    } else if k == 103 {
        reveal_strlit("urn:oasis:names:tc:xacml:1.0:function:any-of");
        assert(XacmlFunction::spec_all()[103].spec_urn()@.len() == 44);
        assert(XacmlFunction::spec_all()[103].spec_urn()@[40] == 'y');
    } else if k == 104 {
        reveal_strlit("urn:oasis:names:tc:xacml:1.0:function:all-of");
        assert(XacmlFunction::spec_all()[104].spec_urn()@.len() == 44);
        assert(XacmlFunction::spec_all()[104].spec_urn()@[40] == 'l');
    } else if k == 105 {
        reveal_strlit("urn:oasis:names:tc:xacml:1.0:function:any-of-any");
        assert(XacmlFunction::spec_all()[105].spec_urn()@.len() == 48);
        assert(XacmlFunction::spec_all()[105].spec_urn()@[40] == 'y');
        assert(XacmlFunction::spec_all()[105].spec_urn()@[47] == 'y');
    } else if k == 106 {
        reveal_strlit("urn:oasis:names:tc:xacml:1.0:function:all-of-any");
        assert(XacmlFunction::spec_all()[106].spec_urn()@.len() == 48);
        assert(XacmlFunction::spec_all()[106].spec_urn()@[40] == 'l');
        assert(XacmlFunction::spec_all()[106].spec_urn()@[47] == 'y');
    } else if k == 107 {
        reveal_strlit("urn:oasis:names:tc:xacml:1.0:function:any-of-all");
        assert(XacmlFunction::spec_all()[107].spec_urn()@.len() == 48);
        assert(XacmlFunction::spec_all()[107].spec_urn()@[40] == 'y');
        assert(XacmlFunction::spec_all()[107].spec_urn()@[47] == 'l');
    }
}

proof fn lemma_urn_signatures_108(k: int)
    requires
        108 <= k < 114,
    ensures
        urn_signature(XacmlFunction::spec_all()[k].spec_urn()@) == urn_signatures()[k],
        signature_position(urn_signatures()[k]) == k,
{
    if k == 108 {
        reveal_strlit("urn:oasis:names:tc:xacml:1.0:function:all-of-all");
        assert(XacmlFunction::spec_all()[108].spec_urn()@.len() == 48);
        assert(XacmlFunction::spec_all()[108].spec_urn()@[40] == 'l');
        assert(XacmlFunction::spec_all()[108].spec_urn()@[47] == 'l');
    } else if k == 109 {
        reveal_strlit("urn:oasis:names:tc:xacml:1.0:function:string-one-and-only");
        assert(XacmlFunction::spec_all()[109].spec_urn()@.len() == 57);
        assert(XacmlFunction::spec_all()[109].spec_urn()@[40] == 'r');
        assert(XacmlFunction::spec_all()[109].spec_urn()@[47] == 'e');
        assert(XacmlFunction::spec_all()[109].spec_urn()@[50] == 'n');
    } else if k == 110 {
        reveal_strlit("urn:oasis:names:tc:xacml:3.0:function:string-bag-size");
        assert(XacmlFunction::spec_all()[110].spec_urn()@.len() == 53);
        assert(XacmlFunction::spec_all()[110].spec_urn()@[40] == 'r');
        assert(XacmlFunction::spec_all()[110].spec_urn()@[47] == 'g');
        assert(XacmlFunction::spec_all()[110].spec_urn()@[50] == 'i');
    } else if k == 111 {
        reveal_strlit("urn:oasis:names:tc:xacml:3.0:function:string-is-in");
        assert(XacmlFunction::spec_all()[111].spec_urn()@.len() == 50);
        assert(XacmlFunction::spec_all()[111].spec_urn()@[40] == 'r');
        assert(XacmlFunction::spec_all()[111].spec_urn()@[47] == '-');
    } else if k == 112 {
        reveal_strlit("urn:oasis:names:tc:xacml:1.0:function:string-bag");
        assert(XacmlFunction::spec_all()[112].spec_urn()@.len() == 48);
        assert(XacmlFunction::spec_all()[112].spec_urn()@[40] == 'r');
        assert(XacmlFunction::spec_all()[112].spec_urn()@[47] == 'g');
    } else if k == 113 {
        reveal_strlit("urn:oasis:names:tc:xacml:1.0:function:string-at-least-one-member-of");
        assert(XacmlFunction::spec_all()[113].spec_urn()@.len() == 67);
        assert(XacmlFunction::spec_all()[113].spec_urn()@[40] == 'r');
        assert(XacmlFunction::spec_all()[113].spec_urn()@[47] == '-');
        assert(XacmlFunction::spec_all()[113].spec_urn()@[50] == 'a');
    }
}

proof fn lemma_urn_signature_at(k: int)
    requires
        0 <= k < 114,
    ensures
        urn_signature(XacmlFunction::spec_all()[k].spec_urn()@) == urn_signatures()[k],
        signature_position(urn_signatures()[k]) == k,
{
    if k < 12 {
        lemma_urn_signatures_0(k);
    } else if k < 24 {
        lemma_urn_signatures_12(k);
    } else if k < 36 {
        lemma_urn_signatures_24(k);
    } else if k < 48 {
        lemma_urn_signatures_36(k);
    } else if k < 60 {
        lemma_urn_signatures_48(k);
    } else if k < 72 {
        lemma_urn_signatures_60(k);
    } else if k < 84 {
        lemma_urn_signatures_72(k);
    } else if k < 96 {
        lemma_urn_signatures_84(k);
    } else if k < 108 {
        lemma_urn_signatures_96(k);
    } else if k < 114 {
        lemma_urn_signatures_108(k);
    }
}

proof fn lemma_lookup_from_position(i: int, k: int)
    requires
        0 <= k <= i < XacmlFunction::spec_all().len(),
    ensures
        XacmlFunction::lookup_from(XacmlFunction::spec_all()[i].spec_urn()@, k) == Some(XacmlFunction::spec_all()[i]),
    decreases i - k,
{
    if k < i {
        lemma_urn_signature_at(k);
        lemma_urn_signature_at(i);
        lemma_lookup_from_position(i, k + 1);
    }
}

/// Every function is found again from its URN: looking up the URN of the
/// function at any position of `XacmlFunction::spec_all()` gives that function.
pub proof fn lemma_urn_round_trip(i: int)
    requires
        0 <= i < XacmlFunction::spec_all().len(),
    ensures
        XacmlFunction::lookup(XacmlFunction::spec_all()[i].spec_urn()@) == Some(XacmlFunction::spec_all()[i]),
{
    lemma_lookup_from_position(i, 0);
}

/// Parsing the URN of a listed function gives the function back: a plain
/// function from its URN alone, a quantifier from its URN together with the
/// URN of a listed plain function, which becomes its predicate.
pub proof fn lemma_from_urn_round_trip(i: int, j: int)
    requires
        0 <= i < XacmlFunction::spec_all().len(),
        0 <= j < XacmlFunction::spec_all().len(),
        !XacmlFunction::spec_all()[j].is_quantifier(),
    ensures
        ({
            let f = XacmlFunction::spec_all()[i];
            let g = XacmlFunction::spec_all()[j];
            &&& !f.is_quantifier() ==> XacmlFunction::urn_accepted(f.spec_urn()@, None)
                && XacmlFunction::spec_from_urn(f.spec_urn()@, None) == Some(f)
            &&& f.is_quantifier() ==> XacmlFunction::urn_accepted(f.spec_urn()@, Some(g.spec_urn()@))
                && XacmlFunction::spec_from_urn(f.spec_urn()@, Some(g.spec_urn()@)) == Some(f.with_inner(g))
        }),
{
    lemma_urn_round_trip(i);
    lemma_urn_round_trip(j);
}


/// The function with its inner predicate left out: what its URN names.
pub open spec fn urn_kind(f: XacmlFunction) -> XacmlFunction {
    match f {
        XacmlFunction::AnyOf(_) => XacmlFunction::AnyOf(None),
        XacmlFunction::AllOf(_) => XacmlFunction::AllOf(None),
        XacmlFunction::AnyOfAny(_) => XacmlFunction::AnyOfAny(None),
        XacmlFunction::AllOfAny(_) => XacmlFunction::AllOfAny(None),
        XacmlFunction::AnyOfAll(_) => XacmlFunction::AnyOfAll(None),
        XacmlFunction::AllOfAll(_) => XacmlFunction::AllOfAll(None),
        _ => f,
    }
}

/// The position of the kind of `f` in `XacmlFunction::spec_all()`.
pub open spec fn kind_position(f: XacmlFunction) -> int {
    match f {
        XacmlFunction::StringEqual => 0,
        XacmlFunction::BooleanEqual => 1,
        XacmlFunction::IntegerEqual => 2,
        XacmlFunction::DoubleEqual => 3,
        XacmlFunction::DateEqual => 4,
        XacmlFunction::TimeEqual => 5,
        XacmlFunction::DateTimeEqual => 6,
        XacmlFunction::DayTimeDurationEqual => 7,
        XacmlFunction::YearMonthDurationEqual => 8,
        XacmlFunction::StringEqualIgnoreCase => 9,
        XacmlFunction::AnyUriEqual => 10,
        XacmlFunction::X500NameEqual => 11,
        XacmlFunction::Rfc822NameEqual => 12,
        XacmlFunction::HexBinaryEqual => 13,
        XacmlFunction::Base64BinaryEqual => 14,
        XacmlFunction::IntegerAdd => 15,
        XacmlFunction::DoubleAdd => 16,
        XacmlFunction::IntegerSubtract => 17,
        XacmlFunction::DoubleSubtract => 18,
        XacmlFunction::IntegerMultiply => 19,
        XacmlFunction::DoubleMultiply => 20,
        XacmlFunction::IntegerDivide => 21,
        XacmlFunction::DoubleDivide => 22,
        XacmlFunction::IntegerMod => 23,
        XacmlFunction::IntegerAbs => 24,
        XacmlFunction::DoubleAbs => 25,
        XacmlFunction::Round => 26,
        XacmlFunction::Floor => 27,
        XacmlFunction::StringNormalizeSpace => 28,
        XacmlFunction::StringNormalizeToLowerCase => 29,
        XacmlFunction::DoubleToInteger => 30,
        XacmlFunction::IntegerToDouble => 31,
        XacmlFunction::Or => 32,
        XacmlFunction::And => 33,
        XacmlFunction::NOf => 34,
        XacmlFunction::Not => 35,
        XacmlFunction::IfElse => 36,
        XacmlFunction::IntegerGreaterThan => 37,
        XacmlFunction::IntegerGreaterThanOrEqual => 38,
        XacmlFunction::IntegerLessThan => 39,
        XacmlFunction::IntegerLessThanOrEqual => 40,
        XacmlFunction::DoubleGreaterThan => 41,
        XacmlFunction::DoubleGreaterThanOrEqual => 42,
        XacmlFunction::DoubleLessThan => 43,
        XacmlFunction::DoubleLessThanOrEqual => 44,
        XacmlFunction::DateTimeAddDayTimeDuration => 45,
        XacmlFunction::DateTimeAddYearMonthDuration => 46,
        XacmlFunction::DateTimeSubtractDayTimeDuration => 47,
        XacmlFunction::DateTimeSubtractYearMonthDuration => 48,
        XacmlFunction::DateAddYearMonthDuration => 49,
        XacmlFunction::DateSubtractYearMonthDuration => 50,
        XacmlFunction::StringGreaterThan => 51,
        XacmlFunction::StringGreaterThanOrEqual => 52,
        XacmlFunction::StringLessThan => 53,
        XacmlFunction::StringLessThanOrEqual => 54,
        XacmlFunction::TimeGreaterThan => 55,
        XacmlFunction::TimeGreaterThanOrEqual => 56,
        XacmlFunction::TimeLessThan => 57,
        XacmlFunction::TimeLessThanOrEqual => 58,
        XacmlFunction::TimeInRange => 59,
        XacmlFunction::DateTimeGreaterThan => 60,
        XacmlFunction::DateTimeGreaterThanOrEqual => 61,
        XacmlFunction::DateTimeLessThan => 62,
        XacmlFunction::DateTimeLessThanOrEqual => 63,
        XacmlFunction::DateGreaterThan => 64,
        XacmlFunction::DateGreaterThanOrEqual => 65,
        XacmlFunction::DateLessThan => 66,
        XacmlFunction::DateLessThanOrEqual => 67,
        XacmlFunction::StringConcatenate => 68,
        XacmlFunction::BooleanFromString => 69,
        XacmlFunction::StringFromBoolean => 70,
        XacmlFunction::IntegerFromString => 71,
        XacmlFunction::StringFromInteger => 72,
        XacmlFunction::DoubleFromString => 73,
        XacmlFunction::StringFromDouble => 74,
        XacmlFunction::TimeFromString => 75,
        XacmlFunction::StringFromTime => 76,
        XacmlFunction::DateFromString => 77,
        XacmlFunction::StringFromDate => 78,
        XacmlFunction::DateTimeFromString => 79,
        XacmlFunction::StringFromDateTime => 80,
        XacmlFunction::AnyUriFromString => 81,
        XacmlFunction::StringFromAnyUri => 82,
        XacmlFunction::DayTimeDurationFromString => 83,
        XacmlFunction::StringFromDayTimeDuration => 84,
        XacmlFunction::YearMonthDurationFromString => 85,
        XacmlFunction::StringFromYearMonthDuration => 86,
        XacmlFunction::X500NameFromString => 87,
        XacmlFunction::StringFromX500Name => 88,
        XacmlFunction::Rfc822NameFromString => 89,
        XacmlFunction::StringFromRfc822Name => 90,
        XacmlFunction::IpAddressFromString => 91,
        XacmlFunction::StringFromIpAddress => 92,
        XacmlFunction::DnsNameFromString => 93,
        XacmlFunction::StringFromDnsName => 94,
        XacmlFunction::StringStartsWith => 95,
        XacmlFunction::AnyUriStartsWith => 96,
        XacmlFunction::StringEndsWith => 97,
        XacmlFunction::AnyUriEndsWith => 98,
        XacmlFunction::StringContains => 99,
        XacmlFunction::AnyUriContains => 100,
        XacmlFunction::StringSubstring => 101,
        XacmlFunction::AnyUriSubstring => 102,
        XacmlFunction::AnyOf(_) => 103,
        XacmlFunction::AllOf(_) => 104,
        XacmlFunction::AnyOfAny(_) => 105,
        XacmlFunction::AllOfAny(_) => 106,
        XacmlFunction::AnyOfAll(_) => 107,
        XacmlFunction::AllOfAll(_) => 108,
        XacmlFunction::StringOneAndOnly => 109,
        XacmlFunction::StringBagSize => 110,
        XacmlFunction::StringIsIn => 111,
        XacmlFunction::StringBag => 112,
        XacmlFunction::StringAtLeastOneMemberOf => 113,
    }
}

proof fn lemma_kind_position(f: XacmlFunction)
    ensures
        0 <= kind_position(f) < XacmlFunction::spec_all().len(),
        XacmlFunction::spec_all()[kind_position(f)] == urn_kind(f),
        f.spec_urn() == urn_kind(f).spec_urn(),
{
}

/// The URN table is one-to-one up to inner predicates: two functions have
/// the same URN exactly when they are the same function once their inner
/// predicates (if any) are left out.
pub proof fn lemma_urn_injective(f: XacmlFunction, g: XacmlFunction)
    ensures
        (f.spec_urn()@ == g.spec_urn()@) <==> (urn_kind(f) == urn_kind(g)),
{
    lemma_kind_position(f);
    lemma_kind_position(g);
    lemma_urn_signature_at(kind_position(f));
    lemma_urn_signature_at(kind_position(g));
}


/// A number that tells algorithm identifiers apart: their length and the
/// first character of the algorithm's own name, at `p`.
pub open spec fn identifier_code(u: Seq<char>, p: int) -> int {
    u.len() * 65536 + char_code(u, p)
}

/// Distinct rule-combining algorithms have distinct identifiers.
pub proof fn lemma_rule_alg_identifier_injective(a: RuleCombiningAlg, b: RuleCombiningAlg)
    ensures
        (a.spec_identifier()@ == b.spec_identifier()@) <==> (a == b),
{
    reveal_strlit("urn:oasis:names:tc:xacml:3.0:rule-combining-algorithm:deny-overrides");
    reveal_strlit("urn:oasis:names:tc:xacml:3.0:rule-combining-algorithm:permit-overrides");
    reveal_strlit("urn:oasis:names:tc:xacml:1.0:rule-combining-algorithm:first-applicable");
    reveal_strlit("urn:oasis:names:tc:xacml:3.0:rule-combining-algorithm:ordered-deny-overrides");
    reveal_strlit("urn:oasis:names:tc:xacml:3.0:rule-combining-algorithm:ordered-permit-overrides");
    reveal_strlit("urn:oasis:names:tc:xacml:3.0:rule-combining-algorithm:deny-unless-permit");
    reveal_strlit("urn:oasis:names:tc:xacml:3.0:rule-combining-algorithm:permit-unless-deny");
    if a != b {
        assert(identifier_code(a.spec_identifier()@, 54) != identifier_code(b.spec_identifier()@, 54));
    }
}

/// Distinct policy-combining algorithms have distinct identifiers.
pub proof fn lemma_policy_alg_identifier_injective(a: PolicyCombiningAlg, b: PolicyCombiningAlg)
    ensures
        (a.spec_identifier()@ == b.spec_identifier()@) <==> (a == b),
{
    reveal_strlit("urn:oasis:names:tc:xacml:3.0:policy-combining-algorithm:deny-overrides");
    reveal_strlit("urn:oasis:names:tc:xacml:3.0:policy-combining-algorithm:permit-overrides");
    reveal_strlit("urn:oasis:names:tc:xacml:1.0:policy-combining-algorithm:first-applicable");
    reveal_strlit("urn:oasis:names:tc:xacml:1.0:policy-combining-algorithm:only-one-applicable");
    reveal_strlit("urn:oasis:names:tc:xacml:3.0:policy-combining-algorithm:ordered-deny-overrides");
    reveal_strlit("urn:oasis:names:tc:xacml:3.0:policy-combining-algorithm:ordered-permit-overrides");
    reveal_strlit("urn:oasis:names:tc:xacml:3.0:policy-combining-algorithm:deny-unless-permit");
    reveal_strlit("urn:oasis:names:tc:xacml:3.0:policy-combining-algorithm:permit-unless-deny");
    if a != b {
        assert(identifier_code(a.spec_identifier()@, 56) != identifier_code(b.spec_identifier()@, 56));
    }
}

} // verus!
