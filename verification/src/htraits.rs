//! The families of homomorphic types: fundamental ones (integers, strings,
//! booleans) and the XACML data types built on them.

use vstd::prelude::*;

verus! {

/// A homomorphic value that wraps a fundamental encrypted value.
pub trait HFundamentalType<T> {
    fn inner(&self) -> &T;
}

/// An encrypted signed integer.
pub trait HIntegerType<T>: HFundamentalType<T> {}

/// An encrypted unsigned integer.
pub trait HUnsignedIntegerType<T>: HFundamentalType<T> {}

/// An encrypted double, held as a scaled integer.
pub trait HDoubleType<T>: HFundamentalType<T> {}

/// An encrypted string.
pub trait HStringType<T>: HFundamentalType<T> {}

/// An encrypted boolean.
pub trait HBooleanType<T>: HFundamentalType<T> {}

/// An encrypted time of day.
pub trait HTimeType<S, T: HUnsignedIntegerType<S>> {}

/// An encrypted date and time.
pub trait HDateTimeType<S, T: HIntegerType<S>> {}

/// An encrypted day-time duration.
pub trait HDayTimeDurationType<S, T: HIntegerType<S>> {}

/// An encrypted year-month duration.
pub trait HYearMonthDurationType<S, T: HIntegerType<S>> {}

/// An encrypted URI.
pub trait HAnyUriType<S, T: HStringType<S>> {}

/// An encrypted hex-encoded binary.
pub trait HHexBinaryType<S, T: HStringType<S>> {}

/// An encrypted base64-encoded binary.
pub trait HBase64BinaryType<S, T: HStringType<S>> {}

/// An encrypted e-mail name.
pub trait HRfc822NameType<S, T: HStringType<S>> {}

/// An encrypted X.500 name.
pub trait HX500NameType<S, T: HStringType<S>> {}

/// An encrypted IP address.
pub trait HIpAddressType<S, T: HStringType<S>> {}

/// An encrypted DNS name.
pub trait HDnsNameType<S, T: HStringType<S>> {}

} // verus!
