//! Evaluation of XACML attribute functions over plain and homomorphically
//! encrypted attribute values.

pub mod text;
pub mod lexical;
pub mod transform;
pub mod constants;
pub mod xacml_types;
pub mod intermediate;
pub mod cipher;
pub mod enc_spec;
pub mod enc;
pub mod enc_bags;
pub mod enc_dispatch;
pub mod agreement;
pub mod plain_spec;
pub mod plain;
pub mod plain_bags;
pub mod plain_dispatch;
pub mod reduce;
pub mod mixed;
pub mod serial;
pub mod htraits;
pub mod shared;
pub mod drill;
pub mod context;
pub mod encrypt;
pub mod effects;
pub mod orderings;
