//! Messages and settings shared by the services around the decision point.

use vstd::prelude::*;

verus! {

/// The encryptor's answer: the names and data types of the encrypted
/// attributes, with their serialised ciphertexts.
#[derive(Debug)]
pub struct EncryptorResponse {
    pub names: Vec<String>,
    pub types: Vec<String>,
    pub values: Vec<u8>,
}

/// The key under which a store kept a value.
#[derive(Debug)]
pub struct StoreResponse {
    pub key: String,
}

/// The addresses of the services.
#[derive(Debug, Clone)]
pub struct GlobalConfig {
    pub encryptorurl: String,
    pub decryptorurl: String,
    pub userurl: String,
    pub pdpurl: String,
    pub pdpdburl: String,
    pub papurl: String,
    pub pepurl: String,
    pub keycloakurl: String,
    pub redisaastoreurl: String,
    pub keystore_url: String,
}

/// A value that can report its type.
pub trait GetType<S> {
    fn get_type(&self) -> S;
}

} // verus!
