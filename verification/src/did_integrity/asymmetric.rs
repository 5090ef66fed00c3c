//! Keys and signatures of asymmetric cryptography.

use vstd::prelude::*;

verus! {

/// A public key, in the textual form in which a `did:key` carries it.
#[derive(Debug, Eq, PartialEq)]
pub struct PublicKey(pub String);

/// A secret key.
pub struct SecretKey(pub String);

/// A signature.
#[derive(Debug, Eq, PartialEq)]
pub struct Signature(pub String);

} // verus!
