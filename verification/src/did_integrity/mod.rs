//! Decentralized identifiers (DIDs), the keys that they stand for, and chains
//! of identifiers that vouch for one another.

use vstd::prelude::*;

pub mod asymmetric;
pub mod did;

verus! {

/// The result of encryption. Newtype for type safety.
#[derive(Debug, Eq, PartialEq)]
pub struct CipherText(pub Vec<u8>);

} // verus!
