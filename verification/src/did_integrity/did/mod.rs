//! Everything specific to decentralized identifiers.

use vstd::prelude::*;

use crate::did_integrity::asymmetric::{PublicKey, Signature};

pub mod key;

verus! {

/// A decentralized identifier.
#[derive(Debug, Eq, PartialEq)]
pub enum Did {
    Key(DidKey),
    Web(DidWeb),
}

/// Everything after `did:key:`.
#[derive(Debug, Eq, PartialEq)]
pub struct DidKey(pub String);

impl DidKey {
    /// Resolves the key to its document. This is possible without any IO, as a
    /// `did:key` is self-describing: the identifier is the encoded public key.
    pub fn resolve(&self) -> (doc: DidDocument)
        ensures
            doc.did matches Did::Key(k) && k.0@ == self.0@,
            doc.pubkey.0@ == self.0@,
    {
        DidDocument { did: Did::Key(DidKey(self.0.clone())), pubkey: PublicKey(self.0.clone()) }
    }
}

/// Everything after `did:web:`.
#[derive(Debug, Eq, PartialEq)]
pub struct DidWeb(pub String);

/// A [`Did`] resolves to a [`DidDocument`].
#[derive(Debug, Eq, PartialEq)]
pub struct DidDocument {
    /// A `DidDocument` is self describing in that it contains the `Did` too.
    pub did: Did,
    pub pubkey: PublicKey,
}

/// A chain of [`Did`]s which start at a [`RootDid`] that signs a child, which
/// signs its child, and so on: `signatures[i]` goes with `chain[i]`.
#[derive(Debug, Eq, PartialEq)]
pub struct DidChain {
    root: RootDid,
    chain: Vec<Did>,
    signatures: Vec<Signature>,
}

impl DidChain {
    #[verifier::type_invariant]
    spec fn inv(self) -> bool {
        self.chain@.len() == self.signatures@.len()
    }

    /// The root of the chain.
    pub closed spec fn root_did(&self) -> RootDid {
        self.root
    }

    /// The identifiers below the root, from the root's child to the leaf.
    pub closed spec fn children(&self) -> Seq<Did> {
        self.chain@
    }

    /// The signature that goes with each identifier below the root.
    pub closed spec fn child_signatures(&self) -> Seq<Signature> {
        self.signatures@
    }

    /// A chain from `root` through `chain`, or nothing where `chain` and
    /// `signatures` do not pair up.
    pub fn new(root: RootDid, chain: Vec<Did>, signatures: Vec<Signature>) -> (r: Option<Self>)
        ensures
            r is Some <==> chain@.len() == signatures@.len(),
            r matches Some(c) ==> c.root_did() == root && c.children() == chain@
                && c.child_signatures() == signatures@,
    {
        if chain.len() == signatures.len() {
            Some(DidChain { root, chain, signatures })
        } else {
            None
        }
    }

    pub fn root(&self) -> (r: &RootDid)
        ensures
            *r == self.root_did(),
    {
        &self.root
    }

    /// NOTE: This may be the same as `root` if there are no child `Did`s.
    pub fn leaf(&self) -> (r: &Did)
        ensures
            *r == (if self.children().len() == 0 {
                self.root_did().0
            } else {
                self.children().last()
            }),
    {
        let n = self.chain.len();
        if n == 0 {
            &self.root.0
        } else {
            &self.chain[n - 1]
        }
    }

    /// The number of `Did`s in the chain, including the root.
    pub fn len(&self) -> (r: u8)
        requires
            self.children().len() < u8::MAX,
        ensures
            r == 1 + self.children().len(),
            r == 1 + self.child_signatures().len(),
    {
        proof {
            use_type_invariant(self);
        }
        1 + (self.chain.len() as u8)
    }
}

/// Newtype on [`Did`] that indicates that this is a root.
#[derive(Debug, Eq, PartialEq)]
pub struct RootDid(pub Did);

} // verus!
