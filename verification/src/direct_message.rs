//! The direct-message protocol: what one user sends another.

use vstd::prelude::*;

verus! {

/// A message from one user to another.
#[derive(Eq, PartialEq, Ord, PartialOrd, Clone, Hash, Debug)]
pub struct DirectMessage {
    pub from: String,
    pub contents: String,
}

/// What a client asks its homeserver to do with its stored direct messages.
#[derive(Eq, PartialEq, Ord, PartialOrd, Clone, Hash, Debug)]
pub enum LocalMessage {
    AddDm(DirectMessage),
    ReadAllMsgs,
}

} // verus!
