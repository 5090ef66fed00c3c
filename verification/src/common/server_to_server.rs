//! Requests that one homeserver sends to another, and the answers.

use vstd::prelude::*;

use crate::common::{Did, DidMsg, Homeserver, Payload};

verus! {

/// A homeserver's answer to another homeserver.
#[derive(Eq, PartialEq, Ord, PartialOrd, Clone, Hash, Debug)]
pub enum Response {
    RemoteImmediate(DidMsg<Payload>),
    MsgQueuedSuccessful,
}

/// A message forwarded to the homeserver of its recipient.
#[derive(Eq, PartialEq, Ord, PartialOrd, Clone, Hash, Debug)]
pub struct Msg {
    pub to_homeserver: Homeserver,
    pub to_did: Did,
    pub did_msg: DidMsg<Payload>,
}

} // verus!
