//! A client of the direct-message protocol.

use vstd::prelude::*;

use crate::common::{Did, Homeserver, Protocol};

verus! {

/// A user of the direct-message protocol, with their homeserver.
pub struct Client {
    pub homeserver: Homeserver,
    pub did: Did,
    pub username: String,
}

/// The name of the direct-message protocol.
pub open spec fn direct_message_protocol() -> Seq<char> {
    "direct-message"@
}

impl Client {
    /// The protocol under which direct messages travel.
    pub fn protocol() -> (r: Protocol)
        ensures
            r@ == direct_message_protocol(),
    {
        Protocol("direct-message".to_owned())
    }

    pub fn new(homeserver: Homeserver, did: Did, username: String) -> (r: Self)
        ensures
            r.homeserver == homeserver,
            r.did == did,
            r.username == username,
    {
        Self { homeserver, did, username }
    }
}

} // verus!
