//! What the homeserver does with messages that other homeservers hand it.

use vstd::prelude::*;

use crate::common::server_to_server::{Msg, Response};
use crate::common::Protocol;
use crate::server::{after_push, Clients};

verus! {

/// Queues a message for one of this homeserver's users under `protocol`.
pub fn remote_send_to(clients: &mut Clients, protocol: String, server_msg: Msg) -> (r: Response)
    requires
        old(clients)@.contains_key(server_msg.to_did@),
    ensures
        r == Response::MsgQueuedSuccessful,
        final(clients)@ == after_push(
            old(clients)@,
            server_msg.to_did@,
            protocol@,
            server_msg.did_msg,
        ),
{
    let protocol = Protocol(protocol);
    clients.push_message(&server_msg.to_did, &protocol, server_msg.did_msg);
    Response::MsgQueuedSuccessful
}

} // verus!
