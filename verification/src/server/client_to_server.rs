//! What the homeserver does with the requests of its own users.

use vstd::prelude::*;

use crate::common::client_to_server::{ClientDidMsg, Msg, MsgType, Response};
use crate::common::{Homeserver, Protocol};
use crate::common::server_to_server;
use crate::server::{after_pop, popped, Clients, HomeserverMappings};

verus! {

/// The path under which one homeserver hands a message to another.
pub open spec fn remote_send_path() -> Seq<char> {
    seq![
        '/', 's', 'e', 'r', 'v', 'e', 'r', '-', 't', 'o', '-', 's', 'e', 'r', 'v', 'e', 'r',
        '/', 'r', 'e', 'm', 'o', 't', 'e', '-', 's', 'e', 'n', 'd', '-', 't', 'o', '/',
    ]
}

/// Answers a registered user's request to pop their queue of `protocol`:
/// the newest message waiting there, if any, leaves the queue and is handed back.
pub fn pop_queue(clients: &mut Clients, protocol: String, body: ClientDidMsg) -> (r: Response)
    requires
        old(clients)@.contains_key(body.did@),
    ensures
        r == Response::Queue(popped(old(clients)@, body.did@, protocol@)),
        final(clients)@ == after_pop(old(clients)@, body.did@, protocol@),
{
    let protocol = Protocol(protocol);
    Response::Queue(clients.pop_message(&body.did, &protocol))
}

/// Turns a user's request to send a message to another user into the request
/// that goes to that user's homeserver, together with the URL it goes to.
pub fn remote_send_to(homeserver_mappings: &HomeserverMappings, msg: Msg) -> (r: (
    server_to_server::Msg,
    String,
))
    requires
        msg.did_msg.payload matches MsgType::RemoteSendTo(did_to, _)
            && homeserver_mappings@.contains_key(did_to@),
    ensures
        ({
            let did_to = msg.did_msg.payload->RemoteSendTo_0;
            let payload_msg = msg.did_msg.payload->RemoteSendTo_1;
            &&& r.0.to_homeserver@ == homeserver_mappings@[did_to@]
            &&& r.0.to_did == did_to
            &&& r.0.did_msg == payload_msg
            &&& r.1@ == homeserver_mappings@[did_to@] + remote_send_path() + msg.protocol@
        }),
{
    let protocol = msg.protocol.0;
    let (did_to, payload_msg) = match msg.did_msg.payload {
        MsgType::RemoteSendTo(did_to, payload_msg) => (did_to, payload_msg),
        _ => vstd::pervasive::unreached(),
    };
    let to_homeserver = match homeserver_mappings.get(&did_to) {
        Some(h) => Homeserver(h.0.clone()),
        None => vstd::pervasive::unreached(),
    };
    let path = "/server-to-server/remote-send-to/";
    proof {
        reveal_strlit("/server-to-server/remote-send-to/");
        assert(path@ =~= remote_send_path());
    }
    let mut url = to_homeserver.0.clone();
    url.append(path);
    url.append(protocol.as_str());
    (server_to_server::Msg { to_homeserver, to_did: did_to, did_msg: payload_msg }, url)
}

/// Once `homeserver` is recorded for `did`, a message sent to `did` is handed
/// to `homeserver`: the table that `remote_send_to` consults maps `did` to it.
pub proof fn lemma_sends_go_to_recorded_homeserver(
    mappings: Map<Seq<char>, Seq<char>>,
    did: Seq<char>,
    homeserver: Seq<char>,
)
    ensures
        mappings.insert(did, homeserver).contains_key(did),
        mappings.insert(did, homeserver)[did] == homeserver,
{
}

} // verus!
