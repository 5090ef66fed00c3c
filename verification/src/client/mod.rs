//! What a client sends to its homeserver and how it reads the answers.

use vstd::prelude::*;

use crate::common::client_to_server::{ClientDidMsg, Msg, MsgType, Response};
use crate::common::{Did, DidMsg, Homeserver, Payload, Protocol};

pub mod non_standard;

verus! {

/// The path segment under which the homeserver serves each kind of request.
pub open spec fn route_name(payload: MsgType) -> Seq<char> {
    match payload {
        MsgType::PopQueue => "pop-queue"@,
        MsgType::Local(_) => "local"@,
        MsgType::GeneralRemoteRequest(_) => "general-remote-request"@,
        MsgType::RemoteRequestTo(_, _) => "remote-request-to"@,
        MsgType::RemoteSendTo(_, _) => "remote-send-to"@,
    }
}

/// The URL that a request goes to:
/// `http://<homeserver>/client-to-server/<kind of request>/<protocol>`.
pub open spec fn endpoint_of(msg: Msg) -> Seq<char> {
    "http://"@ + msg.homeserver@ + "/client-to-server/"@ + route_name(msg.did_msg.payload) + "/"@
        + msg.protocol@
}

fn route(payload: &MsgType) -> (r: &'static str)
    ensures
        r@ == route_name(*payload),
        *payload matches MsgType::PopQueue ==> r@ == "pop-queue"@,
        *payload matches MsgType::Local(_) ==> r@ == "local"@,
        *payload matches MsgType::GeneralRemoteRequest(_) ==> r@ == "general-remote-request"@,
        *payload matches MsgType::RemoteRequestTo(_, _) ==> r@ == "remote-request-to"@,
        *payload matches MsgType::RemoteSendTo(_, _) ==> r@ == "remote-send-to"@,
{
    match payload {
        MsgType::PopQueue => "pop-queue",
        MsgType::Local(_) => "local",
        MsgType::GeneralRemoteRequest(_) => "general-remote-request",
        MsgType::RemoteRequestTo(_, _) => "remote-request-to",
        MsgType::RemoteSendTo(_, _) => "remote-send-to",
    }
}

/// The URL that `msg` is sent to.
pub fn msg_to_endpoint(msg: &Msg) -> (r: String)
    ensures
        r@ == endpoint_of(*msg),
        r@.len() > msg.protocol@.len(),
        r@.skip(r@.len() - msg.protocol@.len()) == msg.protocol@,
        r@[r@.len() - msg.protocol@.len() - 1] == '/',
        msg.did_msg.payload matches MsgType::PopQueue ==> r@ == "http://"@ + msg.homeserver@
            + "/client-to-server/"@ + "pop-queue"@ + "/"@ + msg.protocol@,
        msg.did_msg.payload matches MsgType::Local(_) ==> r@ == "http://"@ + msg.homeserver@
            + "/client-to-server/"@ + "local"@ + "/"@ + msg.protocol@,
        msg.did_msg.payload matches MsgType::GeneralRemoteRequest(_) ==> r@ == "http://"@
            + msg.homeserver@ + "/client-to-server/"@ + "general-remote-request"@ + "/"@
            + msg.protocol@,
        msg.did_msg.payload matches MsgType::RemoteRequestTo(_, _) ==> r@ == "http://"@
            + msg.homeserver@ + "/client-to-server/"@ + "remote-request-to"@ + "/"@
            + msg.protocol@,
        msg.did_msg.payload matches MsgType::RemoteSendTo(_, _) ==> r@ == "http://"@
            + msg.homeserver@ + "/client-to-server/"@ + "remote-send-to"@ + "/"@ + msg.protocol@,
{
    let mut endpoint = "http://".to_owned();
    endpoint.append(msg.homeserver.0.as_str());
    endpoint.append("/client-to-server/");
    endpoint.append(route(&msg.did_msg.payload));
    endpoint.append("/");
    let ghost head = endpoint@;
    endpoint.append(msg.protocol.0.as_str());
    proof {
        reveal_strlit("/");
        lemma_ends_with_slash_and(head, msg.protocol@);
    }
    endpoint
}

/// The last `tail.len()` characters of `head + tail` are `tail`, and the one
/// before them is `head`'s last.
proof fn lemma_ends_with_slash_and(head: Seq<char>, tail: Seq<char>)
    requires
        head.len() > 0,
        head.last() == '/',
    ensures
        (head + tail).len() > tail.len(),
        (head + tail).skip((head + tail).len() - tail.len()) == tail,
        (head + tail)[(head + tail).len() - tail.len() - 1] == '/',
{
    assert((head + tail).skip((head + tail).len() - tail.len()) =~= tail);
}

/// Every URL that a request goes to ends with `/` and then its whole protocol
/// name, whatever that name is.
pub proof fn lemma_endpoint_ends_with_protocol(msg: Msg)
    ensures
        ({
            let e = endpoint_of(msg);
            &&& e.len() > msg.protocol@.len()
            &&& e.skip(e.len() - msg.protocol@.len()) == msg.protocol@
            &&& e[e.len() - msg.protocol@.len() - 1] == '/'
        }),
{
    reveal_strlit("/");
    let head = "http://"@ + msg.homeserver@ + "/client-to-server/"@ + route_name(msg.did_msg.payload)
        + "/"@;
    assert(head.last() == '/');
    lemma_ends_with_slash_and(head, msg.protocol@);
    assert(endpoint_of(msg) == head + msg.protocol@);
}

/// The path segment of a request depends on its kind alone, never on what it
/// carries: each kind has its own fixed segment.
pub proof fn lemma_route_depends_on_kind_only(
    payload: Payload,
    did: Did,
    did_msg: DidMsg<Payload>,
)
    ensures
        route_name(MsgType::PopQueue) == "pop-queue"@,
        route_name(MsgType::Local(payload)) == "local"@,
        route_name(MsgType::GeneralRemoteRequest(payload)) == "general-remote-request"@,
        route_name(MsgType::RemoteRequestTo(did, payload)) == "remote-request-to"@,
        route_name(MsgType::RemoteSendTo(did, did_msg)) == "remote-send-to"@,
{
}

/// Two requests of the same kind go to the same path segment.
pub proof fn lemma_same_kind_same_route(
    to1: Did,
    msg1: DidMsg<Payload>,
    to2: Did,
    msg2: DidMsg<Payload>,
    payload1: Payload,
    payload2: Payload,
)
    ensures
        route_name(MsgType::RemoteSendTo(to1, msg1)) == route_name(MsgType::RemoteSendTo(to2, msg2)),
        route_name(MsgType::RemoteRequestTo(to1, payload1)) == route_name(
            MsgType::RemoteRequestTo(to2, payload2),
        ),
        route_name(MsgType::Local(payload1)) == route_name(MsgType::Local(payload2)),
        route_name(MsgType::GeneralRemoteRequest(payload1)) == route_name(
            MsgType::GeneralRemoteRequest(payload2),
        ),
{
}

/// The request with which the user `did` pops their queue of `protocol` at `homeserver`.
pub fn read_queue_request(homeserver: Homeserver, protocol: Protocol, did: Did) -> (r: Msg)
    ensures
        r.homeserver == homeserver,
        r.protocol == protocol,
        r.did_msg.payload == MsgType::PopQueue,
        r.did_msg.did == did,
{
    Msg { homeserver, did_msg: ClientDidMsg { payload: MsgType::PopQueue, did }, protocol }
}

/// The homeserver answered a request with an answer of another kind.
#[derive(Debug, PartialEq, Eq)]
pub struct WrongResponse;

/// The message that the homeserver's answer to a pop hands out, if the answer
/// is one to a pop.
pub fn read_queue_response(response: Response) -> (r: Result<Option<DidMsg<Payload>>, WrongResponse>)
    ensures
        match response {
            Response::Queue(maybe_did_msg) => r == Ok::<Option<DidMsg<Payload>>, WrongResponse>(
                maybe_did_msg,
            ),
            _ => r is Err,
        },
{
    match response {
        Response::Queue(maybe_did_msg) => Ok(maybe_did_msg),
        _ => Err(WrongResponse),
    }
}

} // verus!
