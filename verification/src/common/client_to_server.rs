//! Requests that a client sends to its homeserver, and the answers.

use vstd::prelude::*;

use crate::common::{Did, DidMsg, Homeserver, Payload, Protocol};

verus! {

/// A request body: what is asked, signed by the asking client.
pub type ClientDidMsg = DidMsg<MsgType>;

/// The homeserver's answer to a client.
#[derive(Eq, PartialEq, Ord, PartialOrd, Clone, Hash, Debug)]
pub enum Response {
    Local(Payload),
    Queue(Option<DidMsg<Payload>>),
    RemoteImmediate(ClientDidMsg),
}

impl Default for Response {
    fn default() -> (r: Self)
        ensures
            r matches Response::Local(p) && p@.len() == 0,
    {
        Response::Local(Vec::new())
    }
}

/// A client's request, with the homeserver it goes to and its protocol.
#[derive(Eq, PartialEq, Ord, PartialOrd, Clone, Hash, Debug)]
pub struct Msg {
    pub homeserver: Homeserver,
    pub protocol: Protocol,
    pub did_msg: ClientDidMsg,
}

/// What a client asks of its homeserver.
#[derive(Eq, PartialEq, Ord, PartialOrd, Clone, Hash, Debug)]
pub enum MsgType {
    PopQueue,
    Local(Payload),
    GeneralRemoteRequest(Payload),
    RemoteRequestTo(Did, Payload),
    RemoteSendTo(Did, DidMsg<Payload>),
}

} // verus!
