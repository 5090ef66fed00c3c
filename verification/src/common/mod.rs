//! Types exchanged between clients and homeservers.

use vstd::prelude::*;

pub mod client_to_server;
pub mod non_standard;
pub mod server_to_server;

verus! {

/// The bytes that a message carries.
pub type Payload = Vec<u8>;

/// A payload tagged with the decentralized identifier of its sender.
#[derive(Eq, PartialEq, Ord, PartialOrd, Clone, Hash, Debug)]
pub struct DidMsg<GenericPayload> {
    pub payload: GenericPayload,
    pub did: Did,
}

/// A decentralized identifier, kept as its textual form.
#[derive(Eq, PartialEq, Ord, PartialOrd, Clone, Hash, Debug)]
pub struct Did(pub String);

/// The name of an application protocol; each protocol has its own queue.
#[derive(Eq, PartialEq, Ord, PartialOrd, Clone, Hash, Debug)]
pub struct Protocol(pub String);

/// The address (`host:port`) of a homeserver.
#[derive(Eq, PartialEq, Ord, PartialOrd, Clone, Hash, Debug)]
pub struct Homeserver(pub String);

/// A URL that a request is sent to.
#[derive(Eq, PartialEq, Ord, PartialOrd, Clone, Hash, Debug)]
pub struct Endpoint(pub String);

impl View for Did {
    type V = Seq<char>;

    open spec fn view(&self) -> Seq<char> {
        self.0@
    }
}

impl View for Protocol {
    type V = Seq<char>;

    open spec fn view(&self) -> Seq<char> {
        self.0@
    }
}

impl View for Homeserver {
    type V = Seq<char>;

    open spec fn view(&self) -> Seq<char> {
        self.0@
    }
}

impl View for Endpoint {
    type V = Seq<char>;

    open spec fn view(&self) -> Seq<char> {
        self.0@
    }
}

impl Endpoint {
    pub fn new(endpoint: String) -> (r: Self)
        ensures
            r.0 == endpoint,
    {
        Self(endpoint)
    }
}

impl Did {
    /// The identifier as text.
    pub fn to_string(&self) -> (r: String)
        ensures
            r@ == self@,
    {
        self.0.clone()
    }
}

impl Protocol {
    /// The protocol's name as text.
    pub fn to_string(&self) -> (r: String)
        ensures
            r@ == self@,
    {
        self.0.clone()
    }
}

impl Homeserver {
    /// The homeserver's address as text.
    pub fn to_string(&self) -> (r: String)
        ensures
            r@ == self@,
    {
        self.0.clone()
    }
}

} // verus!
