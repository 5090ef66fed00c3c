//! The homeserver's state: the registered users with their message queues,
//! and the homeserver that serves each known user.

use vstd::prelude::*;

use crate::common::non_standard::{AddHomeServerMapping, AddUser};
use crate::common::{Did, DidMsg, Homeserver, Payload, Protocol};
use crate::str_map::StrMap;

pub mod client_to_server;
pub mod server_to_server;

verus! {

/// The queues of one user, by protocol.
pub type Inbox = Map<Seq<char>, Seq<DidMsg<Payload>>>;

/// The registered users, by identifier, each with their queues.
pub type Registry = Map<Seq<char>, Inbox>;

/// The queue of `protocol` in `inbox`; a protocol with no queue yet has an empty one.
pub open spec fn queue_of(inbox: Inbox, protocol: Seq<char>) -> Seq<DidMsg<Payload>> {
    if inbox.contains_key(protocol) {
        inbox[protocol]
    } else {
        Seq::empty()
    }
}

/// The queue of `protocol` for the user `did`.
pub open spec fn user_queue(reg: Registry, did: Seq<char>, protocol: Seq<char>) -> Seq<
    DidMsg<Payload>,
> {
    queue_of(reg[did], protocol)
}

/// `reg` once `msg` is appended to the queue of `protocol` of the user `did`.
pub open spec fn after_push(
    reg: Registry,
    did: Seq<char>,
    protocol: Seq<char>,
    msg: DidMsg<Payload>,
) -> Registry {
    reg.insert(did, reg[did].insert(protocol, queue_of(reg[did], protocol).push(msg)))
}

/// What popping the queue of `protocol` of the user `did` hands out: its last message.
pub open spec fn popped(reg: Registry, did: Seq<char>, protocol: Seq<char>) -> Option<
    DidMsg<Payload>,
> {
    let q = user_queue(reg, did, protocol);
    if q.len() == 0 {
        None
    } else {
        Some(q.last())
    }
}

/// `reg` once the queue of `protocol` of the user `did` is popped; that queue exists afterwards.
pub open spec fn after_pop(reg: Registry, did: Seq<char>, protocol: Seq<char>) -> Registry {
    let q = user_queue(reg, did, protocol);
    reg.insert(did, reg[did].insert(protocol, if q.len() == 0 { q } else { q.drop_last() }))
}

/// The messages waiting for one user, by protocol name.
pub struct ClientData {
    msg_to_read: StrMap<Vec<DidMsg<Payload>>>,
}

impl ClientData {
    #[verifier::type_invariant]
    spec fn inv(self) -> bool {
        self.msg_to_read.wf()
    }

    /// Appends `msg` to the queue of `protocol`.
    fn push(&mut self, protocol: &String, msg: DidMsg<Payload>)
        ensures
            final(self)@ == old(self)@.insert(protocol@, queue_of(old(self)@, protocol@).push(msg)),
    {
        proof {
            use_type_invariant(&*self);
        }
        let mut table = StrMap::new();
        core::mem::swap(&mut self.msg_to_read, &mut table);
        let mut queue = match table.remove(protocol) {
            Some(q) => q,
            None => Vec::new(),
        };
        queue.push(msg);
        table.insert(protocol.clone(), queue);
        self.msg_to_read = table;
        assert(self@ =~= old(self)@.insert(protocol@, queue_of(old(self)@, protocol@).push(msg)));
    }

    /// Removes and hands back the last message of the queue of `protocol`;
    /// the queue is created empty where there was none.
    fn pop(&mut self, protocol: &String) -> (r: Option<DidMsg<Payload>>)
        ensures
            ({
                let q = queue_of(old(self)@, protocol@);
                &&& r == (if q.len() == 0 {
                    None::<DidMsg<Payload>>
                } else {
                    Some(q.last())
                })
                &&& final(self)@ == old(self)@.insert(
                    protocol@,
                    if q.len() == 0 {
                        q
                    } else {
                        q.drop_last()
                    },
                )
            }),
    {
        proof {
            use_type_invariant(&*self);
        }
        let mut table = StrMap::new();
        core::mem::swap(&mut self.msg_to_read, &mut table);
        let mut queue = match table.remove(protocol) {
            Some(q) => q,
            None => Vec::new(),
        };
        let ghost q0 = queue@;
        let r = queue.pop();
        table.insert(protocol.clone(), queue);
        self.msg_to_read = table;
        assert(self@ =~= old(self)@.insert(
            protocol@,
            if q0.len() == 0 {
                q0
            } else {
                q0.drop_last()
            },
        ));
        r
    }
}

impl View for ClientData {
    type V = Inbox;

    closed spec fn view(&self) -> Inbox {
        self.msg_to_read@.map_values(|q: Vec<DidMsg<Payload>>| q@)
    }
}

impl Default for ClientData {
    /// A user with no messages waiting.
    fn default() -> (r: Self)
        ensures
            r@ == Inbox::empty(),
    {
        let r = ClientData { msg_to_read: StrMap::new() };
        assert(r@ =~= Inbox::empty());
        r
    }
}

/// The users registered with this homeserver.
pub struct Clients {
    map: StrMap<ClientData>,
}

impl Clients {
    #[verifier::type_invariant]
    spec fn inv(self) -> bool {
        self.map.wf()
    }

    /// No user registered.
    pub fn new() -> (r: Self)
        ensures
            r@ == Registry::empty(),
    {
        let r = Clients { map: StrMap::new() };
        assert(r@ =~= Registry::empty());
        r
    }

    pub fn contains(&self, did: &Did) -> (r: bool)
        ensures
            r == self@.contains_key(did@),
    {
        proof {
            use_type_invariant(self);
        }
        self.map.contains_key(&did.0)
    }

    /// Registers `did` with no messages waiting; a user that was registered
    /// already loses the messages that waited for them.
    pub fn register(&mut self, did: Did)
        ensures
            final(self)@ == old(self)@.insert(did@, Inbox::empty()),
    {
        proof {
            use_type_invariant(&*self);
        }
        let ghost d = did@;
        let data = ClientData::default();
        let ghost cd = data;
        let mut table = StrMap::new();
        core::mem::swap(&mut self.map, &mut table);
        table.insert(did.0, data);
        self.map = table;
        assert(self@ =~= old(self)@.insert(d, Inbox::empty())) by {
            assert(cd@ == Inbox::empty());
        }
    }

    /// Appends `msg` to the queue of `protocol` of the registered user `did`.
    pub fn push_message(&mut self, did: &Did, protocol: &Protocol, msg: DidMsg<Payload>)
        requires
            old(self)@.contains_key(did@),
        ensures
            final(self)@ == after_push(old(self)@, did@, protocol@, msg),
    {
        proof {
            use_type_invariant(&*self);
        }
        let mut table = StrMap::new();
        core::mem::swap(&mut self.map, &mut table);
        let mut data = match table.remove(&did.0) {
            Some(d) => d,
            None => vstd::pervasive::unreached(),
        };
        data.push(&protocol.0, msg);
        table.insert(did.0.clone(), data);
        self.map = table;
        assert(self@ =~= after_push(old(self)@, did@, protocol@, msg));
    }

    /// Removes and hands back the newest message of the queue of `protocol`
    /// of the registered user `did`.
    pub fn pop_message(&mut self, did: &Did, protocol: &Protocol) -> (r: Option<DidMsg<Payload>>)
        requires
            old(self)@.contains_key(did@),
        ensures
            r == popped(old(self)@, did@, protocol@),
            final(self)@ == after_pop(old(self)@, did@, protocol@),
    {
        proof {
            use_type_invariant(&*self);
        }
        let mut table = StrMap::new();
        core::mem::swap(&mut self.map, &mut table);
        let mut data = match table.remove(&did.0) {
            Some(d) => d,
            None => vstd::pervasive::unreached(),
        };
        let r = data.pop(&protocol.0);
        table.insert(did.0.clone(), data);
        self.map = table;
        assert(self@ =~= after_pop(old(self)@, did@, protocol@));
        r
    }
}

impl View for Clients {
    type V = Registry;

    closed spec fn view(&self) -> Registry {
        self.map@.map_values(|c: ClientData| c@)
    }
}

impl Default for Clients {
    fn default() -> (r: Self)
        ensures
            r@ == Registry::empty(),
    {
        Clients::new()
    }
}

/// The homeserver of each user known to this homeserver.
pub struct HomeserverMappings {
    map: StrMap<Homeserver>,
}

impl HomeserverMappings {
    #[verifier::type_invariant]
    spec fn inv(self) -> bool {
        self.map.wf()
    }

    /// No user known.
    pub fn new() -> (r: Self)
        ensures
            r@ == Map::<Seq<char>, Seq<char>>::empty(),
    {
        let r = HomeserverMappings { map: StrMap::new() };
        assert(r@ =~= Map::<Seq<char>, Seq<char>>::empty());
        r
    }

    /// Records that `homeserver` serves `did`, replacing what was recorded.
    pub fn insert(&mut self, did: Did, homeserver: Homeserver)
        ensures
            final(self)@ == old(self)@.insert(did@, homeserver@),
    {
        proof {
            use_type_invariant(&*self);
        }
        let ghost d = did@;
        let ghost h = homeserver@;
        let mut table = StrMap::new();
        core::mem::swap(&mut self.map, &mut table);
        table.insert(did.0, homeserver);
        self.map = table;
        assert(self@ =~= old(self)@.insert(d, h));
    }

    /// The homeserver recorded for `did`.
    pub fn get(&self, did: &Did) -> (r: Option<&Homeserver>)
        ensures
            match r {
                Some(h) => self@.contains_key(did@) && h@ == self@[did@],
                None => !self@.contains_key(did@),
            },
    {
        proof {
            use_type_invariant(self);
        }
        self.map.get(&did.0)
    }
}

impl View for HomeserverMappings {
    type V = Map<Seq<char>, Seq<char>>;

    closed spec fn view(&self) -> Map<Seq<char>, Seq<char>> {
        self.map@.map_values(|h: Homeserver| h@)
    }
}

impl Default for HomeserverMappings {
    fn default() -> (r: Self)
        ensures
            r@ == Map::<Seq<char>, Seq<char>>::empty(),
    {
        HomeserverMappings::new()
    }
}

/// Registers the user named in the request, with no messages waiting.
pub fn add_user(clients: &mut Clients, add_user: AddUser)
    ensures
        final(clients)@ == old(clients)@.insert(add_user.did@, Inbox::empty()),
{
    clients.register(add_user.did);
}

/// Records the homeserver named in the request for the user named in it.
pub fn add_user_homeserver_mapping(
    homeserver_mappings: &mut HomeserverMappings,
    homeserver_mapping: AddHomeServerMapping,
)
    ensures
        final(homeserver_mappings)@ == old(homeserver_mappings)@.insert(
            homeserver_mapping.did@,
            homeserver_mapping.homeserver@,
        ),
{
    homeserver_mappings.insert(homeserver_mapping.did, homeserver_mapping.homeserver);
}

/// A message handed to a user's queue is the next one popped from it, and the
/// pop leaves the user's queues as they were before the push (the queue now
/// existing, empty where there was none).
pub proof fn lemma_pop_returns_last_pushed(
    reg: Registry,
    did: Seq<char>,
    protocol: Seq<char>,
    msg: DidMsg<Payload>,
)
    requires
        reg.contains_key(did),
    ensures
        popped(after_push(reg, did, protocol, msg), did, protocol) == Some(msg),
        after_pop(after_push(reg, did, protocol, msg), did, protocol) == reg.insert(
            did,
            reg[did].insert(protocol, queue_of(reg[did], protocol)),
        ),
{
    let pushed = after_push(reg, did, protocol, msg);
    let q = queue_of(reg[did], protocol);
    assert(user_queue(pushed, did, protocol) == q.push(msg));
    assert(q.push(msg).drop_last() =~= q);
    assert(pushed[did].insert(protocol, q) =~= reg[did].insert(protocol, q));
    assert(after_pop(pushed, did, protocol) =~= reg.insert(did, reg[did].insert(protocol, q)));
}

/// Queues are last in, first out: of two messages pushed in turn to one
/// queue, the later is popped first, then the earlier.
pub proof fn lemma_pops_newest_first(
    reg: Registry,
    did: Seq<char>,
    protocol: Seq<char>,
    first: DidMsg<Payload>,
    second: DidMsg<Payload>,
)
    requires
        reg.contains_key(did),
    ensures
        ({
            let both = after_push(after_push(reg, did, protocol, first), did, protocol, second);
            &&& popped(both, did, protocol) == Some(second)
            &&& popped(after_pop(both, did, protocol), did, protocol) == Some(first)
        }),
{
    let one = after_push(reg, did, protocol, first);
    lemma_pop_returns_last_pushed(one, did, protocol, second);
    let back = after_pop(after_push(one, did, protocol, second), did, protocol);
    assert(user_queue(back, did, protocol) == queue_of(one[did], protocol));
}

/// Pushing to one queue changes no other queue and registers no user.
pub proof fn lemma_push_changes_only_its_queue(
    reg: Registry,
    did: Seq<char>,
    protocol: Seq<char>,
    msg: DidMsg<Payload>,
    other_did: Seq<char>,
    other_protocol: Seq<char>,
)
    requires
        reg.contains_key(did),
        reg.contains_key(other_did),
        other_did != did || other_protocol != protocol,
    ensures
        after_push(reg, did, protocol, msg).dom() == reg.dom(),
        user_queue(after_push(reg, did, protocol, msg), other_did, other_protocol) == user_queue(
            reg,
            other_did,
            other_protocol,
        ),
{
    assert(after_push(reg, did, protocol, msg).dom() =~= reg.dom());
}

/// Popping one queue changes no other queue and registers no user.
pub proof fn lemma_pop_changes_only_its_queue(
    reg: Registry,
    did: Seq<char>,
    protocol: Seq<char>,
    other_did: Seq<char>,
    other_protocol: Seq<char>,
)
    requires
        reg.contains_key(did),
        reg.contains_key(other_did),
        other_did != did || other_protocol != protocol,
    ensures
        after_pop(reg, did, protocol).dom() == reg.dom(),
        user_queue(after_pop(reg, did, protocol), other_did, other_protocol) == user_queue(
            reg,
            other_did,
            other_protocol,
        ),
{
    assert(after_pop(reg, did, protocol).dom() =~= reg.dom());
}

/// A freshly registered user has nothing waiting in any queue.
pub proof fn lemma_new_user_has_no_messages(reg: Registry, did: Seq<char>, protocol: Seq<char>)
    ensures
        popped(reg.insert(did, Inbox::empty()), did, protocol) == None::<DidMsg<Payload>>,
{
}

} // verus!
