use did_messaging::common::client_to_server::{ClientDidMsg, Msg, MsgType, Response};
use did_messaging::common::non_standard::{AddHomeServerMapping, AddUser};
use did_messaging::common::server_to_server;
use did_messaging::common::{Did, DidMsg, Homeserver, Protocol};
use did_messaging::server::{
    add_user, add_user_homeserver_mapping, client_to_server, server_to_server as s2s, Clients,
    HomeserverMappings,
};

fn did(s: &str) -> Did {
    Did(s.to_string())
}

fn protocol(s: &str) -> Protocol {
    Protocol(s.to_string())
}

fn message(byte: u8, from: &str) -> DidMsg<Vec<u8>> {
    DidMsg { payload: vec![byte], did: did(from) }
}

fn registered(names: &[&str]) -> Clients {
    let mut clients = Clients::new();
    for n in names {
        add_user(&mut clients, AddUser { did: did(n) });
    }
    clients
}

#[test]
fn new_registry_knows_no_user() {
    let clients = Clients::default();
    assert!(!clients.contains(&did("malek")));
    let clients = registered(&["malek"]);
    assert!(clients.contains(&did("malek")));
    assert!(!clients.contains(&did("bob")));
}

#[test]
fn fresh_user_has_nothing_to_pop() {
    let mut clients = registered(&["malek"]);
    assert_eq!(clients.pop_message(&did("malek"), &protocol("idk")), None);
    assert_eq!(clients.pop_message(&did("malek"), &protocol("idk")), None);
}

#[test]
fn pushed_message_is_popped_back() {
    let mut clients = registered(&["malek"]);
    clients.push_message(&did("malek"), &protocol("dm"), message(1, "bob"));
    assert_eq!(clients.pop_message(&did("malek"), &protocol("dm")), Some(message(1, "bob")));
    assert_eq!(clients.pop_message(&did("malek"), &protocol("dm")), None);
}

#[test]
fn queues_pop_newest_first() {
    let mut clients = registered(&["malek"]);
    for b in 1..=3 {
        clients.push_message(&did("malek"), &protocol("dm"), message(b, "bob"));
    }
    for b in (1..=3).rev() {
        assert_eq!(clients.pop_message(&did("malek"), &protocol("dm")), Some(message(b, "bob")));
    }
    assert_eq!(clients.pop_message(&did("malek"), &protocol("dm")), None);
}

#[test]
fn queues_are_kept_apart_by_user_and_protocol() {
    let mut clients = registered(&["malek", "bob"]);
    clients.push_message(&did("malek"), &protocol("dm"), message(1, "x"));
    clients.push_message(&did("malek"), &protocol("other"), message(2, "x"));
    clients.push_message(&did("bob"), &protocol("dm"), message(3, "x"));
    assert_eq!(clients.pop_message(&did("bob"), &protocol("other")), None);
    assert_eq!(clients.pop_message(&did("malek"), &protocol("dm")), Some(message(1, "x")));
    assert_eq!(clients.pop_message(&did("bob"), &protocol("dm")), Some(message(3, "x")));
    assert_eq!(clients.pop_message(&did("malek"), &protocol("other")), Some(message(2, "x")));
}

#[test]
fn registering_again_drops_waiting_messages() {
    let mut clients = registered(&["malek"]);
    clients.push_message(&did("malek"), &protocol("dm"), message(1, "bob"));
    add_user(&mut clients, AddUser { did: did("malek") });
    assert_eq!(clients.pop_message(&did("malek"), &protocol("dm")), None);
}

#[test]
fn pop_queue_answers_with_the_queue() {
    let mut clients = registered(&["malek"]);
    let body = ClientDidMsg { payload: MsgType::PopQueue, did: did("malek") };
    assert_eq!(
        client_to_server::pop_queue(&mut clients, "idk".to_string(), body.clone()),
        Response::Queue(None)
    );
    clients.push_message(&did("malek"), &protocol("idk"), message(9, "bob"));
    assert_eq!(
        client_to_server::pop_queue(&mut clients, "idk".to_string(), body),
        Response::Queue(Some(message(9, "bob")))
    );
}

#[test]
fn forwarded_message_is_queued_for_its_recipient() {
    let mut clients = registered(&["malek"]);
    let forwarded = server_to_server::Msg {
        to_homeserver: Homeserver("127.0.0.1:3000".to_string()),
        to_did: did("malek"),
        did_msg: message(4, "bob"),
    };
    assert_eq!(
        s2s::remote_send_to(&mut clients, "dm".to_string(), forwarded),
        server_to_server::Response::MsgQueuedSuccessful
    );
    assert_eq!(clients.pop_message(&did("malek"), &protocol("dm")), Some(message(4, "bob")));
}

#[test]
fn remote_send_goes_to_the_recipients_homeserver() {
    let mut mappings = HomeserverMappings::default();
    add_user_homeserver_mapping(
        &mut mappings,
        AddHomeServerMapping { did: did("bob"), homeserver: Homeserver("old:1".to_string()) },
    );
    add_user_homeserver_mapping(
        &mut mappings,
        AddHomeServerMapping { did: did("bob"), homeserver: Homeserver("10.0.0.2:3000".to_string()) },
    );
    assert_eq!(mappings.get(&did("bob")), Some(&Homeserver("10.0.0.2:3000".to_string())));
    assert_eq!(mappings.get(&did("carol")), None);
    let msg = Msg {
        homeserver: Homeserver("127.0.0.1:3000".to_string()),
        protocol: protocol("dm"),
        did_msg: ClientDidMsg {
            payload: MsgType::RemoteSendTo(did("bob"), message(5, "malek")),
            did: did("malek"),
        },
    };
    let (forwarded, url) = client_to_server::remote_send_to(&mappings, msg);
    assert_eq!(
        forwarded,
        server_to_server::Msg {
            to_homeserver: Homeserver("10.0.0.2:3000".to_string()),
            to_did: did("bob"),
            did_msg: message(5, "malek"),
        }
    );
    assert_eq!(url, "10.0.0.2:3000/server-to-server/remote-send-to/dm");
}
