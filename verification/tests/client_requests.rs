use did_messaging::client::non_standard::{add_user_endpoint, add_user_homeserver_mapping_endpoint};
use did_messaging::client::{msg_to_endpoint, read_queue_request, read_queue_response, WrongResponse};
use did_messaging::common::client_to_server::{Msg, MsgType, Response};
use did_messaging::common::{Did, DidMsg, Homeserver, Protocol};

fn msg_of(payload: MsgType) -> Msg {
    Msg {
        homeserver: Homeserver("127.0.0.1:3000".to_string()),
        protocol: Protocol("idk".to_string()),
        did_msg: DidMsg { payload, did: Did("malek".to_string()) },
    }
}

#[test]
fn endpoint_of_each_kind_of_request() {
    let cases = vec![
        (MsgType::PopQueue, "pop-queue"),
        (MsgType::Local(vec![1]), "local"),
        (MsgType::GeneralRemoteRequest(vec![]), "general-remote-request"),
        (MsgType::RemoteRequestTo(Did("bob".to_string()), vec![]), "remote-request-to"),
        (
            MsgType::RemoteSendTo(
                Did("bob".to_string()),
                DidMsg { payload: vec![], did: Did("malek".to_string()) },
            ),
            "remote-send-to",
        ),
    ];
    for (payload, route) in cases {
        assert_eq!(
            msg_to_endpoint(&msg_of(payload)),
            format!("http://127.0.0.1:3000/client-to-server/{}/idk", route)
        );
    }
}

#[test]
fn read_queue_request_pops_the_users_queue() {
    let msg = read_queue_request(
        Homeserver("127.0.0.1:3000".to_string()),
        Protocol("idk".to_string()),
        Did("malek".to_string()),
    );
    assert_eq!(msg, msg_of(MsgType::PopQueue));
    assert_eq!(msg_to_endpoint(&msg), "http://127.0.0.1:3000/client-to-server/pop-queue/idk");
}

#[test]
fn queue_response_hands_out_its_message() {
    let m = DidMsg { payload: vec![7, 8], did: Did("bob".to_string()) };
    assert_eq!(read_queue_response(Response::Queue(Some(m.clone()))), Ok(Some(m)));
    assert_eq!(read_queue_response(Response::Queue(None)), Ok(None));
}

#[test]
fn other_responses_are_wrong_for_a_pop() {
    assert_eq!(read_queue_response(Response::Local(vec![1])), Err(WrongResponse));
    assert_eq!(read_queue_response(Response::default()), Err(WrongResponse));
}

#[test]
fn administrative_endpoints() {
    let h = Homeserver("127.0.0.1:3000".to_string());
    assert_eq!(add_user_endpoint(&h), "http://127.0.0.1:3000/add-user");
    assert_eq!(
        add_user_homeserver_mapping_endpoint(&h),
        "http://127.0.0.1:3000/add-user-homeserver-mapping"
    );
}
