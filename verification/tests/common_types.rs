use did_messaging::common::client_to_server::Response;
use did_messaging::common::{Did, Endpoint, Homeserver, Protocol};

#[test]
fn endpoint_new_keeps_the_url() {
    let e = Endpoint::new("http://127.0.0.1:3000".to_string());
    assert_eq!(e.0, "http://127.0.0.1:3000");
}

#[test]
fn default_response_is_an_empty_local_payload() {
    assert_eq!(Response::default(), Response::Local(vec![]));
}

#[test]
fn names_display_as_their_text() {
    assert_eq!(Did("malek".to_string()).to_string(), "malek");
    assert_eq!(Protocol("idk".to_string()).to_string(), "idk");
    assert_eq!(Homeserver("127.0.0.1:3000".to_string()).to_string(), "127.0.0.1:3000");
}
