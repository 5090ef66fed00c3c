use did_messaging::client_direct_message_sdk::Client;
use did_messaging::common::{Did, Homeserver, Protocol};

#[test]
fn direct_messages_travel_under_their_protocol() {
    assert_eq!(Client::protocol(), Protocol("direct-message".to_string()));
}

#[test]
fn client_new_keeps_its_fields() {
    let c = Client::new(
        Homeserver("127.0.0.1:3000".to_string()),
        Did("malek".to_string()),
        "Malek".to_string(),
    );
    assert_eq!(c.homeserver, Homeserver("127.0.0.1:3000".to_string()));
    assert_eq!(c.did, Did("malek".to_string()));
    assert_eq!(c.username, "Malek");
}
