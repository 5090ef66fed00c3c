# did_messaging

Messaging between users named by decentralized identifiers (DIDs). Each user
has a homeserver; a homeserver keeps, for each registered user and each
application protocol, a queue of waiting messages, and forwards messages for
users of other homeservers.

- `src/` is the verified library:
  - `common`: the request and answer types of clients and homeservers;
  - `server`: the homeserver's tables (`Clients`, `HomeserverMappings`) and what
    it does with each request, with the laws of its queues;
  - `client`: the URLs and requests a client sends, and how it reads answers;
  - `client_direct_message_sdk`, `direct_message`: the direct-message protocol;
  - `did_integrity`: `did:key` identifiers (read with the `multibase` crate),
    documents and chains of identifiers;
  - `str_map`: the string-keyed map under the homeserver's tables.
- `app/` is the HTTP homeserver (axum) and the HTTP client calls (reqwest),
  with the JSON forms of the library's types (serde).
- `tests/` exercises the library.
