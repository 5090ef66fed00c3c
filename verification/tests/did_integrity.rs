use did_messaging::did_integrity::asymmetric::{PublicKey, Signature};
use did_messaging::did_integrity::did::key::{DidKey as KeyDidKey, ParseError};
use did_messaging::did_integrity::did::{Did, DidChain, DidKey, DidWeb, RootDid};

fn web(s: &str) -> Did {
    Did::Web(DidWeb(s.to_string()))
}

fn sig(s: &str) -> Signature {
    Signature(s.to_string())
}

#[test]
fn chain_needs_a_signature_per_child() {
    assert!(DidChain::new(RootDid(web("root")), vec![web("a")], vec![]).is_none());
    assert!(DidChain::new(RootDid(web("root")), vec![], vec![sig("s")]).is_none());
}

#[test]
fn chain_without_children_ends_at_its_root() {
    let chain = DidChain::new(RootDid(web("root")), vec![], vec![]).unwrap();
    assert_eq!(chain.root(), &RootDid(web("root")));
    assert_eq!(chain.leaf(), &web("root"));
    assert_eq!(chain.len(), 1);
}

#[test]
fn chain_leaf_is_its_last_child() {
    let chain = DidChain::new(
        RootDid(web("root")),
        vec![web("a"), web("b")],
        vec![sig("sa"), sig("sb")],
    )
    .unwrap();
    assert_eq!(chain.root(), &RootDid(web("root")));
    assert_eq!(chain.leaf(), &web("b"));
    assert_eq!(chain.len(), 3);
}

#[test]
fn textual_did_key_resolves_to_itself() {
    let doc = DidKey("zCn8eVZg".to_string()).resolve();
    assert_eq!(doc.did, Did::Key(DidKey("zCn8eVZg".to_string())));
    assert_eq!(doc.pubkey, PublicKey("zCn8eVZg".to_string()));
}

#[test]
fn did_key_is_parsed() {
    let k: KeyDidKey = "did:key:zCn8eVZg".parse().unwrap();
    assert_eq!(format!("{:?}", k), "DidKey([104, 101, 108, 108, 111])");
}

#[test]
fn did_key_needs_did_schema() {
    assert!(matches!("dad:key:zCn8eVZg".parse::<KeyDidKey>(), Err(ParseError::WrongSchema)));
    assert!(matches!("".parse::<KeyDidKey>(), Err(ParseError::WrongSchema)));
}

#[test]
fn did_key_needs_key_method() {
    assert!(matches!("did:web:zCn8eVZg".parse::<KeyDidKey>(), Err(ParseError::WrongMethod)));
    assert!(matches!("did:".parse::<KeyDidKey>(), Err(ParseError::WrongMethod)));
}

#[test]
fn did_key_needs_multibase() {
    assert!(matches!("did:key:".parse::<KeyDidKey>(), Err(ParseError::NotMultibase(_))));
    assert!(matches!("did:key:?abc".parse::<KeyDidKey>(), Err(ParseError::NotMultibase(_))));
    assert!(matches!("did:key:z0OIl".parse::<KeyDidKey>(), Err(ParseError::NotMultibase(_))));
}

#[test]
fn did_key_needs_base58btc() {
    // "hello" in lower-case hexadecimal multibase
    assert!(matches!("did:key:f68656c6c6f".parse::<KeyDidKey>(), Err(ParseError::NotBase58Btc)));
}

#[test]
fn resolved_did_key_parses_back() {
    let k: KeyDidKey = "did:key:zCn8eVZg".parse().unwrap();
    let doc = k.resolve();
    assert_eq!(doc.did, Did::Key(DidKey("zCn8eVZg".to_string())));
    assert_eq!(doc.pubkey, PublicKey("zCn8eVZg".to_string()));
    let again: KeyDidKey = format!("did:key:{}", doc.pubkey.0).parse().unwrap();
    assert_eq!(again, k);
}
