//! `did:key` identifiers: a public key encoded in multibase base58btc.

use vstd::prelude::*;

use crate::did_integrity::asymmetric::PublicKey;
use crate::did_integrity::did::DidDocument;

verus! {

#[verifier::external_type_specification]
#[verifier::external_body]
pub struct ExMultibaseError(multibase::Error);

/// What `multibase::decode` yields for `input`: the decoded bytes, or nothing
/// where `input` is empty, begins with no known base code, or is no valid text
/// in the base that its first character names.
pub uninterp spec fn multibase_decoded(input: Seq<char>) -> Option<Seq<u8>>;

/// What `multibase::encode` yields for `data` in base58btc.
pub uninterp spec fn multibase_base58btc_encoding(data: Seq<u8>) -> Seq<char>;

/// Calls `multibase::decode`. Claimed: it succeeds exactly where the named
/// result has bytes, and then hands back those bytes with the code of the base
/// that it decoded from, which is the first character of `input` (the source
/// reads that character, looks the base up by it, and `Base::code` gives it back).
#[verifier::external_body]
fn multibase_decode(input: &str) -> (r: Result<(char, Vec<u8>), multibase::Error>)
    ensures
        r is Ok <==> multibase_decoded(input@) is Some,
        r matches Ok((code, bytes)) ==> input@.len() > 0 && code == input@[0]
            && bytes@ == multibase_decoded(input@)->Some_0,
{
    match multibase::decode(input) {
        Ok((base, bytes)) => Ok((base.code(), bytes)),
        Err(e) => Err(e),
    }
}

/// Calls `multibase::encode` with `Base::Base58Btc`. Claimed: the text begins
/// with the base58btc code `z` (the source prepends the base's code), and
/// `multibase::decode` gives `data` back from it (base58 encoding loses nothing).
#[verifier::external_body]
fn multibase_encode_base58btc(data: &[u8]) -> (r: String)
    ensures
        r@ == multibase_base58btc_encoding(data@),
        r@.len() > 0,
        r@[0] == 'z',
        multibase_decoded(r@) == Some(data@),
{
    multibase::encode(multibase::Base::Base58Btc, data)
}

/// Why a text is no `did:key`.
#[derive(Debug)]
pub enum ParseError {
    /// must be did: schema
    WrongSchema,
    /// must be did:key method
    WrongMethod,
    /// did:key: must be followed by a multibase encoded string
    NotMultibase(multibase::Error),
    /// the multibase encoding must be Base58Btc
    NotBase58Btc,
}

/// `did:`
pub open spec fn did_schema() -> Seq<char> {
    seq!['d', 'i', 'd', ':']
}

/// `key:`
pub open spec fn key_method() -> Seq<char> {
    seq!['k', 'e', 'y', ':']
}

pub open spec fn starts_with(s: Seq<char>, prefix: Seq<char>) -> bool {
    prefix.len() <= s.len() && s.take(prefix.len() as int) == prefix
}

/// `did:key:`
pub open spec fn did_key_prefix() -> Seq<char> {
    seq!['d', 'i', 'd', ':', 'k', 'e', 'y', ':']
}

/// What reading a text as a `did:key` comes to.
pub enum KeyParse {
    WrongSchema,
    WrongMethod,
    NotMultibase,
    NotBase58Btc,
    Key(Seq<u8>),
}

/// A `did:key` is `did:key:` followed by the multibase base58btc encoding of the key.
pub open spec fn parse_did_key(s: Seq<char>) -> KeyParse {
    if !starts_with(s, did_schema()) {
        KeyParse::WrongSchema
    } else if !starts_with(s.skip(4), key_method()) {
        KeyParse::WrongMethod
    } else {
        let encoded = s.skip(8);
        match multibase_decoded(encoded) {
            None => KeyParse::NotMultibase,
            Some(bytes) => if encoded.len() > 0 && encoded[0] == 'z' {
                KeyParse::Key(bytes)
            } else {
                KeyParse::NotBase58Btc
            },
        }
    }
}

/// `s` without `prefix`, where `s` begins with `prefix`.
fn strip_prefix<'a>(s: &'a str, prefix: &str) -> (r: Option<&'a str>)
    ensures
        match r {
            Some(rest) => starts_with(s@, prefix@) && rest@ == s@.skip(prefix@.len() as int),
            None => !starts_with(s@, prefix@),
        },
{
    let n = s.unicode_len();
    let m = prefix.unicode_len();
    if m > n {
        return None;
    }
    let mut i: usize = 0;
    while i < m
        invariant
            n == s@.len(),
            m == prefix@.len(),
            m <= n,
            i <= m,
            forall|j: int| 0 <= j < i ==> s@[j] == prefix@[j],
        decreases m - i,
    {
        if s.get_char(i) != prefix.get_char(i) {
            assert(s@.take(m as int)[i as int] != prefix@[i as int]);
            return None;
        }
        i = i + 1;
    }
    assert(s@.take(m as int) =~= prefix@);
    let rest = s.substring_char(m, n);
    assert(rest@ =~= s@.skip(m as int));
    Some(rest)
}

/// Must be a valid `did:key`: holds the decoded key.
#[derive(Debug, Eq, PartialEq)]
pub struct DidKey(Vec<u8>);

impl DidKey {
    /// The bytes of the key.
    pub closed spec fn key_bytes(&self) -> Seq<u8> {
        self.0@
    }

    /// Resolves the key to its document. This is possible without any IO, as a
    /// `did:key` is self-describing: the identifier is the base58btc
    /// multibase encoding of the key.
    pub fn resolve(&self) -> (doc: DidDocument)
        ensures
            doc.did matches super::Did::Key(k) && k.0@ == multibase_base58btc_encoding(
                self.key_bytes(),
            ),
            doc.pubkey.0@ == multibase_base58btc_encoding(self.key_bytes()),
            doc.pubkey.0@.len() > 0 && doc.pubkey.0@[0] == 'z',
            multibase_decoded(doc.pubkey.0@) == Some(self.key_bytes()),
    {
        let encoded = multibase_encode_base58btc(self.0.as_slice());
        let pubkey = PublicKey(encoded.clone());
        DidDocument { did: super::Did::Key(super::DidKey(encoded)), pubkey }
    }
}

impl core::str::FromStr for DidKey {
    type Err = ParseError;

    /// Reads `s` as a `did:key`.
    fn from_str(s: &str) -> (r: Result<Self, Self::Err>)
        ensures
            match parse_did_key(s@) {
                KeyParse::WrongSchema => r matches Err(ParseError::WrongSchema),
                KeyParse::WrongMethod => r matches Err(ParseError::WrongMethod),
                KeyParse::NotMultibase => r matches Err(ParseError::NotMultibase(_)),
                KeyParse::NotBase58Btc => r matches Err(ParseError::NotBase58Btc),
                KeyParse::Key(bytes) => r matches Ok(k) && k.key_bytes() == bytes,
            },
            r matches Ok(k) ==> starts_with(s@, did_key_prefix()) && s@.len() > 8 && s@[8] == 'z'
                && multibase_decoded(s@.skip(8)) == Some(k.key_bytes()),
            starts_with(s@, did_key_prefix()) && s@.len() > 8 && s@[8] != 'z'
                && multibase_decoded(s@.skip(8)) is Some ==> r matches Err(ParseError::NotBase58Btc),
    {
        proof {
            lemma_parse_outcome_by_input(s@);
            reveal_strlit("did:");
            reveal_strlit("key:");
            assert("did:"@ =~= did_schema());
            assert("key:"@ =~= key_method());
        }
        let after_schema = match strip_prefix(s, "did:") {
            Some(rest) => rest,
            None => {
                return Err(ParseError::WrongSchema);
            },
        };
        let encoded = match strip_prefix(after_schema, "key:") {
            Some(rest) => rest,
            None => {
                return Err(ParseError::WrongMethod);
            },
        };
        assert(encoded@ =~= s@.skip(8));
        match multibase_decode(encoded) {
            Err(e) => Err(ParseError::NotMultibase(e)),
            Ok((code, decoded)) => {
                if code != 'z' {
                    Err(ParseError::NotBase58Btc)
                } else {
                    Ok(DidKey(decoded))
                }
            },
        }
    }
}

/// A text is read as a key exactly when it is `did:key:` followed by
/// multibase text whose base code is base58btc's `z`; multibase text of any
/// other base is refused as not base58btc.
pub proof fn lemma_parse_outcome_by_input(s: Seq<char>)
    ensures
        parse_did_key(s) is Key ==> starts_with(s, did_key_prefix()) && s.len() > 8 && s[8] == 'z'
            && multibase_decoded(s.skip(8)) == Some(parse_did_key(s)->Key_0),
        starts_with(s, did_key_prefix()) && s.len() > 8 && s[8] != 'z' && multibase_decoded(
            s.skip(8),
        ) is Some ==> parse_did_key(s) == KeyParse::NotBase58Btc,
        starts_with(s, did_key_prefix()) && s.len() > 8 && s[8] == 'z' && multibase_decoded(
            s.skip(8),
        ) is Some ==> parse_did_key(s) == KeyParse::Key(multibase_decoded(s.skip(8))->Some_0),
{
    if starts_with(s, did_key_prefix()) {
        assert(s.take(4) =~= s.take(8).take(4));
        assert(s.skip(4).take(4) =~= s.take(8).skip(4));
        assert(did_key_prefix().take(4) =~= did_schema());
        assert(did_key_prefix().skip(4) =~= key_method());
        assert(starts_with(s, did_schema()));
        assert(starts_with(s.skip(4), key_method()));
    }
    if parse_did_key(s) is Key {
        assert(s.take(8) =~= did_schema() + key_method()) by {
            assert(s.take(8).take(4) =~= s.take(4));
            assert(s.take(8).skip(4) =~= s.skip(4).take(4));
            assert(s.take(8) =~= s.take(8).take(4) + s.take(8).skip(4));
        }
        assert(did_schema() + key_method() =~= did_key_prefix());
        assert(s.skip(8).len() > 0);
        assert(s.skip(8)[0] == s[8]);
    }
    if s.len() > 8 {
        assert(s.skip(8)[0] == s[8]);
    }
}

/// Every text `did:key:` + `e`, where `e` is multibase text in a base other
/// than base58btc, is refused as not base58btc.
pub proof fn lemma_other_bases_refused(e: Seq<char>)
    requires
        e.len() > 0,
        e[0] != 'z',
        multibase_decoded(e) is Some,
    ensures
        parse_did_key(did_key_prefix() + e) == KeyParse::NotBase58Btc,
{
    let s = did_key_prefix() + e;
    assert(s.take(8) =~= did_key_prefix());
    assert(s.skip(8) =~= e);
    lemma_parse_outcome_by_input(s);
}

/// Reading back `did:key:` followed by the base58btc multibase encoding of a
/// key gives that key: what `DidKey::resolve` writes, `DidKey::from_str` reads.
pub proof fn lemma_resolved_did_key_parses_back(encoded: Seq<char>, bytes: Seq<u8>)
    requires
        encoded.len() > 0,
        encoded[0] == 'z',
        multibase_decoded(encoded) == Some(bytes),
    ensures
        parse_did_key(did_schema() + key_method() + encoded) == KeyParse::Key(bytes),
{
    let s = did_schema() + key_method() + encoded;
    assert(s.take(4) =~= did_schema());
    assert(s.skip(4).take(4) =~= key_method());
    assert(s.skip(8) =~= encoded);
}

} // verus!
