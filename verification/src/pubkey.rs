//! The public-key sum type and its externally tagged text encoding.
//!
//! The text form is a type+value envelope: the tag names the variant
//! under its registered wire label (the `Rename` directives of the
//! registry) and the value is base64 text. Decoding dispatches on the
//! tag and fails with `Error::UnknownVariant` for a tag this protocol
//! version does not recognize; encoding is total over all variants.

use vstd::prelude::*;
use vstd::string::StringExecFns;

use crate::base64::b64_decode;
use crate::base64::b64_encode;
use crate::base64::b64_of;
use crate::base64::bytes_of_b64;
use crate::error::Error;

verus! {

/// A validator public key, by signature scheme.
#[derive(Clone, Debug, PartialEq, Eq)]
pub enum PublicKey {
    Ed25519(Vec<u8>),
    Secp256k1(Vec<u8>),
    Sr25519(Vec<u8>),
}

/// The mathematical value of a `PublicKey`.
pub ghost enum PublicKeyModel {
    Ed25519(Seq<u8>),
    Secp256k1(Seq<u8>),
    Sr25519(Seq<u8>),
}

impl View for PublicKey {
    type V = PublicKeyModel;

    open spec fn view(&self) -> PublicKeyModel {
        match self {
            PublicKey::Ed25519(b) => PublicKeyModel::Ed25519(b@),
            PublicKey::Secp256k1(b) => PublicKeyModel::Secp256k1(b@),
            PublicKey::Sr25519(b) => PublicKeyModel::Sr25519(b@),
        }
    }
}

/// The externally tagged text envelope of a public key.
#[derive(Clone, Debug, PartialEq, Eq)]
pub struct TextPublicKey {
    /// The variant's registered wire label.
    pub tag: String,
    /// The key bytes as base64 text.
    pub value: String,
}

/// The mathematical value of a `TextPublicKey`.
pub ghost struct TextPublicKeyModel {
    pub tag: Seq<char>,
    pub value: Seq<char>,
}

impl View for TextPublicKey {
    type V = TextPublicKeyModel;

    open spec fn view(&self) -> TextPublicKeyModel {
        TextPublicKeyModel { tag: self.tag@, value: self.value@ }
    }
}

/// The registered wire label of the ed25519 variant.
pub open spec fn ed25519_tag() -> Seq<char> {
    "tendermint/PubKeyEd25519"@
}

/// The registered wire label of the secp256k1 variant.
pub open spec fn secp256k1_tag() -> Seq<char> {
    "tendermint/PubKeySecp256k1"@
}

/// The registered wire label of the sr25519 variant.
pub open spec fn sr25519_tag() -> Seq<char> {
    "tendermint/PubKeySr25519"@
}

/// What encoding a public key to its text envelope returns: the
/// variant's registered label and the key bytes as base64 text.
pub open spec fn encode_key_spec(k: PublicKeyModel) -> TextPublicKeyModel {
    match k {
        PublicKeyModel::Ed25519(b) => TextPublicKeyModel { tag: ed25519_tag(), value: b64_of(b) },
        PublicKeyModel::Secp256k1(b) => TextPublicKeyModel {
            tag: secp256k1_tag(),
            value: b64_of(b),
        },
        PublicKeyModel::Sr25519(b) => TextPublicKeyModel { tag: sr25519_tag(), value: b64_of(b) },
    }
}

/// What decoding a text envelope returns: tagged dispatch on the label,
/// `UnknownVariant` for an unrecognized label, `InvalidEncoding` for a
/// recognized label whose value is not canonical base64.
pub open spec fn decode_key_spec(t: TextPublicKeyModel) -> Result<PublicKeyModel, Error> {
    if t.tag == ed25519_tag() {
        match bytes_of_b64(t.value) {
            Some(b) => Ok(PublicKeyModel::Ed25519(b)),
            None => Err(Error::InvalidEncoding),
        }
    } else if t.tag == secp256k1_tag() {
        match bytes_of_b64(t.value) {
            Some(b) => Ok(PublicKeyModel::Secp256k1(b)),
            None => Err(Error::InvalidEncoding),
        }
    } else if t.tag == sr25519_tag() {
        match bytes_of_b64(t.value) {
            Some(b) => Ok(PublicKeyModel::Sr25519(b)),
            None => Err(Error::InvalidEncoding),
        }
    } else {
        Err(Error::UnknownVariant)
    }
}

/// Encode a public key into its externally tagged text envelope. Total
/// over all variants.
pub fn encode_public_key(k: &PublicKey) -> (t: TextPublicKey)
    ensures
        t@ == encode_key_spec(k@),
{
    match k {
        PublicKey::Ed25519(b) => TextPublicKey {
            tag: String::from_str("tendermint/PubKeyEd25519"),
            value: b64_encode(b),
        },
        PublicKey::Secp256k1(b) => TextPublicKey {
            tag: String::from_str("tendermint/PubKeySecp256k1"),
            value: b64_encode(b),
        },
        PublicKey::Sr25519(b) => TextPublicKey {
            tag: String::from_str("tendermint/PubKeySr25519"),
            value: b64_encode(b),
        },
    }
}

/// Decode an externally tagged text envelope into a public key,
/// dispatching on the tag.
pub fn decode_public_key(t: &TextPublicKey) -> (r: Result<PublicKey, Error>)
    ensures
        match r {
            Ok(k) => decode_key_spec(t@) == Ok::<PublicKeyModel, Error>(k@),
            Err(e) => decode_key_spec(t@) == Err::<PublicKeyModel, Error>(e),
        },
{
    let ed = String::from_str("tendermint/PubKeyEd25519");
    let secp = String::from_str("tendermint/PubKeySecp256k1");
    let sr = String::from_str("tendermint/PubKeySr25519");
    if t.tag == ed {
        match b64_decode(t.value.as_str()) {
            Ok(b) => Ok(PublicKey::Ed25519(b)),
            Err(e) => Err(e),
        }
    } else if t.tag == secp {
        match b64_decode(t.value.as_str()) {
            Ok(b) => Ok(PublicKey::Secp256k1(b)),
            Err(e) => Err(e),
        }
    } else if t.tag == sr {
        match b64_decode(t.value.as_str()) {
            Ok(b) => Ok(PublicKey::Sr25519(b)),
            Err(e) => Err(e),
        }
    } else {
        Err(Error::UnknownVariant)
    }
}

/// Decoding inverts encoding on every public key: the three registered
/// labels are pairwise distinct, so tagged dispatch recovers the variant,
/// and base64 decoding recovers the key bytes.
pub proof fn lemma_key_round_trip(k: PublicKeyModel)
    ensures
        decode_key_spec(encode_key_spec(k)) == Ok::<PublicKeyModel, Error>(k),
{
    reveal_strlit("tendermint/PubKeyEd25519");
    reveal_strlit("tendermint/PubKeySecp256k1");
    reveal_strlit("tendermint/PubKeySr25519");
    assert(ed25519_tag().len() == 24);
    assert(secp256k1_tag().len() == 26);
    assert(sr25519_tag().len() == 24);
    assert(ed25519_tag()[17] == 'E');
    assert(sr25519_tag()[17] == 'S');
    assert(ed25519_tag() != sr25519_tag());
    assert(ed25519_tag() != secp256k1_tag());
    assert(sr25519_tag() != secp256k1_tag());
    match k {
        PublicKeyModel::Ed25519(b) => {
            crate::base64::lemma_b64_round_trip(b);
        },
        PublicKeyModel::Secp256k1(b) => {
            crate::base64::lemma_b64_round_trip(b);
        },
        PublicKeyModel::Sr25519(b) => {
            crate::base64::lemma_b64_round_trip(b);
        },
    }
}

} // verus!
