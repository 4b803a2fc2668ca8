use tendermint_wire::pubkey::decode_public_key;
use tendermint_wire::pubkey::encode_public_key;
use tendermint_wire::pubkey::TextPublicKey;
use tendermint_wire::registry::default_fill_applies;
use tendermint_wire::registry::field_directives;
use tendermint_wire::registry::type_directives;
use tendermint_wire::registry::Directive;
use tendermint_wire::v0_34;
use tendermint_wire::v0_37;
use tendermint_wire::version::tendermint_versions;
use tendermint_wire::Data;
use tendermint_wire::Error;
use tendermint_wire::PublicKey;
use tendermint_wire::RawData;
use tendermint_wire::TextData;

#[test]
fn scenario_one_wire_round_trip() {
    let d = Data { txs: vec![vec![1, 2, 3]], square_size: 4, hash: vec![0xAA, 0xBB] };
    let raw = v0_34::to_wire(d.clone());
    assert_eq!(
        raw,
        RawData {
            txs: vec![vec![1, 2, 3]],
            square_size: Some(4),
            hash: Some(vec![0xAA, 0xBB]),
        }
    );
    assert_eq!(v0_34::try_from_wire(raw), Ok(d));
}

#[test]
fn scenario_one_text_round_trip() {
    let d = Data { txs: vec![vec![1, 2, 3]], square_size: 4, hash: vec![0xAA, 0xBB] };
    let t = v0_34::to_text(&d);
    assert_eq!(
        t,
        TextData {
            txs: Some(vec![String::from("AQID")]),
            square_size: Some(String::from("4")),
            hash: Some(String::from("aabb")),
        }
    );
    assert_eq!(v0_34::try_from_text(&t), Ok(d));
}

#[test]
fn scenario_two_empty_data_round_trip() {
    let d = Data { txs: vec![], square_size: 0, hash: vec![] };
    let raw = v0_34::to_wire(d.clone());
    assert_eq!(raw.txs, Vec::<Vec<u8>>::new());
    assert_eq!(raw.hash, Some(vec![]));
    assert_eq!(v0_34::try_from_wire(raw), Ok(d.clone()));

    let t = v0_34::to_text(&d);
    assert_eq!(t.txs, None);
    assert_eq!(t.square_size, Some(String::from("0")));
    assert_eq!(t.hash, Some(String::from("")));
    assert_eq!(v0_34::try_from_text(&t), Ok(d));
}

#[test]
fn scenario_three_missing_square_size_diverges() {
    let raw = RawData { txs: vec![], square_size: None, hash: Some(vec![]) };
    assert_eq!(
        v0_34::try_from_wire(raw.clone()),
        Ok(Data { txs: vec![], square_size: 0, hash: vec![] })
    );
    assert_eq!(v0_37::try_from_wire(raw), Err(Error::MissingRequiredField));

    let t = TextData { txs: None, square_size: None, hash: Some(String::from("")) };
    assert_eq!(
        v0_34::try_from_text(&t),
        Ok(Data { txs: vec![], square_size: 0, hash: vec![] })
    );
    assert_eq!(v0_37::try_from_text(&t), Err(Error::MissingRequiredField));
}

#[test]
fn missing_hash_is_rejected_by_both_versions() {
    let raw = RawData { txs: vec![], square_size: Some(1), hash: None };
    assert_eq!(v0_34::try_from_wire(raw.clone()), Err(Error::MissingRequiredField));
    assert_eq!(v0_37::try_from_wire(raw), Err(Error::MissingRequiredField));
}

#[test]
fn text_decode_reports_first_error() {
    // invalid transactions come before an invalid square size
    let t = TextData {
        txs: Some(vec![String::from("!!")]),
        square_size: Some(String::from("x")),
        hash: Some(String::from("")),
    };
    assert_eq!(v0_34::try_from_text(&t), Err(Error::InvalidEncoding));
}

#[test]
fn text_decode_square_size_overflow() {
    let t = TextData {
        txs: None,
        square_size: Some(String::from("18446744073709551616")),
        hash: Some(String::from("")),
    };
    assert_eq!(v0_34::try_from_text(&t), Err(Error::Overflow));
}

#[test]
fn registries_differ_only_on_square_size_default() {
    let r34 = v0_34::registry();
    let r37 = v0_37::registry();
    let path = String::from(".tendermint.types.Data.square_size");
    let d34 = field_directives(&r34, &path).expect("v0.34 entry");
    let d37 = field_directives(&r37, &path).expect("v0.37 entry");
    assert_eq!(d34, &vec![Directive::Quoted, Directive::DefaultFill]);
    assert_eq!(d37, &vec![Directive::Quoted]);
    assert!(default_fill_applies(d34));
    assert!(!default_fill_applies(d37));
}

#[test]
fn registry_lookup_is_exact_match() {
    let r34 = v0_34::registry();
    assert!(field_directives(&r34, &String::from(".tendermint.types.Data")).is_none());
    assert!(field_directives(&r34, &String::from(".tendermint.types.Data.tx")).is_none());
    let txs = field_directives(&r34, &String::from(".tendermint.types.Data.txs"))
        .expect("txs entry");
    assert_eq!(txs, &vec![Directive::NullableArray]);
    let ty = type_directives(&r34, &String::from(".tendermint.crypto.PublicKey.sum"))
        .expect("type entry");
    assert_eq!(ty, &vec![Directive::Serialized, Directive::TypeTagged]);
}

#[test]
fn public_key_round_trip_all_variants() {
    for k in [
        PublicKey::Ed25519(vec![1, 2, 3]),
        PublicKey::Secp256k1(vec![]),
        PublicKey::Sr25519(vec![0xFF; 32]),
    ] {
        let t = encode_public_key(&k);
        assert_eq!(decode_public_key(&t), Ok(k));
    }
}

#[test]
fn public_key_tag_labels() {
    let t = encode_public_key(&PublicKey::Ed25519(vec![1, 2, 3]));
    assert_eq!(t.tag, "tendermint/PubKeyEd25519");
    assert_eq!(t.value, "AQID");
}

#[test]
fn public_key_unknown_variant() {
    let t = TextPublicKey {
        tag: String::from("tendermint/PubKeyBls12381"),
        value: String::from("AQID"),
    };
    assert_eq!(decode_public_key(&t), Err(Error::UnknownVariant));
}

#[test]
fn public_key_invalid_value() {
    let t = TextPublicKey {
        tag: String::from("tendermint/PubKeyEd25519"),
        value: String::from("!!"),
    };
    assert_eq!(decode_public_key(&t), Err(Error::InvalidEncoding));
}

#[test]
fn version_snapshots_are_pinned() {
    let v = tendermint_versions();
    assert_eq!(v.len(), 2);
    assert_eq!(v[0].repo, "https://github.com/celestiaorg/celestia-core");
    assert_eq!(v[0].ident, "v0_34");
    assert_eq!(v[0].commitish, "v0.34.x-celestia");
    assert_eq!(v[1].repo, "https://github.com/cometbft/cometbft");
    assert_eq!(v[1].ident, "v0_37");
    assert_eq!(v[1].commitish, "v0.37.0");
}
