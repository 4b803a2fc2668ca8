use tendermint_wire::base64::b64_decode;
use tendermint_wire::base64::b64_encode;
use tendermint_wire::decimal::dec_decode;
use tendermint_wire::decimal::dec_decode_or_default;
use tendermint_wire::decimal::dec_encode;
use tendermint_wire::hex::hex_decode;
use tendermint_wire::hex::hex_encode;
use tendermint_wire::nullable::nullable_decode;
use tendermint_wire::nullable::nullable_encode;
use tendermint_wire::nullable::optional_decode;
use tendermint_wire::Error;

#[test]
fn hex_round_trip_including_empty() {
    for bytes in [vec![], vec![0x00u8], vec![0xAA, 0xBB], vec![1, 2, 3, 255, 0, 16]] {
        let text = hex_encode(&bytes);
        assert_eq!(hex_decode(&text), Ok(bytes));
    }
}

#[test]
fn hex_encode_exact_values() {
    assert_eq!(hex_encode(&vec![]), "");
    assert_eq!(hex_encode(&vec![0xAA, 0xBB]), "aabb");
    assert_eq!(hex_encode(&vec![0x01, 0x2F]), "012f");
}

#[test]
fn hex_decode_accepts_uppercase() {
    assert_eq!(hex_decode("AABB"), Ok(vec![0xAA, 0xBB]));
}

#[test]
fn hex_decode_rejects_bad_input() {
    assert_eq!(hex_decode("0g"), Err(Error::InvalidEncoding));
    assert_eq!(hex_decode("abc"), Err(Error::InvalidEncoding));
    assert_eq!(hex_decode(" aa"), Err(Error::InvalidEncoding));
}

#[test]
fn base64_round_trip_including_empty() {
    for bytes in [
        vec![],
        vec![1u8],
        vec![1, 2],
        vec![1, 2, 3],
        vec![1, 2, 3, 4],
        vec![1, 2, 3, 4, 5],
        vec![255, 0, 128, 64, 32, 16, 8],
    ] {
        let text = b64_encode(&bytes);
        assert_eq!(b64_decode(&text), Ok(bytes));
    }
}

#[test]
fn base64_encode_exact_values() {
    assert_eq!(b64_encode(&vec![]), "");
    assert_eq!(b64_encode(&vec![1, 2, 3]), "AQID");
    assert_eq!(b64_encode(&vec![b'M']), "TQ==");
    assert_eq!(b64_encode(&vec![b'M', b'a']), "TWE=");
    assert_eq!(b64_encode(&vec![b'M', b'a', b'n']), "TWFu");
}

#[test]
fn base64_decode_rejects_bad_input() {
    assert_eq!(b64_decode("A"), Err(Error::InvalidEncoding));
    assert_eq!(b64_decode("AQI"), Err(Error::InvalidEncoding));
    assert_eq!(b64_decode("A?ID"), Err(Error::InvalidEncoding));
    assert_eq!(b64_decode("=AQI"), Err(Error::InvalidEncoding));
    // non-canonical padding bits
    assert_eq!(b64_decode("TR=="), Err(Error::InvalidEncoding));
    // padding in a non-final group
    assert_eq!(b64_decode("TQ==AQID"), Err(Error::InvalidEncoding));
}

#[test]
fn decimal_round_trip() {
    for n in [0u64, 1, 9, 10, 42, 65536, u64::MAX] {
        let text = dec_encode(n);
        assert_eq!(dec_decode(&text), Ok(n));
    }
}

#[test]
fn decimal_encode_exact_values() {
    assert_eq!(dec_encode(0), "0");
    assert_eq!(dec_encode(4), "4");
    assert_eq!(dec_encode(1234567890), "1234567890");
    assert_eq!(dec_encode(u64::MAX), "18446744073709551615");
}

#[test]
fn decimal_decode_rejects_non_numeric() {
    assert_eq!(dec_decode(""), Err(Error::InvalidEncoding));
    assert_eq!(dec_decode("12a"), Err(Error::InvalidEncoding));
    assert_eq!(dec_decode("-1"), Err(Error::InvalidEncoding));
    assert_eq!(dec_decode(" 1"), Err(Error::InvalidEncoding));
}

#[test]
fn decimal_decode_rejects_out_of_range() {
    // one past the 64-bit maximum
    assert_eq!(dec_decode("18446744073709551616"), Err(Error::Overflow));
    assert_eq!(dec_decode("99999999999999999999999"), Err(Error::Overflow));
    // an overflowing numeral with a stray letter is malformed, not overflowing
    assert_eq!(dec_decode("99999999999999999999x"), Err(Error::InvalidEncoding));
}

#[test]
fn decimal_decode_with_default() {
    assert_eq!(dec_decode_or_default(None), Ok(0));
    let four = String::from("4");
    assert_eq!(dec_decode_or_default(Some(&four)), Ok(4));
    let bad = String::from("x");
    assert_eq!(dec_decode_or_default(Some(&bad)), Err(Error::InvalidEncoding));
}

#[test]
fn nullable_collapses_empty_to_absent() {
    assert_eq!(nullable_encode(vec![]), None);
    assert_eq!(nullable_decode(None), Vec::<Vec<u8>>::new());
}

#[test]
fn nullable_keeps_non_empty_order_and_count() {
    let txs = vec![vec![1u8, 2, 3], vec![], vec![9u8]];
    let encoded = nullable_encode(txs.clone());
    assert_eq!(encoded, Some(txs.clone()));
    assert_eq!(nullable_decode(encoded), txs);
}

#[test]
fn optional_substitutes_default_when_absent() {
    assert_eq!(optional_decode(None, 7), 7);
    assert_eq!(optional_decode(Some(3), 7), 3);
}
