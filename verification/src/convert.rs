//! Conversion between raw wire records and the domain model, driven by a
//! protocol version's schema registry.
//!
//! Decoding applies each field's directive set from the registry and fails
//! fast: the first field whose decode fails determines the error and no
//! partial domain value is produced. Encoding is total: the domain model
//! is constructed to always be representable on the wire.

use vstd::prelude::*;
use vstd::string::StringExecFns;

use crate::base64::b64_decode;
use crate::base64::b64_encode;
use crate::base64::b64_of;
use crate::base64::bytes_of_b64;
use crate::data::Data;
use crate::data::DataModel;
use crate::data::RawData;
use crate::data::RawDataModel;
use crate::data::TextData;
use crate::data::TextDataModel;
use crate::decimal::dec_decode;
use crate::decimal::dec_decode_result;
use crate::decimal::dec_encode;
use crate::decimal::dec_of;
use crate::error::Error;
use crate::hex::bytes_of_hex;
use crate::hex::hex_decode;
use crate::hex::hex_encode;
use crate::hex::hex_of;
use crate::registry::absent_field_ok;
use crate::registry::default_fill_applies;
use crate::registry::field_directives;
use crate::registry::lookup_directives;
use crate::registry::Registry;
use crate::registry::RegistryModel;

verus! {

broadcast use crate::data::lemma_bytes_deep_view;

/// The registry path of the transactions field of the block-data entity.
pub open spec fn data_txs_path() -> Seq<char> {
    ".tendermint.types.Data.txs"@
}

/// The registry path of the square-size field of the block-data entity.
pub open spec fn data_square_size_path() -> Seq<char> {
    ".tendermint.types.Data.square_size"@
}

/// The registry path of the hash field of the block-data entity.
pub open spec fn data_hash_path() -> Seq<char> {
    ".tendermint.types.Data.hash"@
}

fn txs_path_string() -> (s: String)
    ensures
        s@ == data_txs_path(),
{
    String::from_str(".tendermint.types.Data.txs")
}

fn square_size_path_string() -> (s: String)
    ensures
        s@ == data_square_size_path(),
{
    String::from_str(".tendermint.types.Data.square_size")
}

fn hash_path_string() -> (s: String)
    ensures
        s@ == data_hash_path(),
{
    String::from_str(".tendermint.types.Data.hash")
}

/// Whether the registry lets the named field be absent on the wire.
pub open spec fn field_may_be_absent(reg: RegistryModel, path: Seq<char>) -> bool {
    absent_field_ok(lookup_directives(reg.fields, path))
}

/// What decoding a raw wire record under the given registry returns:
/// an absent field is default-filled exactly when its directive set says
/// so, and fails with `MissingRequiredField` otherwise. Fields are decoded
/// in declaration order and the first failure wins.
pub open spec fn decode_wire_spec(reg: RegistryModel, raw: RawDataModel) -> Result<
    DataModel,
    Error,
> {
    if raw.square_size is None && !field_may_be_absent(reg, data_square_size_path()) {
        Err(Error::MissingRequiredField)
    } else if raw.hash is None && !field_may_be_absent(reg, data_hash_path()) {
        Err(Error::MissingRequiredField)
    } else {
        Ok(
            DataModel {
                txs: raw.txs,
                square_size: match raw.square_size {
                    Some(n) => n,
                    None => 0u64,
                },
                hash: match raw.hash {
                    Some(h) => h,
                    None => Seq::<u8>::empty(),
                },
            },
        )
    }
}

/// What encoding the domain model to a raw wire record returns: every
/// field is present, so encoding never fails and never depends on the
/// registry's defaulting directives.
pub open spec fn encode_wire_spec(d: DataModel) -> RawDataModel {
    RawDataModel { txs: d.txs, square_size: Some(d.square_size), hash: Some(d.hash) }
}

/// Decode a raw wire record into the domain model under the given
/// version's registry.
pub fn decode_wire(reg: &Registry, raw: RawData) -> (r: Result<Data, Error>)
    ensures
        match r {
            Ok(d) => decode_wire_spec(reg@, raw@) == Ok::<DataModel, Error>(d@),
            Err(e) => decode_wire_spec(reg@, raw@) == Err::<DataModel, Error>(e),
        },
{
    let RawData { txs, square_size, hash } = raw;
    let square_size: u64 = match square_size {
        Some(n) => n,
        None => {
            let may = match field_directives(reg, &square_size_path_string()) {
                Some(ds) => default_fill_applies(ds),
                None => false,
            };
            if !may {
                return Err(Error::MissingRequiredField);
            }
            0
        },
    };
    let hash: Vec<u8> = match hash {
        Some(h) => h,
        None => {
            let may = match field_directives(reg, &hash_path_string()) {
                Some(ds) => default_fill_applies(ds),
                None => false,
            };
            if !may {
                return Err(Error::MissingRequiredField);
            }
            let empty: Vec<u8> = Vec::new();
            proof {
                assert(empty@ =~= Seq::<u8>::empty());
            }
            empty
        },
    };
    Ok(Data { txs, square_size, hash })
}

/// Encode the domain model into a raw wire record. Total: every domain
/// value is representable on the wire.
pub fn encode_wire(d: Data) -> (r: RawData)
    ensures
        r@ == encode_wire_spec(d@),
{
    let Data { txs, square_size, hash } = d;
    let r = RawData { txs, square_size: Some(square_size), hash: Some(hash) };
    proof {
        assert(r@.txs =~= encode_wire_spec(d@).txs);
    }
    r
}

/// Decoding inverts encoding on the binary wire surface, under every
/// registry: an encoded domain value carries every field, so no defaulting
/// directive is consulted and the identical domain value comes back.
pub proof fn lemma_wire_round_trip(reg: RegistryModel, d: DataModel)
    ensures
        decode_wire_spec(reg, encode_wire_spec(d)) == Ok::<DataModel, Error>(d),
{
}

/// The byte sequences denoted by a list of base64 texts, or `None` if any
/// entry is not canonical base64.
pub open spec fn decode_b64_list(l: Seq<Seq<char>>) -> Option<Seq<Seq<u8>>>
    decreases l.len(),
{
    if l.len() == 0 {
        Some(Seq::<Seq<u8>>::empty())
    } else {
        match (bytes_of_b64(l[0]), decode_b64_list(l.skip(1))) {
            (Some(x), Some(rest)) => Some(seq![x] + rest),
            _ => None,
        }
    }
}

/// The base64 texts of a list of byte sequences, in order.
pub open spec fn encode_b64_list(l: Seq<Seq<u8>>) -> Seq<Seq<char>> {
    l.map_values(|t: Seq<u8>| b64_of(t))
}

/// Decoding inverts encoding on lists of base64 texts, order and count
/// kept exactly.
pub proof fn lemma_b64_list_round_trip(l: Seq<Seq<u8>>)
    ensures
        decode_b64_list(encode_b64_list(l)) == Some(l),
    decreases l.len(),
{
    if l.len() == 0 {
        assert(encode_b64_list(l).len() == 0);
    } else {
        lemma_b64_list_round_trip(l.skip(1));
        crate::base64::lemma_b64_round_trip(l[0]);
        let e = encode_b64_list(l);
        assert(e[0] == b64_of(l[0]));
        assert(e.skip(1) =~= encode_b64_list(l.skip(1)));
        assert(seq![l[0]] + l.skip(1) =~= l);
    }
}

/// What decoding the transactions text field returns: an absent field
/// expands to the empty list when the registry collapses it, each entry
/// is base64-decoded, and order and count are kept exactly.
pub open spec fn decode_txs_field(reg: RegistryModel, txs: Option<Seq<Seq<char>>>) -> Result<
    Seq<Seq<u8>>,
    Error,
> {
    match txs {
        None => if field_may_be_absent(reg, data_txs_path()) {
            Ok(Seq::<Seq<u8>>::empty())
        } else {
            Err(Error::MissingRequiredField)
        },
        Some(list) => match decode_b64_list(list) {
            Some(v) => Ok(v),
            None => Err(Error::InvalidEncoding),
        },
    }
}

/// What decoding the square-size text field returns: quoted decimal,
/// defaulting to zero on absence exactly when the registry says so.
pub open spec fn decode_square_field(reg: RegistryModel, s: Option<Seq<char>>) -> Result<
    u64,
    Error,
> {
    match s {
        None => if field_may_be_absent(reg, data_square_size_path()) {
            Ok(0u64)
        } else {
            Err(Error::MissingRequiredField)
        },
        Some(txt) => dec_decode_result(txt),
    }
}

/// What decoding the hash text field returns: hex text, with absence an
/// error unless the registry lets the field default.
pub open spec fn decode_hash_field(reg: RegistryModel, h: Option<Seq<char>>) -> Result<
    Seq<u8>,
    Error,
> {
    match h {
        None => if field_may_be_absent(reg, data_hash_path()) {
            Ok(Seq::<u8>::empty())
        } else {
            Err(Error::MissingRequiredField)
        },
        Some(txt) => match bytes_of_hex(txt) {
            Some(v) => Ok(v),
            None => Err(Error::InvalidEncoding),
        },
    }
}

/// What decoding a structural text record under the given registry
/// returns: fields are decoded in declaration order and the first failure
/// wins; no partial domain value is produced.
pub open spec fn decode_text_spec(reg: RegistryModel, t: TextDataModel) -> Result<
    DataModel,
    Error,
> {
    match decode_txs_field(reg, t.txs) {
        Err(e) => Err(e),
        Ok(txs) => match decode_square_field(reg, t.square_size) {
            Err(e) => Err(e),
            Ok(sq) => match decode_hash_field(reg, t.hash) {
                Err(e) => Err(e),
                Ok(h) => Ok(DataModel { txs: txs, square_size: sq, hash: h }),
            },
        },
    }
}

/// What encoding the domain model to structural text returns: an empty
/// transaction list collapses to an absent field, each transaction is
/// base64 text, the square size is quoted decimal, the hash is hex text.
pub open spec fn encode_text_spec(d: DataModel) -> TextDataModel {
    TextDataModel {
        txs: if d.txs.len() == 0 {
            None
        } else {
            Some(encode_b64_list(d.txs))
        },
        square_size: Some(dec_of(d.square_size as nat)),
        hash: Some(hex_of(d.hash)),
    }
}

/// Decode a structural text record into the domain model under the given
/// version's registry.
pub fn decode_text(reg: &Registry, t: &TextData) -> (r: Result<Data, Error>)
    ensures
        match r {
            Ok(d) => decode_text_spec(reg@, t@) == Ok::<DataModel, Error>(d@),
            Err(e) => decode_text_spec(reg@, t@) == Err::<DataModel, Error>(e),
        },
{
    let txs: Vec<Vec<u8>> = match &t.txs {
        None => {
            proof {
                assert(t@.txs is None);
            }
            let may = match field_directives(reg, &txs_path_string()) {
                Some(ds) => default_fill_applies(ds),
                None => false,
            };
            if !may {
                return Err(Error::MissingRequiredField);
            }
            let empty: Vec<Vec<u8>> = Vec::new();
            proof {
                assert(empty.deep_view() =~= Seq::<Seq<u8>>::empty());
            }
            empty
        },
        Some(list) => {
            let ghost lv = list.deep_view();
            proof {
                assert(t@.txs == Some(lv));
            }
            let mut out: Vec<Vec<u8>> = Vec::new();
            let mut i: usize = 0;
            proof {
                assert(lv.skip(0) =~= lv);
                match decode_b64_list(lv) {
                    Some(rest) => {
                        assert(out.deep_view() + rest =~= rest);
                    },
                    None => {},
                }
            }
            while i < list.len()
                invariant
                    i <= list@.len(),
                    lv == list.deep_view(),
                    t@.txs == Some(lv),
                    decode_b64_list(lv) == (match decode_b64_list(lv.skip(i as int)) {
                        Some(rest) => Some(out.deep_view() + rest),
                        None => None::<Seq<Seq<u8>>>,
                    }),
                decreases list@.len() - i,
            {
                proof {
                    assert(lv.skip(i as int)[0] == lv[i as int]);
                    assert(lv.skip(i as int).skip(1) =~= lv.skip(i as int + 1));
                    assert(lv[i as int] == list@[i as int]@);
                }
                let entry = match b64_decode(list[i].as_str()) {
                    Ok(v) => v,
                    Err(_) => {
                        proof {
                            assert(bytes_of_b64(lv[i as int]) is None);
                            assert(decode_b64_list(lv.skip(i as int)) is None);
                            assert(decode_b64_list(lv) is None);
                            assert(decode_txs_field(reg@, t@.txs) == Err::<Seq<Seq<u8>>, Error>(
                                Error::InvalidEncoding,
                            ));
                        }
                        return Err(Error::InvalidEncoding);
                    },
                };
                let ghost prev = out.deep_view();
                out.push(entry);
                proof {
                    assert(out.deep_view() =~= prev.push(entry@));
                    match decode_b64_list(lv.skip(i as int + 1)) {
                        Some(rest) => {
                            assert(prev + (seq![entry@] + rest) =~= out.deep_view() + rest);
                        },
                        None => {},
                    }
                }
                i += 1;
            }
            proof {
                assert(lv.skip(i as int) =~= Seq::<Seq<char>>::empty());
                assert(out.deep_view() + Seq::<Seq<u8>>::empty() =~= out.deep_view());
            }
            out
        },
    };
    let square_size: u64 = match &t.square_size {
        None => {
            proof {
                assert(t@.square_size is None);
            }
            let may = match field_directives(reg, &square_size_path_string()) {
                Some(ds) => default_fill_applies(ds),
                None => false,
            };
            if !may {
                return Err(Error::MissingRequiredField);
            }
            0
        },
        Some(txt) => {
            proof {
                assert(t@.square_size == Some(txt@));
            }
            match dec_decode(txt.as_str()) {
                Ok(v) => v,
                Err(e) => {
                    return Err(e);
                },
            }
        },
    };
    let hash: Vec<u8> = match &t.hash {
        None => {
            proof {
                assert(t@.hash is None);
            }
            let may = match field_directives(reg, &hash_path_string()) {
                Some(ds) => default_fill_applies(ds),
                None => false,
            };
            if !may {
                return Err(Error::MissingRequiredField);
            }
            let empty: Vec<u8> = Vec::new();
            proof {
                assert(empty@ =~= Seq::<u8>::empty());
            }
            empty
        },
        Some(txt) => {
            proof {
                assert(t@.hash == Some(txt@));
            }
            match hex_decode(txt.as_str()) {
                Ok(v) => v,
                Err(e) => {
                    return Err(e);
                },
            }
        },
    };
    Ok(Data { txs, square_size, hash })
}

/// Encode the domain model into a structural text record. Total.
pub fn encode_text(d: &Data) -> (t: TextData)
    ensures
        t@ == encode_text_spec(d@),
{
    let txs: Option<Vec<String>> = if d.txs.len() == 0 {
        proof {
            assert(d@.txs.len() == 0);
        }
        None
    } else {
        let ghost dv = d.txs.deep_view();
        let mut out: Vec<String> = Vec::new();
        let mut i: usize = 0;
        proof {
            assert(out.deep_view() =~= encode_b64_list(dv.take(0)));
        }
        while i < d.txs.len()
            invariant
                i <= d.txs@.len(),
                dv == d.txs.deep_view(),
                out.deep_view() == encode_b64_list(dv.take(i as int)),
            decreases d.txs@.len() - i,
        {
            let ghost prev = out.deep_view();
            let s = b64_encode(&d.txs[i]);
            out.push(s);
            proof {
                assert(dv[i as int] == d.txs@[i as int]@);
                assert(out.deep_view() =~= prev.push(s@));
                assert(prev.push(s@) =~= encode_b64_list(dv.take(i as int + 1)));
            }
            i += 1;
        }
        proof {
            assert(dv.take(dv.len() as int) =~= dv);
        }
        Some(out)
    };
    let square_size = Some(dec_encode(d.square_size));
    let hash = Some(hex_encode(&d.hash));
    TextData { txs, square_size, hash }
}

/// Decoding inverts encoding on the structural text surface, for every
/// registry that collapses an absent transactions field to the empty list
/// (without that directive an empty list cannot come back, since it
/// encodes to an absent field).
pub proof fn lemma_text_round_trip(reg: RegistryModel, d: DataModel)
    requires
        d.txs.len() == 0 ==> field_may_be_absent(reg, data_txs_path()),
    ensures
        decode_text_spec(reg, encode_text_spec(d)) == Ok::<DataModel, Error>(d),
{
    let t = encode_text_spec(d);
    if d.txs.len() == 0 {
        assert(decode_txs_field(reg, t.txs) == Ok::<Seq<Seq<u8>>, Error>(d.txs)) by {
            assert(Seq::<Seq<u8>>::empty() =~= d.txs);
        }
    } else {
        lemma_b64_list_round_trip(d.txs);
    }
    crate::decimal::lemma_dec_round_trip(d.square_size as nat);
    crate::hex::lemma_hex_round_trip(d.hash);
}

} // verus!
