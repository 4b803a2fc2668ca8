//! Conversion module for the v0.34 protocol version.
//!
//! This version's registry lets an absent square-size field default to
//! zero (`Quoted` composed with `DefaultFill`): older payloads never
//! carried the field and must still decode.

use vstd::prelude::*;
use vstd::string::StringExecFns;

use crate::convert;
use crate::convert::data_hash_path;
use crate::convert::data_square_size_path;
use crate::convert::data_txs_path;
use crate::convert::decode_text_spec;
use crate::convert::decode_wire_spec;
use crate::convert::encode_text_spec;
use crate::convert::encode_wire_spec;
use crate::convert::field_may_be_absent;
use crate::data::Data;
use crate::data::DataModel;
use crate::data::RawData;
use crate::data::TextData;
use crate::error::Error;
use crate::registry::entry1;
use crate::registry::entry2;
use crate::registry::lookup_directives;
use crate::registry::directive_allows_absent;
use crate::registry::set_allows_absent;
use crate::registry::Directive;
use crate::registry::DirectiveModel;
use crate::registry::EntryModel;
use crate::registry::Registry;
use crate::registry::RegistryModel;

verus! {

/// The v0.34 schema registry: the declarative directive tables this
/// version's conversions follow.
pub open spec fn v0_34_table() -> RegistryModel {
    RegistryModel {
        types: seq![
            EntryModel {
                path: ".tendermint.types.Data"@,
                directives: seq![DirectiveModel::Serialized],
            },
            EntryModel {
                path: ".tendermint.crypto.PublicKey.sum"@,
                directives: seq![DirectiveModel::Serialized, DirectiveModel::TypeTagged],
            },
        ],
        fields: seq![
            EntryModel {
                path: ".tendermint.types.Data.txs"@,
                directives: seq![DirectiveModel::NullableArray],
            },
            EntryModel {
                path: ".tendermint.types.Data.square_size"@,
                directives: seq![DirectiveModel::Quoted, DirectiveModel::DefaultFill],
            },
            EntryModel {
                path: ".tendermint.types.Data.hash"@,
                directives: seq![DirectiveModel::HexText],
            },
            EntryModel {
                path: ".tendermint.crypto.PublicKey.sum.ed25519"@,
                directives: seq![
                    DirectiveModel::Rename("tendermint/PubKeyEd25519"@),
                    DirectiveModel::Base64Text,
                ],
            },
            EntryModel {
                path: ".tendermint.crypto.PublicKey.sum.secp256k1"@,
                directives: seq![
                    DirectiveModel::Rename("tendermint/PubKeySecp256k1"@),
                    DirectiveModel::Base64Text,
                ],
            },
            EntryModel {
                path: ".tendermint.crypto.PublicKey.sum.sr25519"@,
                directives: seq![
                    DirectiveModel::Rename("tendermint/PubKeySr25519"@),
                    DirectiveModel::Base64Text,
                ],
            },
            EntryModel {
                path: ".tendermint.types.Validator.voting_power"@,
                directives: seq![DirectiveModel::Alias("power"@), DirectiveModel::Quoted],
            },
            EntryModel {
                path: ".tendermint.types.ValidatorSet.total_voting_power"@,
                directives: seq![DirectiveModel::Skip],
            },
        ],
    }
}

/// Build the v0.34 registry. Built once, read-only afterwards.
pub fn registry() -> (r: Registry)
    ensures
        r@ == v0_34_table(),
{
    let mut types: Vec<crate::registry::RegistryEntry> = Vec::new();
    types.push(entry1(".tendermint.types.Data", Directive::Serialized));
    types.push(
        entry2(".tendermint.crypto.PublicKey.sum", Directive::Serialized, Directive::TypeTagged),
    );
    let mut fields: Vec<crate::registry::RegistryEntry> = Vec::new();
    fields.push(entry1(".tendermint.types.Data.txs", Directive::NullableArray));
    fields.push(
        entry2(".tendermint.types.Data.square_size", Directive::Quoted, Directive::DefaultFill),
    );
    fields.push(entry1(".tendermint.types.Data.hash", Directive::HexText));
    fields.push(
        entry2(
            ".tendermint.crypto.PublicKey.sum.ed25519",
            Directive::Rename(String::from_str("tendermint/PubKeyEd25519")),
            Directive::Base64Text,
        ),
    );
    fields.push(
        entry2(
            ".tendermint.crypto.PublicKey.sum.secp256k1",
            Directive::Rename(String::from_str("tendermint/PubKeySecp256k1")),
            Directive::Base64Text,
        ),
    );
    fields.push(
        entry2(
            ".tendermint.crypto.PublicKey.sum.sr25519",
            Directive::Rename(String::from_str("tendermint/PubKeySr25519")),
            Directive::Base64Text,
        ),
    );
    fields.push(
        entry2(
            ".tendermint.types.Validator.voting_power",
            Directive::Alias(String::from_str("power")),
            Directive::Quoted,
        ),
    );
    fields.push(entry1(".tendermint.types.ValidatorSet.total_voting_power", Directive::Skip));
    let r = Registry { types, fields };
    proof {
        assert(r@.types =~= v0_34_table().types);
        assert(r@.fields =~= v0_34_table().fields);
    }
    r
}

/// The field-level lookups this version's conversions depend on: the
/// transactions and square-size fields may be absent, the hash field may
/// not.
pub proof fn lemma_v0_34_lookups()
    ensures
        lookup_directives(v0_34_table().fields, data_txs_path()) == Some(
            seq![DirectiveModel::NullableArray],
        ),
        lookup_directives(v0_34_table().fields, data_square_size_path()) == Some(
            seq![DirectiveModel::Quoted, DirectiveModel::DefaultFill],
        ),
        lookup_directives(v0_34_table().fields, data_hash_path()) == Some(
            seq![DirectiveModel::HexText],
        ),
        field_may_be_absent(v0_34_table(), data_txs_path()),
        field_may_be_absent(v0_34_table(), data_square_size_path()),
        !field_may_be_absent(v0_34_table(), data_hash_path()),
{
    reveal_with_fuel(lookup_directives, 4);
    reveal_strlit(".tendermint.types.Data.txs");
    reveal_strlit(".tendermint.types.Data.square_size");
    reveal_strlit(".tendermint.types.Data.hash");
    assert(".tendermint.types.Data.txs"@.len() == 26);
    assert(".tendermint.types.Data.square_size"@.len() == 34);
    assert(".tendermint.types.Data.hash"@.len() == 27);
    assert(".tendermint.types.Data.txs"@ != ".tendermint.types.Data.square_size"@);
    assert(".tendermint.types.Data.txs"@ != ".tendermint.types.Data.hash"@);
    assert(".tendermint.types.Data.square_size"@ != ".tendermint.types.Data.hash"@);
    let flds = v0_34_table().fields;
    assert(flds.skip(1)[0] == flds[1]);
    assert(flds.skip(1).skip(1) =~= flds.skip(2));
    assert(flds.skip(2)[0] == flds[2]);
    assert(set_allows_absent(seq![DirectiveModel::NullableArray])) by {
        assert(seq![DirectiveModel::NullableArray][0] == DirectiveModel::NullableArray);
    }
    assert(set_allows_absent(seq![DirectiveModel::Quoted, DirectiveModel::DefaultFill])) by {
        assert(seq![DirectiveModel::Quoted, DirectiveModel::DefaultFill][1]
            == DirectiveModel::DefaultFill);
    }
    assert(!set_allows_absent(seq![DirectiveModel::HexText])) by {
        assert(forall|i: int|
            0 <= i < 1 ==> !directive_allows_absent(#[trigger] seq![DirectiveModel::HexText][i]));
    }
}

/// Decode this version's raw wire record into the domain model.
pub fn try_from_wire(raw: RawData) -> (r: Result<Data, Error>)
    ensures
        match r {
            Ok(d) => decode_wire_spec(v0_34_table(), raw@) == Ok::<DataModel, Error>(d@),
            Err(e) => decode_wire_spec(v0_34_table(), raw@) == Err::<DataModel, Error>(e),
        },
{
    let reg = registry();
    convert::decode_wire(&reg, raw)
}

/// Encode the domain model into this version's raw wire record. Total.
pub fn to_wire(d: Data) -> (r: RawData)
    ensures
        r@ == encode_wire_spec(d@),
{
    convert::encode_wire(d)
}

/// Decode this version's structural text record into the domain model.
pub fn try_from_text(t: &TextData) -> (r: Result<Data, Error>)
    ensures
        match r {
            Ok(d) => decode_text_spec(v0_34_table(), t@) == Ok::<DataModel, Error>(d@),
            Err(e) => decode_text_spec(v0_34_table(), t@) == Err::<DataModel, Error>(e),
        },
{
    let reg = registry();
    convert::decode_text(&reg, t)
}

/// Encode the domain model into this version's structural text record.
pub fn to_text(d: &Data) -> (t: TextData)
    ensures
        t@ == encode_text_spec(d@),
{
    convert::encode_text(d)
}

/// Round trip under this version: every domain value decodes back from
/// its own encoding, on the binary wire surface and on the text surface.
pub proof fn lemma_v0_34_round_trip(d: DataModel)
    ensures
        decode_wire_spec(v0_34_table(), encode_wire_spec(d)) == Ok::<DataModel, Error>(d),
        decode_text_spec(v0_34_table(), encode_text_spec(d)) == Ok::<DataModel, Error>(d),
{
    convert::lemma_wire_round_trip(v0_34_table(), d);
    lemma_v0_34_lookups();
    convert::lemma_text_round_trip(v0_34_table(), d);
}

} // verus!
