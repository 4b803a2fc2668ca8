//! The domain model and the wire-level records it converts with.
//!
//! `Data` is the stable, version-independent domain type. `RawData` models
//! the structural decode of the binary wire message: fields that the wire
//! can omit are options, and a repeated field is a plain list (an absent
//! repeated field and an empty one are the same wire state). `TextData`
//! models the structural text encoding used by RPC surfaces, where every
//! field is text and may be absent.

use vstd::prelude::*;

verus! {

/// The set of transactions and commitments in one block, as application
/// code sees it. No field is nullable: absence is resolved into a default
/// or an empty container during conversion, never left ambiguous here.
#[derive(Clone, Debug, PartialEq, Eq)]
pub struct Data {
    /// Transactions, in block order.
    pub txs: Vec<Vec<u8>>,
    /// Width of the data square the transactions were arranged into.
    pub square_size: u64,
    /// Hash of the block data.
    pub hash: Vec<u8>,
}

/// The mathematical value of a `Data`.
pub ghost struct DataModel {
    pub txs: Seq<Seq<u8>>,
    pub square_size: u64,
    pub hash: Seq<u8>,
}

impl View for Data {
    type V = DataModel;

    open spec fn view(&self) -> DataModel {
        DataModel { txs: self.txs.deep_view(), square_size: self.square_size, hash: self.hash@ }
    }
}

/// A byte vector's deep view is its view: the two coincide on sequences
/// of primitives.
pub broadcast proof fn lemma_bytes_deep_view(v: Vec<u8>)
    ensures
        #[trigger] v.deep_view() == v@,
{
    assert(v.deep_view() =~= v@);
}

/// The structural decode of the binary wire message for a block-data
/// entity. Owned transiently during conversion and never held long-term.
#[derive(Clone, Debug, PartialEq, Eq)]
pub struct RawData {
    /// Repeated wire field: empty and absent are the same wire state.
    pub txs: Vec<Vec<u8>>,
    /// Varint wire field; `None` models absence on the wire.
    pub square_size: Option<u64>,
    /// Bytes wire field; `None` models absence on the wire.
    pub hash: Option<Vec<u8>>,
}

/// The mathematical value of a `RawData`.
pub ghost struct RawDataModel {
    pub txs: Seq<Seq<u8>>,
    pub square_size: Option<u64>,
    pub hash: Option<Seq<u8>>,
}

impl View for RawData {
    type V = RawDataModel;

    open spec fn view(&self) -> RawDataModel {
        RawDataModel {
            txs: self.txs.deep_view(),
            square_size: self.square_size,
            hash: self.hash.deep_view(),
        }
    }
}

/// The structural text encoding of a block-data entity, as an RPC surface
/// labels it: transactions as a nullable array of base64 text, the square
/// size as quoted decimal text, the hash as hex text. `None` models an
/// absent field.
#[derive(Clone, Debug, PartialEq, Eq)]
pub struct TextData {
    /// Nullable array of base64-encoded transactions.
    pub txs: Option<Vec<String>>,
    /// Quoted-decimal square size.
    pub square_size: Option<String>,
    /// Hex-encoded hash.
    pub hash: Option<String>,
}

/// The mathematical value of a `TextData`.
pub ghost struct TextDataModel {
    pub txs: Option<Seq<Seq<char>>>,
    pub square_size: Option<Seq<char>>,
    pub hash: Option<Seq<char>>,
}

impl View for TextData {
    type V = TextDataModel;

    open spec fn view(&self) -> TextDataModel {
        TextDataModel {
            txs: self.txs.deep_view(),
            square_size: self.square_size.deep_view(),
            hash: self.hash.deep_view(),
        }
    }
}

} // verus!
