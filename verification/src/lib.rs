//! Versioned wire-format <-> domain-model conversion layer for consensus
//! data structures: field encoders (hex, base64, quoted decimal, nullable
//! collapsing), a per-version schema registry of encoding directives, and
//! per-version conversion modules between raw wire records and the stable
//! domain types.

pub mod base64;
pub mod convert;
pub mod data;
pub mod decimal;
pub mod error;
pub mod hex;
pub mod nullable;
pub mod pubkey;
pub mod registry;
mod strutil;
pub mod v0_34;
pub mod v0_37;
pub mod version;

pub use data::Data;
pub use data::RawData;
pub use data::TextData;
pub use error::Error;
pub use pubkey::PublicKey;
pub use version::TendermintVersion;
