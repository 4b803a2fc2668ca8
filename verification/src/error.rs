//! Error kinds produced by field decoders and conversion modules.

use vstd::prelude::*;

verus! {

/// Why a wire-to-domain conversion failed.
///
/// Conversions fail fast: the first field whose decode fails determines the
/// error, and no partial domain value is ever produced.
#[derive(Clone, Copy, Debug, PartialEq, Eq, Structural)]
pub enum Error {
    /// Malformed hex, base64 or decimal text.
    InvalidEncoding,
    /// A decoded integer exceeds the target type's range.
    Overflow,
    /// A wire field is absent and no default-fill directive applies.
    MissingRequiredField,
    /// A sum-type discriminant is not recognized by this protocol version.
    UnknownVariant,
}

} // verus!
