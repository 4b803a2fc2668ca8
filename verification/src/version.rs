//! The protocol snapshots that raw wire types are generated from.
//!
//! The code-generation driver is given these pinned source locations
//! together with the schema registry; this crate only declares them.

use vstd::prelude::*;
use vstd::string::StringExecFns;

verus! {

/// Information on one protocol snapshot to generate raw wire structures
/// from.
#[derive(Clone, Debug, PartialEq, Eq)]
pub struct TendermintVersion {
    /// Repository URL.
    pub repo: String,
    /// Identifier to use in module names.
    pub ident: String,
    /// A commitish reference in the repository: a tag, a branch, or a
    /// full-length commit id.
    pub commitish: String,
}

/// All protocol snapshots to generate code for, one per supported
/// protocol version.
pub fn tendermint_versions() -> (v: Vec<TendermintVersion>)
    ensures
        v@.len() == 2,
        v@[0].repo@ == "https://github.com/celestiaorg/celestia-core"@,
        v@[0].ident@ == "v0_34"@,
        v@[0].commitish@ == "v0.34.x-celestia"@,
        v@[1].repo@ == "https://github.com/cometbft/cometbft"@,
        v@[1].ident@ == "v0_37"@,
        v@[1].commitish@ == "v0.37.0"@,
{
    let mut v: Vec<TendermintVersion> = Vec::new();
    v.push(
        TendermintVersion {
            repo: String::from_str("https://github.com/celestiaorg/celestia-core"),
            ident: String::from_str("v0_34"),
            commitish: String::from_str("v0.34.x-celestia"),
        },
    );
    v.push(
        TendermintVersion {
            repo: String::from_str("https://github.com/cometbft/cometbft"),
            ident: String::from_str("v0_37"),
            commitish: String::from_str("v0.37.0"),
        },
    );
    v
}

} // verus!
