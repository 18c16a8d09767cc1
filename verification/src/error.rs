//! Reasons for which an offer is turned down.

use vstd::prelude::*;

verus! {

/// Why an instruction was rejected.
#[derive(Clone, Copy, Debug, PartialEq, Eq, Structural)]
pub enum ErrorCode {
    /// An amount of zero was offered or asked for.
    InvalidAmount,
    /// The offered and the wanted token are the same mint.
    InvalidTokenMint,
    /// The transfer into the vault did not go through.
    InsufficientTakerBalance,
}

} // verus!
