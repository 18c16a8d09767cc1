//! The stored record of an open offer.

use vstd::prelude::*;
use vstd::bytes::{spec_u64_to_le_bytes, u64_to_le_bytes};
use crate::address::Address;

verus! {

/// An open offer: `token_a_offered_amount` of mint A sits in the vault, and
/// the maker asks `token_b_wanted_amount` of mint B in return.
#[derive(Clone, Copy, Debug, PartialEq, Eq)]
pub struct Offer {
    /// Identifier of the offer, chosen by the maker.
    pub id: u64,
    /// Who made the offer.
    pub owner: Address,
    /// Mint of the token being offered.
    pub token_mint_a: Address,
    /// Mint of the token wanted in return.
    pub token_mint_b: Address,
    /// Amount of token B wanted.
    pub token_b_wanted_amount: u64,
    /// Amount of token A offered.
    pub token_a_offered_amount: u64,
    /// Bump of the offer account's derived address.
    pub bump: u8,
}

impl Offer {
    /// What holds of every offer that this program stores: both amounts are
    /// positive and the two mints differ.
    pub open spec fn wf(&self) -> bool {
        &&& self.token_a_offered_amount > 0
        &&& self.token_b_wanted_amount > 0
        &&& self.token_mint_a@ != self.token_mint_b@
    }

    /// The tag that the address of every offer account is derived from:
    /// the ASCII letters of "offer".
    pub open spec fn seed_tag() -> Seq<u8> {
        seq![111u8, 102u8, 102u8, 101u8, 114u8]
    }

    /// The seeds from which the address of the offer account with the given
    /// identifier is derived: the tag, then the identifier in eight bytes,
    /// least significant first.
    pub fn seeds(id: u64) -> (r: (Vec<u8>, Vec<u8>))
        ensures
            r.0@ == Self::seed_tag(),
            r.1@ == spec_u64_to_le_bytes(id),
            r.1@.len() == 8,
    {
        let tag: Vec<u8> = vec![111u8, 102u8, 102u8, 101u8, 114u8];
        assert(tag@ =~= Self::seed_tag());
        (tag, u64_to_le_bytes(id))
    }
}

} // verus!
