//! Creating an offer.

use vstd::prelude::*;
use crate::address::Address;
use crate::error::ErrorCode;
use crate::state::offer::Offer;

verus! {

/// The accounts that an offer is made with, as plain values.
#[derive(Clone, Copy, Debug, PartialEq, Eq)]
pub struct MakeOffer {
    /// The maker, who signs and pays.
    pub maker: Address,
    /// Mint of the token being offered.
    pub token_mint_a: Address,
    /// Mint of the token wanted in return.
    pub token_mint_b: Address,
    /// The maker's token account for mint A.
    pub maker_token_account_a: Address,
    /// The vault: a token account for mint A that the offer account owns.
    pub vault: Address,
    /// Bump of the offer account's derived address.
    pub bump: u8,
}

/// A token transfer that the caller has to carry out.
#[derive(Clone, Copy, Debug, PartialEq, Eq)]
pub struct Transfer {
    pub from: Address,
    pub to: Address,
    pub mint: Address,
    pub authority: Address,
    pub amount: u64,
}

/// An accepted offer whose tokens have not reached the vault yet.
#[derive(Clone, Copy, Debug, PartialEq, Eq)]
pub struct PendingOffer {
    /// The transfer that locks the offered tokens.
    pub transfer: Transfer,
    /// The record to store once the transfer has gone through.
    pub offer: Offer,
}

/// The transfer that locks the offered tokens: out of the maker's token
/// account into the vault, signed by the maker.
pub open spec fn vault_deposit(accounts: MakeOffer, amount: u64) -> Transfer {
    Transfer {
        from: accounts.maker_token_account_a,
        to: accounts.vault,
        mint: accounts.token_mint_a,
        authority: accounts.maker,
        amount,
    }
}

/// The record of an offer made with `accounts`.
pub open spec fn offer_record(
    accounts: MakeOffer,
    id: u64,
    token_a_offered_amount: u64,
    token_b_wanted_amount: u64,
) -> Offer {
    Offer {
        id,
        owner: accounts.maker,
        token_mint_a: accounts.token_mint_a,
        token_mint_b: accounts.token_mint_b,
        token_b_wanted_amount,
        token_a_offered_amount,
        bump: accounts.bump,
    }
}

/// What `make_offer` answers. The amounts are looked at first: a zero amount
/// is reported even where the mints coincide as well.
pub open spec fn make_offer_outcome(
    accounts: MakeOffer,
    id: u64,
    token_a_offered_amount: u64,
    token_b_wanted_amount: u64,
) -> Result<PendingOffer, ErrorCode> {
    if token_a_offered_amount == 0 || token_b_wanted_amount == 0 {
        Err(ErrorCode::InvalidAmount)
    } else if accounts.token_mint_a@ == accounts.token_mint_b@ {
        Err(ErrorCode::InvalidTokenMint)
    } else {
        Ok(
            PendingOffer {
                transfer: vault_deposit(accounts, token_a_offered_amount),
                offer: offer_record(
                    accounts,
                    id,
                    token_a_offered_amount,
                    token_b_wanted_amount,
                ),
            },
        )
    }
}

/// Handles the instruction that makes an offer.
///
/// Rejects a zero amount with `InvalidAmount` and equal mints with
/// `InvalidTokenMint`. Otherwise it names the transfer that moves the
/// offered tokens from the maker's token account to the vault, together with
/// the record to store for the offer. The caller performs the transfer and
/// passes what came of it to [`PendingOffer::settle`].
pub fn make_offer(
    accounts: &MakeOffer,
    id: u64,
    token_a_offered_amount: u64,
    token_b_wanted_amount: u64,
) -> (r: Result<PendingOffer, ErrorCode>)
    ensures
        r == make_offer_outcome(*accounts, id, token_a_offered_amount, token_b_wanted_amount),
        r is Ok <==> token_a_offered_amount > 0 && token_b_wanted_amount > 0
            && accounts.token_mint_a@ != accounts.token_mint_b@,
        r matches Ok(p) ==> p.wf(),
{
    if token_a_offered_amount == 0 {
        return Err(ErrorCode::InvalidAmount);
    }
    if token_b_wanted_amount == 0 {
        return Err(ErrorCode::InvalidAmount);
    }
    if accounts.token_mint_a.same_as(&accounts.token_mint_b) {
        return Err(ErrorCode::InvalidTokenMint);
    }
    let transfer = Transfer {
        from: accounts.maker_token_account_a,
        to: accounts.vault,
        mint: accounts.token_mint_a,
        authority: accounts.maker,
        amount: token_a_offered_amount,
    };
    let offer = Offer {
        id,
        owner: accounts.maker,
        token_mint_a: accounts.token_mint_a,
        token_mint_b: accounts.token_mint_b,
        token_b_wanted_amount,
        token_a_offered_amount,
        bump: accounts.bump,
    };
    Ok(PendingOffer { transfer, offer })
}

impl PendingOffer {
    /// The transfer moves exactly what the record says is offered, in the
    /// offered mint and on the maker's authority, and the record is one
    /// that may be stored.
    pub open spec fn wf(&self) -> bool {
        &&& self.offer.wf()
        &&& self.transfer.amount == self.offer.token_a_offered_amount
        &&& self.transfer.mint == self.offer.token_mint_a
        &&& self.transfer.authority == self.offer.owner
    }

    /// What becomes of the offer once the transfer has been tried.
    pub open spec fn settled(self, transferred: bool) -> Result<Offer, ErrorCode> {
        if transferred {
            Ok(self.offer)
        } else {
            Err(ErrorCode::InsufficientTakerBalance)
        }
    }

    /// Concludes the instruction. Where the transfer went through, the
    /// record is handed out to be stored; where it did not, the offer is
    /// dropped with `InsufficientTakerBalance`.
    pub fn settle(self, transferred: bool) -> (r: Result<Offer, ErrorCode>)
        ensures
            r == self.settled(transferred),
            r is Ok <==> transferred,
            self.wf() ==> (r matches Ok(o) ==> o.wf()),
    {
        if transferred {
            Ok(self.offer)
        } else {
            Err(ErrorCode::InsufficientTakerBalance)
        }
    }
}

/// The instruction as a whole: what `make_offer` answers, followed, where
/// it names a transfer, by what `settle` makes of that transfer's result.
pub open spec fn instruction_outcome(
    accounts: MakeOffer,
    id: u64,
    token_a_offered_amount: u64,
    token_b_wanted_amount: u64,
    transferred: bool,
) -> Result<Offer, ErrorCode> {
    match make_offer_outcome(accounts, id, token_a_offered_amount, token_b_wanted_amount) {
        Ok(pending) => pending.settled(transferred),
        Err(e) => Err(e),
    }
}

/// An offer is stored exactly where both amounts are positive, the mints
/// differ and the transfer went through. What is stored is then the record
/// of the request, and the transfer that preceded it took the offered
/// amount of mint A out of the maker's token account into the vault. Each
/// error comes on its own inputs: a zero amount first, equal mints next, a
/// failed transfer last.
pub proof fn lemma_instruction_outcome(
    accounts: MakeOffer,
    id: u64,
    token_a_offered_amount: u64,
    token_b_wanted_amount: u64,
    transferred: bool,
)
    ensures
        ({
            let amounts_ok = token_a_offered_amount > 0 && token_b_wanted_amount > 0;
            let mints_ok = accounts.token_mint_a@ != accounts.token_mint_b@;
            let outcome = instruction_outcome(
                accounts,
                id,
                token_a_offered_amount,
                token_b_wanted_amount,
                transferred,
            );
            &&& outcome is Ok <==> amounts_ok && mints_ok && transferred
            &&& outcome matches Ok(offer) ==> {
                &&& offer.wf()
                &&& offer == offer_record(
                    accounts,
                    id,
                    token_a_offered_amount,
                    token_b_wanted_amount,
                )
                &&& make_offer_outcome(
                    accounts,
                    id,
                    token_a_offered_amount,
                    token_b_wanted_amount,
                ) matches Ok(pending) && pending.transfer == vault_deposit(
                    accounts,
                    token_a_offered_amount,
                )
            }
            &&& outcome == Err::<Offer, ErrorCode>(ErrorCode::InvalidAmount) <==> !amounts_ok
            &&& outcome == Err::<Offer, ErrorCode>(ErrorCode::InvalidTokenMint) <==> amounts_ok
                && !mints_ok
            &&& outcome == Err::<Offer, ErrorCode>(ErrorCode::InsufficientTakerBalance)
                <==> amounts_ok && mints_ok && !transferred
        }),
{
}

} // verus!
