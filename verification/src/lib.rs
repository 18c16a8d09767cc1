//! Offer creation for a two-party token-swap escrow.
//!
//! A maker locks an amount of token A in a vault and names the amount of
//! token B wanted in return. This library decides whether such an offer is
//! acceptable, which transfer has to be carried out for it, and which record
//! is stored once the transfer has gone through. Account loading and the
//! transfer itself belong to the host runtime and are left to the caller.

pub mod address;
pub mod error;
pub mod handlers;
pub mod state;

pub use address::Address;
pub use error::ErrorCode;
pub use handlers::make_offer::{make_offer, MakeOffer, PendingOffer, Transfer};
pub use state::offer::Offer;
