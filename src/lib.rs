//! A relayer-mediated NFT mint workflow: an owner binds a relayer (the
//! issuance contract and the custodian of funds), and every mint request is
//! validated, recorded in an append-only ledger of attempts, and answered with
//! the messages that forward its payment and authorize the issuance.
use vstd::prelude::*;

pub mod contract;
pub mod error;
pub mod laws;
pub mod msg;
pub mod state;

verus! {

/// The one native currency that mint requests may pay in.
pub const SUPPORTED_DENOM: &'static str = "usei";

} // verus!
