use vstd::prelude::*;

verus! {

/// Every way in which a transition of the contract can fail.
/// A failed transition changes no state and emits no message.
#[derive(Debug, Clone, PartialEq, Eq)]
pub enum ContractError {
    /// The sender is not the current owner (or there is no owner).
    Unauthorized { sender: String },
    /// A supplied address is not well formed.
    InvalidAddress { address: String },
    /// A mint asked for zero tokens.
    InvalidMintQuantity { quantity: u32 },
    /// The attached funds are not empty and not exactly one coin of the
    /// supported denomination.
    InvalidFundsReceived {},
    /// A mint was requested before the relayer binding was set.
    RelayerNotConfigured {},
    /// No mint attempt was ever allocated under this id.
    NotFound { attempt_id: u32 },
    /// The attempt counter has reached the largest id it can hold.
    AttemptIdsExhausted {},
}

} // verus!
