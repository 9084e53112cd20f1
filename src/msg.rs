use vstd::prelude::*;

use crate::state::MintAttempt;

verus! {

/// An address as supplied by a caller, together with the verdict of the
/// host's address validation on it.
#[derive(Debug, Clone, PartialEq, Eq)]
pub enum CheckedAddr {
    Valid(String),
    Invalid(String),
}

impl CheckedAddr {
    /// The address text as the caller supplied it.
    pub open spec fn addr(self) -> String {
        match self {
            CheckedAddr::Valid(a) => a,
            CheckedAddr::Invalid(a) => a,
        }
    }

    pub open spec fn is_valid(self) -> bool {
        self is Valid
    }
}

/// An amount of one native denomination.
#[derive(Debug, Clone, PartialEq, Eq)]
pub struct Coin {
    pub denom: String,
    pub amount: u128,
}

/// Who sent a request, and the funds attached to it.
#[derive(Debug, Clone, PartialEq, Eq)]
pub struct MessageInfo {
    pub sender: String,
    pub funds: Vec<Coin>,
}

/// Sets up the contract; the owner is `admin` when given, else the sender.
#[derive(Debug, Clone, PartialEq, Eq)]
pub struct InstantiateMsg {
    pub admin: Option<CheckedAddr>,
}

/// The state-changing actions of the contract.
#[derive(Debug, Clone, PartialEq, Eq)]
pub enum ExecuteMsg {
    /// Owner only: binds the issuance contract and the custodian of funds.
    SetRelayer { pointer_address: CheckedAddr, associated_address: CheckedAddr },
    /// Requests `quantity` tokens for `recipient` (the sender when absent).
    Mint { recipient: Option<CheckedAddr>, quantity: u32 },
}

/// The read-only queries of the contract.
#[derive(Debug, Clone, PartialEq, Eq)]
pub enum QueryMsg {
    Relayer {},
    GetMintAttempt { attempt_id: u32 },
}

/// The relayer binding; each field is absent until it is configured.
#[derive(Debug, Clone, PartialEq, Eq)]
pub struct RelayerResp {
    pub associated_address: Option<String>,
    pub pointer_address: Option<String>,
}

/// The current administrator.
#[derive(Debug, Clone, PartialEq, Eq)]
pub struct AdminResp {
    pub admin: String,
}

/// The answer to a query.
#[derive(Debug, Clone, PartialEq, Eq)]
pub enum QueryResp {
    Relayer(RelayerResp),
    MintAttempt(MintAttempt),
}

/// A message handed to the host, executed after the transition commits.
#[derive(Debug, Clone, PartialEq, Eq)]
pub enum OutgoingMsg {
    /// Moves `amount` of `denom` to `to_address`.
    BankSend { to_address: String, denom: String, amount: u128 },
    /// Asks the issuance contract `contract_addr` to approve `spender` for the
    /// token `token_id`, without expiration.
    Approve { contract_addr: String, spender: String, token_id: u32 },
}

/// The record of a transition, for off-chain observers.
#[derive(Debug, Clone, PartialEq, Eq)]
pub enum Event {
    Instantiate { admin: String },
    SetRelayer { pointer_address: String, associated_address: String },
    Mint { recipient: String, quantity: u32, funds: u128 },
}

/// The outcome of a successful transition: the messages, in the order in
/// which the host must execute them, and the event.
#[derive(Debug, Clone, PartialEq, Eq)]
pub struct Response {
    pub messages: Vec<OutgoingMsg>,
    pub event: Event,
}

} // verus!
