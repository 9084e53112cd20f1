use vstd::prelude::*;
use vstd::string::StringExecFns;

use crate::error::ContractError;
use crate::msg::{
    CheckedAddr, Coin, Event, ExecuteMsg, InstantiateMsg, MessageInfo, OutgoingMsg, QueryMsg,
    QueryResp, RelayerResp, Response,
};
use crate::state::{MintAttempt, State};
use crate::SUPPORTED_DENOM;

verus! {

/// The amount that a list of attached funds pays: nothing for no coin, the
/// coin's amount for one coin of the supported denomination, and no valid
/// amount for any other shape.
pub open spec fn fund_amount(funds: Seq<Coin>) -> Option<u128> {
    if funds.len() == 0 {
        Some(0)
    } else if funds.len() == 1 && funds[0].denom@ == SUPPORTED_DENOM@ {
        Some(funds[0].amount)
    } else {
        None
    }
}

/// The address that a mint credits: the given one, else the sender.
pub open spec fn resolved_recipient(sender: String, recipient: Option<CheckedAddr>) -> String {
    match recipient {
        Some(c) => c.addr(),
        None => sender,
    }
}

/// Whether `sender` is the current owner of `s`.
pub open spec fn is_owner(s: State, sender: Seq<char>) -> bool {
    s.owner matches Some(o) && o@ == sender
}

/// The first check that a mint request fails, in the order in which they run;
/// `None` when the request succeeds.
pub open spec fn mint_failure(
    s: State,
    funds: Seq<Coin>,
    recipient: Option<CheckedAddr>,
    quantity: u32,
) -> Option<ContractError> {
    if quantity == 0 {
        Some(ContractError::InvalidMintQuantity { quantity })
    } else if recipient matches Some(CheckedAddr::Invalid(_)) {
        Some(ContractError::InvalidAddress { address: recipient->Some_0.addr() })
    } else if s.relayer_associated_addr is None || s.relayer_pointer_addr is None {
        Some(ContractError::RelayerNotConfigured {})
    } else if fund_amount(funds) is None {
        Some(ContractError::InvalidFundsReceived {})
    } else if s.num_mints_attempted == u32::MAX {
        Some(ContractError::AttemptIdsExhausted {})
    } else {
        None
    }
}

/// `post` is `pre` with the attempt `a` allocated and recorded, and nothing
/// else changed.
pub open spec fn mint_recorded(pre: State, post: State, a: MintAttempt) -> bool {
    &&& pre.num_mints_attempted < u32::MAX
    &&& a.id == pre.num_mints_attempted + 1
    &&& post.num_mints_attempted == a.id
    &&& post.mint_attempts@ == pre.mint_attempts@.push(a)
    &&& post.owner == pre.owner
    &&& post.relayer_pointer_addr == pre.relayer_pointer_addr
    &&& post.relayer_associated_addr == pre.relayer_associated_addr
}

/// `m` moves `amount` of the supported denomination to `to`.
pub open spec fn is_payment(m: OutgoingMsg, to: String, amount: u128) -> bool {
    m matches OutgoingMsg::BankSend { to_address, denom, amount: x }
        && to_address == to && denom@ == SUPPORTED_DENOM@ && x == amount
}

/// `m` asks `contract` to approve `spender` for token `token_id`.
pub open spec fn is_approval(m: OutgoingMsg, contract: String, spender: String, token_id: u32) -> bool {
    m == OutgoingMsg::Approve { contract_addr: contract, spender, token_id }
}

/// The messages of a successful mint of attempt `a` that paid `amount`:
/// the payment to the custodian when `amount` is positive, then always the
/// approval on the issuance contract.
pub open spec fn mint_messages_ok(
    msgs: Seq<OutgoingMsg>,
    s: State,
    a: MintAttempt,
    amount: u128,
) -> bool {
    let pointer = s.relayer_pointer_addr->Some_0;
    let associated = s.relayer_associated_addr->Some_0;
    if amount > 0 {
        &&& msgs.len() == 2
        &&& is_payment(msgs[0], associated, amount)
        &&& is_approval(msgs[1], pointer, a.minter, a.id)
    } else {
        &&& msgs.len() == 1
        &&& is_approval(msgs[0], pointer, a.minter, a.id)
    }
}

/// The amount paid by the attached funds, or `InvalidFundsReceived`.
pub fn mint_fund_amount(funds: &Vec<Coin>) -> (r: Result<u128, ContractError>)
    ensures
        match fund_amount(funds@) {
            Some(x) => r == Ok::<u128, ContractError>(x),
            None => r == Err::<u128, ContractError>(ContractError::InvalidFundsReceived {}),
        },
{
    if funds.len() == 0 {
        return Ok(0);
    }
    let supported = String::from_str(SUPPORTED_DENOM);
    if funds.len() == 1 && funds[0].denom == supported {
        Ok(funds[0].amount)
    } else {
        Err(ContractError::InvalidFundsReceived {})
    }
}

/// What a mint request leaves: on failure the first failed check and `pre`
/// unchanged; on success the next attempt recorded, the payment (when funds
/// were attached) and then the approval, and the event.
pub open spec fn mint_outcome(
    pre: State,
    post: State,
    info: MessageInfo,
    recipient: Option<CheckedAddr>,
    quantity: u32,
    r: Result<Response, ContractError>,
) -> bool {
    match mint_failure(pre, info.funds@, recipient, quantity) {
        Some(e) => r == Err::<Response, ContractError>(e) && post == pre,
        None => {
            let amount = fund_amount(info.funds@)->Some_0;
            let a = MintAttempt {
                id: (pre.num_mints_attempted + 1) as u32,
                minter: resolved_recipient(info.sender, recipient),
                quantity,
                funds: amount,
            };
            &&& r is Ok
            &&& mint_recorded(pre, post, a)
            &&& mint_messages_ok(r->Ok_0.messages@, pre, a, amount)
            &&& r->Ok_0.event == (Event::Mint { recipient: a.minter, quantity, funds: amount })
        },
    }
}

/// The first check that a relayer configuration fails; `None` when it
/// succeeds.
pub open spec fn set_relayer_failure(
    s: State,
    sender: String,
    pointer_address: CheckedAddr,
    associated_address: CheckedAddr,
) -> Option<ContractError> {
    if !is_owner(s, sender@) {
        Some(ContractError::Unauthorized { sender })
    } else if !pointer_address.is_valid() {
        Some(ContractError::InvalidAddress { address: pointer_address.addr() })
    } else if !associated_address.is_valid() {
        Some(ContractError::InvalidAddress { address: associated_address.addr() })
    } else {
        None
    }
}

/// What a relayer configuration leaves: on failure the first failed check
/// and `pre` unchanged; on success both addresses replaced together, nothing
/// else changed, no message, and the event echoing both addresses.
pub open spec fn set_relayer_outcome(
    pre: State,
    post: State,
    sender: String,
    pointer_address: CheckedAddr,
    associated_address: CheckedAddr,
    r: Result<Response, ContractError>,
) -> bool {
    match set_relayer_failure(pre, sender, pointer_address, associated_address) {
        Some(e) => r == Err::<Response, ContractError>(e) && post == pre,
        None => {
            &&& r is Ok
            &&& post.relayer_pointer_addr == Some(pointer_address.addr())
            &&& post.relayer_associated_addr == Some(associated_address.addr())
            &&& post.owner == pre.owner
            &&& post.num_mints_attempted == pre.num_mints_attempted
            &&& post.mint_attempts == pre.mint_attempts
            &&& r->Ok_0.messages@.len() == 0
            &&& r->Ok_0.event == (Event::SetRelayer {
                pointer_address: pointer_address.addr(),
                associated_address: associated_address.addr(),
            })
        },
    }
}

/// Handles a mint request: checks it, allocates and records the next
/// attempt, and answers with the payment to the custodian (when funds were
/// attached) followed by the approval on the issuance contract.
/// A request that fails any check changes nothing.
pub fn execute_mint(
    state: &mut State,
    info: &MessageInfo,
    recipient: Option<CheckedAddr>,
    quantity: u32,
) -> (r: Result<Response, ContractError>)
    requires
        old(state).wf(),
    ensures
        final(state).wf(),
        mint_outcome(*old(state), *final(state), *info, recipient, quantity, r),
{
    if quantity < 1 {
        return Err(ContractError::InvalidMintQuantity { quantity });
    }
    let recipient = match recipient {
        Some(CheckedAddr::Valid(a)) => a,
        Some(CheckedAddr::Invalid(a)) => {
            return Err(ContractError::InvalidAddress { address: a });
        },
        None => info.sender.clone(),
    };
    let associated = match &state.relayer_associated_addr {
        Some(a) => a.clone(),
        None => {
            return Err(ContractError::RelayerNotConfigured {});
        },
    };
    let pointer = match &state.relayer_pointer_addr {
        Some(p) => p.clone(),
        None => {
            return Err(ContractError::RelayerNotConfigured {});
        },
    };
    let amount = match mint_fund_amount(&info.funds) {
        Ok(x) => x,
        Err(e) => {
            return Err(e);
        },
    };
    let attempt = match MintAttempt::new(state, &recipient, quantity, amount) {
        Ok(a) => a,
        Err(e) => {
            return Err(e);
        },
    };
    let mut messages: Vec<OutgoingMsg> = Vec::new();
    if amount > 0 {
        messages.push(
            OutgoingMsg::BankSend {
                to_address: associated,
                denom: String::from_str(SUPPORTED_DENOM),
                amount,
            },
        );
    }
    messages.push(
        OutgoingMsg::Approve { contract_addr: pointer, spender: attempt.minter, token_id: attempt.id },
    );
    Ok(Response { messages, event: Event::Mint { recipient, quantity, funds: amount } })
}

/// Owner only: binds the issuance contract and the custodian of funds,
/// both at once. A request that fails any check changes nothing.
pub fn execute_set_relayer(
    state: &mut State,
    info: &MessageInfo,
    pointer_address: CheckedAddr,
    associated_address: CheckedAddr,
) -> (r: Result<Response, ContractError>)
    requires
        old(state).wf(),
    ensures
        final(state).wf(),
        set_relayer_outcome(
            *old(state),
            *final(state),
            info.sender,
            pointer_address,
            associated_address,
            r,
        ),
{
    let authorized = match &state.owner {
        Some(o) => *o == info.sender,
        None => false,
    };
    if !authorized {
        return Err(ContractError::Unauthorized { sender: info.sender.clone() });
    }
    let pointer = match pointer_address {
        CheckedAddr::Valid(a) => a,
        CheckedAddr::Invalid(a) => {
            return Err(ContractError::InvalidAddress { address: a });
        },
    };
    let associated = match associated_address {
        CheckedAddr::Valid(a) => a,
        CheckedAddr::Invalid(a) => {
            return Err(ContractError::InvalidAddress { address: a });
        },
    };
    state.relayer_pointer_addr = Some(pointer.clone());
    state.relayer_associated_addr = Some(associated.clone());
    Ok(
        Response {
            messages: Vec::new(),
            event: Event::SetRelayer { pointer_address: pointer, associated_address: associated },
        },
    )
}

/// Sets up the contract: the owner is the given admin, else the sender; no
/// relayer is bound and no attempt is recorded.
pub fn instantiate(info: &MessageInfo, msg: InstantiateMsg) -> (r: Result<
    (State, Response),
    ContractError,
>)
    ensures
        match msg.admin {
            Some(CheckedAddr::Invalid(a)) => r == Err::<(State, Response), ContractError>(
                ContractError::InvalidAddress { address: a },
            ),
            _ => {
                let admin = resolved_recipient(info.sender, msg.admin);
                &&& r is Ok
                &&& r->Ok_0.0.wf()
                &&& r->Ok_0.0.owner == Some(admin)
                &&& r->Ok_0.0.relayer_pointer_addr is None
                &&& r->Ok_0.0.relayer_associated_addr is None
                &&& r->Ok_0.0.num_mints_attempted == 0
                &&& r->Ok_0.0.mint_attempts@.len() == 0
                &&& r->Ok_0.1.messages@.len() == 0
                &&& r->Ok_0.1.event == (Event::Instantiate { admin })
            },
        },
{
    let admin = match msg.admin {
        Some(CheckedAddr::Valid(a)) => a,
        Some(CheckedAddr::Invalid(a)) => {
            return Err(ContractError::InvalidAddress { address: a });
        },
        None => info.sender.clone(),
    };
    let state = State::initial(admin.clone());
    Ok((state, Response { messages: Vec::new(), event: Event::Instantiate { admin } }))
}

/// Dispatches a state-changing request to its handler.
pub fn execute(state: &mut State, info: &MessageInfo, msg: ExecuteMsg) -> (r: Result<
    Response,
    ContractError,
>)
    requires
        old(state).wf(),
    ensures
        final(state).wf(),
        match msg {
            ExecuteMsg::SetRelayer { pointer_address, associated_address } => set_relayer_outcome(
                *old(state),
                *final(state),
                info.sender,
                pointer_address,
                associated_address,
                r,
            ),
            ExecuteMsg::Mint { recipient, quantity } => mint_outcome(
                *old(state),
                *final(state),
                *info,
                recipient,
                quantity,
                r,
            ),
        },
{
    match msg {
        ExecuteMsg::SetRelayer { pointer_address, associated_address } => {
            execute_set_relayer(state, info, pointer_address, associated_address)
        },
        ExecuteMsg::Mint { recipient, quantity } => execute_mint(state, info, recipient, quantity),
    }
}

/// The relayer binding, each field absent until configured.
pub fn query_relayer(state: &State) -> (r: RelayerResp)
    ensures
        r.pointer_address == state.relayer_pointer_addr,
        r.associated_address == state.relayer_associated_addr,
{
    let pointer_address = match &state.relayer_pointer_addr {
        Some(p) => Some(p.clone()),
        None => None,
    };
    let associated_address = match &state.relayer_associated_addr {
        Some(a) => Some(a.clone()),
        None => None,
    };
    RelayerResp { associated_address, pointer_address }
}

/// The attempt recorded under `attempt_id`, or `NotFound` when that id was
/// never allocated.
pub fn query_mint_attempt(state: &State, attempt_id: u32) -> (r: Result<MintAttempt, ContractError>)
    requires
        state.wf(),
    ensures
        match state.attempt_at(attempt_id) {
            Some(a) => r == Ok::<MintAttempt, ContractError>(a),
            None => r == Err::<MintAttempt, ContractError>(
                ContractError::NotFound { attempt_id },
            ),
        },
{
    if attempt_id == 0 || attempt_id as usize > state.mint_attempts.len() {
        return Err(ContractError::NotFound { attempt_id });
    }
    let a = &state.mint_attempts[(attempt_id - 1) as usize];
    Ok(MintAttempt { id: a.id, minter: a.minter.clone(), quantity: a.quantity, funds: a.funds })
}

/// Answers a read-only query.
pub fn query(state: &State, msg: QueryMsg) -> (r: Result<QueryResp, ContractError>)
    requires
        state.wf(),
    ensures
        match msg {
            QueryMsg::Relayer {} => r == Ok::<QueryResp, ContractError>(
                QueryResp::Relayer(
                    RelayerResp {
                        associated_address: state.relayer_associated_addr,
                        pointer_address: state.relayer_pointer_addr,
                    },
                ),
            ),
            QueryMsg::GetMintAttempt { attempt_id } => match state.attempt_at(attempt_id) {
                Some(a) => r == Ok::<QueryResp, ContractError>(QueryResp::MintAttempt(a)),
                None => r == Err::<QueryResp, ContractError>(
                    ContractError::NotFound { attempt_id },
                ),
            },
        },
{
    match msg {
        QueryMsg::Relayer {} => Ok(QueryResp::Relayer(query_relayer(state))),
        QueryMsg::GetMintAttempt { attempt_id } => match query_mint_attempt(state, attempt_id) {
            Ok(a) => Ok(QueryResp::MintAttempt(a)),
            Err(e) => Err(e),
        },
    }
}

} // verus!
