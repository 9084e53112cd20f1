use vstd::prelude::*;

use crate::contract::{
    fund_amount, is_approval, is_payment, mint_outcome, resolved_recipient,
};
use crate::error::ContractError;
use crate::msg::{CheckedAddr, MessageInfo, Response};
use crate::state::State;
use crate::SUPPORTED_DENOM;

verus! {

/// The token id that a response's last message approves, if it is an approval.
pub open spec fn approved_token(resp: Response) -> Option<u32> {
    let msgs = resp.messages@;
    if msgs.len() > 0 && msgs.last() is Approve {
        Some(msgs.last()->Approve_token_id)
    } else {
        None
    }
}

/// A run of mint requests from `states[0]`: request `i` takes `states[i]` to
/// `states[i + 1]` and answers `results[i]`.
pub open spec fn mint_run(
    states: Seq<State>,
    infos: Seq<MessageInfo>,
    recipients: Seq<Option<CheckedAddr>>,
    quantities: Seq<u32>,
    results: Seq<Result<Response, ContractError>>,
) -> bool {
    &&& states.len() == results.len() + 1
    &&& infos.len() == results.len()
    &&& recipients.len() == results.len()
    &&& quantities.len() == results.len()
    &&& forall|i: int|
        0 <= i < results.len() ==> #[trigger] mint_outcome(
            states[i],
            states[i + 1],
            infos[i],
            recipients[i],
            quantities[i],
            results[i],
        )
}

/// Over a run of successful mints, the approved token ids are the successive
/// values of the counter: strictly increasing, with no gap and no repeat.
pub proof fn lemma_mint_ids_consecutive(
    states: Seq<State>,
    infos: Seq<MessageInfo>,
    recipients: Seq<Option<CheckedAddr>>,
    quantities: Seq<u32>,
    results: Seq<Result<Response, ContractError>>,
)
    requires
        mint_run(states, infos, recipients, quantities, results),
        forall|i: int| 0 <= i < results.len() ==> #[trigger] results[i] is Ok,
    ensures
        forall|i: int|
            0 <= i < results.len() ==> approved_token(#[trigger] results[i]->Ok_0) == Some(
                (states[0].num_mints_attempted + i + 1) as u32,
            ),
        forall|i: int, j: int|
            0 <= i < j < results.len() ==> approved_token(#[trigger] results[i]->Ok_0)->Some_0
                < approved_token(#[trigger] results[j]->Ok_0)->Some_0,
        states.last().num_mints_attempted == states[0].num_mints_attempted + results.len(),
    decreases results.len(),
{
    let n = results.len();
    if n > 0 {
        let k = n - 1;
        lemma_mint_ids_consecutive(
            states.drop_last(),
            infos.drop_last(),
            recipients.drop_last(),
            quantities.drop_last(),
            results.drop_last(),
        );
        assert(states.drop_last()[k] == states[k]);
        assert forall|i: int| 0 <= i < n implies approved_token(#[trigger] results[i]->Ok_0)
            == Some((states[0].num_mints_attempted + i + 1) as u32) && states[i + 1].num_mints_attempted
            == states[0].num_mints_attempted + i + 1 by {
            assert(mint_outcome(
                states[i],
                states[i + 1],
                infos[i],
                recipients[i],
                quantities[i],
                results[i],
            ));
            if i < k {
                assert(results.drop_last()[i] == results[i]);
                assert(states.drop_last()[i + 1] == states[i + 1]);
            }
        }
        assert(approved_token(results[k]->Ok_0) == Some(
            (states[0].num_mints_attempted + k + 1) as u32,
        ));
    }
}

/// A mint request that fails leaves the counter and the ledger exactly as
/// they were.
pub proof fn lemma_failed_mint_changes_nothing(
    pre: State,
    post: State,
    info: MessageInfo,
    recipient: Option<CheckedAddr>,
    quantity: u32,
    r: Result<Response, ContractError>,
)
    requires
        mint_outcome(pre, post, info, recipient, quantity, r),
        r is Err,
    ensures
        post == pre,
        post.num_mints_attempted == pre.num_mints_attempted,
        post.mint_attempts@ == pre.mint_attempts@,
{
}

/// A successful mint paid with one coin of the supported denomination sends
/// exactly that amount to the custodian, then approves; one paid with nothing
/// sends only the approval.
pub proof fn lemma_fund_routing(
    pre: State,
    post: State,
    info: MessageInfo,
    recipient: Option<CheckedAddr>,
    quantity: u32,
    r: Result<Response, ContractError>,
)
    requires
        mint_outcome(pre, post, info, recipient, quantity, r),
        r is Ok,
    ensures
        info.funds@.len() == 1 && info.funds@[0].denom@ == SUPPORTED_DENOM@ && info.funds@[0].amount
            > 0 ==> {
            &&& r->Ok_0.messages@.len() == 2
            &&& is_payment(
                r->Ok_0.messages@[0],
                pre.relayer_associated_addr->Some_0,
                info.funds@[0].amount,
            )
            &&& r->Ok_0.messages@[1] is Approve
        },
        info.funds@.len() == 0 ==> {
            &&& r->Ok_0.messages@.len() == 1
            &&& r->Ok_0.messages@[0] is Approve
        },
{
}

/// With the quantity, the recipient and the binding all in order, funds made
/// of two or more coins, or of one coin of another denomination, are
/// rejected with `InvalidFundsReceived`, and nothing changes.
pub proof fn lemma_mixed_funds_rejected(
    pre: State,
    post: State,
    info: MessageInfo,
    recipient: Option<CheckedAddr>,
    quantity: u32,
    r: Result<Response, ContractError>,
)
    requires
        mint_outcome(pre, post, info, recipient, quantity, r),
        quantity >= 1,
        !(recipient matches Some(CheckedAddr::Invalid(_))),
        pre.relayer_pointer_addr is Some,
        pre.relayer_associated_addr is Some,
        info.funds@.len() >= 2 || (info.funds@.len() == 1 && info.funds@[0].denom@
            != SUPPORTED_DENOM@),
    ensures
        fund_amount(info.funds@) is None,
        r == Err::<Response, ContractError>(ContractError::InvalidFundsReceived {}),
        post == pre,
{
}

/// Until a relayer is bound, every mint request fails and the binding stays
/// unset; each one whose quantity and recipient are in order fails with
/// `RelayerNotConfigured`.
pub proof fn lemma_mint_needs_binding(
    states: Seq<State>,
    infos: Seq<MessageInfo>,
    recipients: Seq<Option<CheckedAddr>>,
    quantities: Seq<u32>,
    results: Seq<Result<Response, ContractError>>,
)
    requires
        mint_run(states, infos, recipients, quantities, results),
        states[0].relayer_pointer_addr is None || states[0].relayer_associated_addr is None,
    ensures
        forall|i: int| 0 <= i < results.len() ==> #[trigger] results[i] is Err,
        forall|i: int|
            0 <= i < results.len() && quantities[i] >= 1 && !(recipients[i] matches Some(
                CheckedAddr::Invalid(_),
            )) ==> #[trigger] results[i] == Err::<Response, ContractError>(
                ContractError::RelayerNotConfigured {},
            ),
        states.last() == states[0],
    decreases results.len(),
{
    let n = results.len();
    if n > 0 {
        let k = n - 1;
        lemma_mint_needs_binding(
            states.drop_last(),
            infos.drop_last(),
            recipients.drop_last(),
            quantities.drop_last(),
            results.drop_last(),
        );
        assert(states.drop_last()[k] == states[k]);
        assert(mint_outcome(states[k], states[k + 1], infos[k], recipients[k], quantities[k], results[k]));
        assert forall|i: int| 0 <= i < n implies #[trigger] results[i] is Err && (quantities[i] >= 1
            && !(recipients[i] matches Some(CheckedAddr::Invalid(_))) ==> results[i] == Err::<
            Response,
            ContractError,
        >(ContractError::RelayerNotConfigured {})) by {
            if i < k {
                assert(results.drop_last()[i] == results[i]);
                assert(quantities.drop_last()[i] == quantities[i]);
                assert(recipients.drop_last()[i] == recipients[i]);
            }
        }
    }
}

/// A successful mint approves, on the bound issuance contract, exactly the
/// newly allocated attempt id, for exactly the resolved recipient.
pub proof fn lemma_approval_shape(
    pre: State,
    post: State,
    info: MessageInfo,
    recipient: Option<CheckedAddr>,
    quantity: u32,
    r: Result<Response, ContractError>,
)
    requires
        mint_outcome(pre, post, info, recipient, quantity, r),
        r is Ok,
    ensures
        is_approval(
            r->Ok_0.messages@.last(),
            pre.relayer_pointer_addr->Some_0,
            resolved_recipient(info.sender, recipient),
            post.num_mints_attempted,
        ),
        post.mint_attempts@.last().id == post.num_mints_attempted,
        post.num_mints_attempted == pre.num_mints_attempted + 1,
        post.mint_attempts@.last().minter == resolved_recipient(info.sender, recipient),
{
}

} // verus!
