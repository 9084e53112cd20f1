use vstd::prelude::*;

use crate::error::ContractError;

verus! {

/// One entry of the append-only ledger of mint attempts.
#[derive(Debug, Clone, PartialEq, Eq)]
pub struct MintAttempt {
    pub id: u32,
    pub minter: String,
    pub quantity: u32,
    pub funds: u128,
}

/// The whole persistent state of the contract.
#[derive(Debug, Clone, PartialEq, Eq)]
pub struct State {
    /// The address allowed to configure the relayer; absent once renounced.
    pub owner: Option<String>,
    /// The issuance contract that completes each mint.
    pub relayer_pointer_addr: Option<String>,
    /// The custodian that receives forwarded funds.
    pub relayer_associated_addr: Option<String>,
    /// How many attempt ids have been allocated so far.
    pub num_mints_attempted: u32,
    /// The ledger: the attempt with id `i + 1` stands at index `i`.
    pub mint_attempts: Vec<MintAttempt>,
}

/// The ledger holds exactly the ids `1..=counter`, in order.
pub open spec fn ledger_matches_counter(attempts: Seq<MintAttempt>, counter: u32) -> bool {
    &&& attempts.len() == counter
    &&& forall|i: int| 0 <= i < attempts.len() ==> #[trigger] attempts[i].id == i + 1
}

impl MintAttempt {
    /// Allocates the next attempt id and records the attempt under it.
    /// Fails, changing nothing, only when every id is taken.
    pub fn new(state: &mut State, minter: &String, quantity: u32, funds: u128) -> (r: Result<
        MintAttempt,
        ContractError,
    >)
        requires
            old(state).wf(),
        ensures
            final(state).wf(),
            match r {
                Ok(a) => {
                    &&& old(state).num_mints_attempted < u32::MAX
                    &&& a.id == old(state).num_mints_attempted + 1
                    &&& a.minter == *minter
                    &&& a.quantity == quantity
                    &&& a.funds == funds
                    &&& final(state).num_mints_attempted == a.id
                    &&& final(state).mint_attempts@ == old(state).mint_attempts@.push(a)
                    &&& final(state).owner == old(state).owner
                    &&& final(state).relayer_pointer_addr == old(state).relayer_pointer_addr
                    &&& final(state).relayer_associated_addr
                        == old(state).relayer_associated_addr
                },
                Err(e) => {
                    &&& old(state).num_mints_attempted == u32::MAX
                    &&& e == ContractError::AttemptIdsExhausted {}
                    &&& *final(state) == *old(state)
                },
            },
    {
        if state.num_mints_attempted == u32::MAX {
            return Err(ContractError::AttemptIdsExhausted {});
        }
        let id = state.num_mints_attempted + 1;
        state.num_mints_attempted = id;
        state.mint_attempts.push(MintAttempt { id, minter: minter.clone(), quantity, funds });
        proof {
            let s = state.mint_attempts@;
            assert forall|i: int| 0 <= i < s.len() implies #[trigger] s[i].id == i + 1 by {
                if i < s.len() - 1 {
                    assert(s[i] == old(state).mint_attempts@[i]);
                }
            }
        }
        Ok(MintAttempt { id, minter: minter.clone(), quantity, funds })
    }
}

impl State {
    /// The binding is set as a whole or not at all, and the ledger agrees
    /// with the counter.
    pub open spec fn wf(&self) -> bool {
        &&& self.relayer_pointer_addr.is_some() == self.relayer_associated_addr.is_some()
        &&& ledger_matches_counter(self.mint_attempts@, self.num_mints_attempted)
    }

    /// The state right after instantiation, owned by `owner`.
    pub fn initial(owner: String) -> (r: State)
        ensures
            r.wf(),
            r.owner == Some(owner),
            r.relayer_pointer_addr is None,
            r.relayer_associated_addr is None,
            r.num_mints_attempted == 0,
            r.mint_attempts@.len() == 0,
    {
        State {
            owner: Some(owner),
            relayer_pointer_addr: None,
            relayer_associated_addr: None,
            num_mints_attempted: 0,
            mint_attempts: Vec::new(),
        }
    }

    /// Checks `wf`, for a state assembled from storage.
    pub fn is_well_formed(&self) -> (r: bool)
        ensures
            r == self.wf(),
    {
        if self.relayer_pointer_addr.is_some() != self.relayer_associated_addr.is_some() {
            return false;
        }
        if self.mint_attempts.len() != self.num_mints_attempted as usize {
            return false;
        }
        let mut i: usize = 0;
        while i < self.mint_attempts.len()
            invariant
                i <= self.mint_attempts@.len(),
                self.mint_attempts@.len() <= u32::MAX,
                forall|j: int| 0 <= j < i ==> #[trigger] self.mint_attempts@[j].id == j + 1,
            decreases self.mint_attempts@.len() - i,
        {
            if self.mint_attempts[i].id != (i + 1) as u32 {
                return false;
            }
            i = i + 1;
        }
        true
    }

    /// The attempt allocated under `id`, if any.
    pub open spec fn attempt_at(&self, id: u32) -> Option<MintAttempt> {
        if 1 <= id <= self.mint_attempts@.len() {
            Some(self.mint_attempts@[id - 1])
        } else {
            None
        }
    }
}

} // verus!
