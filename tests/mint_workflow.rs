use cw_minter::contract::{
    execute, execute_mint, execute_set_relayer, instantiate, mint_fund_amount, query,
    query_mint_attempt, query_relayer,
};
use cw_minter::error::ContractError;
use cw_minter::msg::{
    CheckedAddr, Coin, Event, ExecuteMsg, InstantiateMsg, MessageInfo, OutgoingMsg, QueryMsg,
    QueryResp, RelayerResp,
};
use cw_minter::state::{MintAttempt, State};
use cw_minter::SUPPORTED_DENOM;

fn info(sender: &str, funds: Vec<(&str, u128)>) -> MessageInfo {
    MessageInfo {
        sender: sender.to_string(),
        funds: funds
            .into_iter()
            .map(|(d, a)| Coin { denom: d.to_string(), amount: a })
            .collect(),
    }
}

fn valid(a: &str) -> CheckedAddr {
    CheckedAddr::Valid(a.to_string())
}

fn fresh(owner: &str) -> State {
    let (state, _) = instantiate(&info(owner, vec![]), InstantiateMsg { admin: None }).unwrap();
    state
}

fn bound(owner: &str) -> State {
    let mut state = fresh(owner);
    execute_set_relayer(&mut state, &info(owner, vec![]), valid("A"), valid("B")).unwrap();
    state
}

#[test]
fn scenario_set_relayer_then_mint() {
    let mut state = fresh("owner");
    let resp = execute_set_relayer(&mut state, &info("owner", vec![]), valid("A"), valid("B"))
        .unwrap();
    assert!(resp.messages.is_empty());
    assert_eq!(
        resp.event,
        Event::SetRelayer { pointer_address: "A".to_string(), associated_address: "B".to_string() }
    );

    let resp = execute_mint(&mut state, &info("C", vec![("usei", 100)]), None, 3).unwrap();
    assert_eq!(
        query_mint_attempt(&state, 1).unwrap(),
        MintAttempt { id: 1, minter: "C".to_string(), quantity: 3, funds: 100 }
    );
    assert_eq!(
        resp.messages,
        vec![
            OutgoingMsg::BankSend {
                to_address: "B".to_string(),
                denom: "usei".to_string(),
                amount: 100
            },
            OutgoingMsg::Approve {
                contract_addr: "A".to_string(),
                spender: "C".to_string(),
                token_id: 1
            },
        ]
    );
    assert_eq!(resp.event, Event::Mint { recipient: "C".to_string(), quantity: 3, funds: 100 });

    let err = execute_mint(&mut state, &info("C", vec![("usei", 100)]), None, 0).unwrap_err();
    assert_eq!(err, ContractError::InvalidMintQuantity { quantity: 0 });
    assert_eq!(state.num_mints_attempted, 1);
    assert_eq!(state.mint_attempts.len(), 1);
}

#[test]
fn ids_are_consecutive_over_many_mints() {
    let mut state = bound("owner");
    for n in 1..=20u32 {
        let resp = execute_mint(&mut state, &info("C", vec![]), None, 1).unwrap();
        match resp.messages.last().unwrap() {
            OutgoingMsg::Approve { token_id, .. } => assert_eq!(*token_id, n),
            other => panic!("unexpected message {:?}", other),
        }
    }
    assert_eq!(state.num_mints_attempted, 20);
    for (i, a) in state.mint_attempts.iter().enumerate() {
        assert_eq!(a.id, i as u32 + 1);
    }
}

#[test]
fn failed_mint_leaves_state_unchanged() {
    let mut state = bound("owner");
    execute_mint(&mut state, &info("C", vec![("usei", 5)]), None, 2).unwrap();
    let before = state.clone();
    assert!(execute_mint(&mut state, &info("C", vec![]), None, 0).is_err());
    assert!(execute_mint(&mut state, &info("C", vec![("uatom", 5)]), None, 1).is_err());
    assert!(execute_mint(&mut state, &info("C", vec![]), Some(CheckedAddr::Invalid("x".to_string())), 1).is_err());
    assert_eq!(state, before);
}

#[test]
fn funds_are_forwarded_to_the_custodian() {
    let mut state = bound("owner");
    let resp = execute_mint(&mut state, &info("C", vec![("usei", 500)]), None, 1).unwrap();
    assert_eq!(resp.messages.len(), 2);
    assert_eq!(
        resp.messages[0],
        OutgoingMsg::BankSend { to_address: "B".to_string(), denom: "usei".to_string(), amount: 500 }
    );
}

#[test]
fn no_funds_emits_only_the_approval() {
    let mut state = bound("owner");
    let resp = execute_mint(&mut state, &info("C", vec![]), None, 1).unwrap();
    assert_eq!(
        resp.messages,
        vec![OutgoingMsg::Approve {
            contract_addr: "A".to_string(),
            spender: "C".to_string(),
            token_id: 1
        }]
    );
    assert_eq!(resp.event, Event::Mint { recipient: "C".to_string(), quantity: 1, funds: 0 });
    assert_eq!(state.mint_attempts[0].funds, 0);
}

#[test]
fn zero_amount_of_supported_denom_sends_nothing() {
    let mut state = bound("owner");
    let resp = execute_mint(&mut state, &info("C", vec![("usei", 0)]), None, 1).unwrap();
    assert_eq!(resp.messages.len(), 1);
}

#[test]
fn mixed_or_wrong_funds_are_rejected() {
    let mut state = bound("owner");
    let before = state.clone();
    let two = info("C", vec![("usei", 5), ("uatom", 5)]);
    assert_eq!(execute_mint(&mut state, &two, None, 1), Err(ContractError::InvalidFundsReceived {}));
    let same_twice = info("C", vec![("usei", 5), ("usei", 5)]);
    assert_eq!(
        execute_mint(&mut state, &same_twice, None, 1),
        Err(ContractError::InvalidFundsReceived {})
    );
    let wrong = info("C", vec![("uatom", 5)]);
    assert_eq!(execute_mint(&mut state, &wrong, None, 1), Err(ContractError::InvalidFundsReceived {}));
    assert_eq!(state, before);
}

#[test]
fn fund_amount_by_shape() {
    assert_eq!(mint_fund_amount(&vec![]), Ok(0));
    assert_eq!(
        mint_fund_amount(&vec![Coin { denom: SUPPORTED_DENOM.to_string(), amount: u128::MAX }]),
        Ok(u128::MAX)
    );
    assert_eq!(
        mint_fund_amount(&vec![Coin { denom: "USEI".to_string(), amount: 1 }]),
        Err(ContractError::InvalidFundsReceived {})
    );
}

#[test]
fn mint_before_binding_is_refused() {
    let mut state = fresh("owner");
    let before = state.clone();
    assert_eq!(
        execute_mint(&mut state, &info("C", vec![("usei", 1)]), None, 1),
        Err(ContractError::RelayerNotConfigured {})
    );
    assert_eq!(
        execute_mint(&mut state, &info("C", vec![]), Some(valid("D")), 7),
        Err(ContractError::RelayerNotConfigured {})
    );
    assert_eq!(state, before);
}

#[test]
fn approval_names_recipient_and_new_id() {
    let mut state = bound("owner");
    execute_mint(&mut state, &info("C", vec![]), None, 1).unwrap();
    let resp = execute_mint(&mut state, &info("C", vec![]), Some(valid("D")), 2).unwrap();
    assert_eq!(
        resp.messages.last().unwrap(),
        &OutgoingMsg::Approve { contract_addr: "A".to_string(), spender: "D".to_string(), token_id: 2 }
    );
    assert_eq!(
        query_mint_attempt(&state, 2).unwrap(),
        MintAttempt { id: 2, minter: "D".to_string(), quantity: 2, funds: 0 }
    );
}

#[test]
fn invalid_recipient_is_reported_after_quantity() {
    let mut state = bound("owner");
    let bad = || Some(CheckedAddr::Invalid("bad addr".to_string()));
    assert_eq!(
        execute_mint(&mut state, &info("C", vec![]), bad(), 0),
        Err(ContractError::InvalidMintQuantity { quantity: 0 })
    );
    assert_eq!(
        execute_mint(&mut state, &info("C", vec![]), bad(), 1),
        Err(ContractError::InvalidAddress { address: "bad addr".to_string() })
    );
}

#[test]
fn well_formedness_check() {
    let mut state = State {
        owner: Some("owner".to_string()),
        relayer_pointer_addr: Some("A".to_string()),
        relayer_associated_addr: Some("B".to_string()),
        num_mints_attempted: u32::MAX,
        mint_attempts: vec![],
    };
    assert!(!state.is_well_formed());
    state.num_mints_attempted = 0;
    assert!(state.is_well_formed());
    state.relayer_associated_addr = None;
    assert!(!state.is_well_formed());
    let mut ok = bound("owner");
    execute_mint(&mut ok, &info("C", vec![]), None, 1).unwrap();
    assert!(ok.is_well_formed());
    ok.mint_attempts[0].id = 5;
    assert!(!ok.is_well_formed());
}

#[test]
fn set_relayer_requires_owner() {
    let mut state = fresh("owner");
    let before = state.clone();
    assert_eq!(
        execute_set_relayer(&mut state, &info("mallory", vec![]), valid("A"), valid("B")),
        Err(ContractError::Unauthorized { sender: "mallory".to_string() })
    );
    assert_eq!(state, before);
}

#[test]
fn set_relayer_rejects_invalid_addresses() {
    let mut state = fresh("owner");
    let before = state.clone();
    let bad = CheckedAddr::Invalid("!".to_string());
    assert_eq!(
        execute_set_relayer(&mut state, &info("owner", vec![]), bad.clone(), valid("B")),
        Err(ContractError::InvalidAddress { address: "!".to_string() })
    );
    assert_eq!(
        execute_set_relayer(&mut state, &info("owner", vec![]), valid("A"), bad),
        Err(ContractError::InvalidAddress { address: "!".to_string() })
    );
    assert_eq!(state, before);
    assert_eq!(query_relayer(&state), RelayerResp { associated_address: None, pointer_address: None });
}

#[test]
fn set_relayer_overwrites_both_fields() {
    let mut state = bound("owner");
    execute_set_relayer(&mut state, &info("owner", vec![]), valid("pointer2"), valid("custodian2")).unwrap();
    assert_eq!(
        query_relayer(&state),
        RelayerResp { associated_address: Some("custodian2".to_string()), pointer_address: Some("pointer2".to_string()) }
    );
}

#[test]
fn set_relayer_after_renounce_is_unauthorized() {
    let mut state = fresh("owner");
    state.owner = None;
    assert_eq!(
        execute_set_relayer(&mut state, &info("owner", vec![]), valid("A"), valid("B")),
        Err(ContractError::Unauthorized { sender: "owner".to_string() })
    );
}

#[test]
fn instantiate_picks_admin_or_sender() {
    let (state, resp) =
        instantiate(&info("creator", vec![]), InstantiateMsg { admin: Some(valid("admin")) }).unwrap();
    assert_eq!(state.owner, Some("admin".to_string()));
    assert_eq!(state.num_mints_attempted, 0);
    assert!(state.mint_attempts.is_empty());
    assert_eq!(resp.event, Event::Instantiate { admin: "admin".to_string() });
    let (state, _) = instantiate(&info("creator", vec![]), InstantiateMsg { admin: None }).unwrap();
    assert_eq!(state.owner, Some("creator".to_string()));
    assert_eq!(
        instantiate(
            &info("creator", vec![]),
            InstantiateMsg { admin: Some(CheckedAddr::Invalid("?".to_string())) }
        ),
        Err(ContractError::InvalidAddress { address: "?".to_string() })
    );
}

#[test]
fn execute_dispatches() {
    let mut state = fresh("owner");
    execute(
        &mut state,
        &info("owner", vec![]),
        ExecuteMsg::SetRelayer { pointer_address: valid("A"), associated_address: valid("B") },
    )
    .unwrap();
    let resp = execute(
        &mut state,
        &info("C", vec![("usei", 9)]),
        ExecuteMsg::Mint { recipient: None, quantity: 4 },
    )
    .unwrap();
    assert_eq!(resp.messages.len(), 2);
    assert_eq!(state.num_mints_attempted, 1);
}

#[test]
fn queries_answer_from_state() {
    let mut state = bound("owner");
    execute_mint(&mut state, &info("C", vec![("usei", 3)]), None, 1).unwrap();
    assert_eq!(
        query(&state, QueryMsg::Relayer {}),
        Ok(QueryResp::Relayer(RelayerResp {
            associated_address: Some("B".to_string()),
            pointer_address: Some("A".to_string())
        }))
    );
    assert_eq!(
        query(&state, QueryMsg::GetMintAttempt { attempt_id: 1 }),
        Ok(QueryResp::MintAttempt(MintAttempt {
            id: 1,
            minter: "C".to_string(),
            quantity: 1,
            funds: 3
        }))
    );
    assert_eq!(
        query(&state, QueryMsg::GetMintAttempt { attempt_id: 2 }),
        Err(ContractError::NotFound { attempt_id: 2 })
    );
    assert_eq!(query_mint_attempt(&state, 0), Err(ContractError::NotFound { attempt_id: 0 }));
}

#[test]
fn mint_attempt_new_allocates_next_id() {
    let mut state = fresh("owner");
    let a = MintAttempt::new(&mut state, &"m".to_string(), 2, 10).unwrap();
    assert_eq!(a, MintAttempt { id: 1, minter: "m".to_string(), quantity: 2, funds: 10 });
    assert_eq!(state.mint_attempts, vec![a]);
    assert_eq!(state.num_mints_attempted, 1);
}

