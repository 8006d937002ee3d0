use candy_machine::contract::execute::{
    check_phase, contains_address, fee_on, finish_mint, i32_to_string, mint_finish_answerable,
    mint_start_answerable, payment_of, phase_check_answerable, start_mint, PendingMint, MINT_FEE_PERCENT,
};
use candy_machine::contract::query::{get_metadata, get_phase, phase_query_answerable};
use candy_machine::contract::{instantiate, query, GetOwnedQueryResponse, QueryAnswer};
use candy_machine::error::ContractError;
use candy_machine::msg::{Coin, Creator, InstantiateMsg, OutMsg, QueryMsg};
use candy_machine::state::{Phase, State};

fn phase(name: &str, allowed: &[&str], price: u128, ends: u128, allocation: i32) -> Phase {
    Phase {
        name: name.to_string(),
        allowed: allowed.iter().map(|a| a.to_string()).collect(),
        price,
        ends,
        starts: 0,
        allocation,
        denom: "inj".to_string(),
    }
}

fn message(phases: Vec<Phase>) -> InstantiateMsg {
    InstantiateMsg {
        collection: "Nebula".to_string(),
        contract: "nft".to_string(),
        description: "a collection".to_string(),
        symbol: "NEB".to_string(),
        logo_uri: "logo".to_string(),
        banner_uri: "banner".to_string(),
        supply: 10,
        creators: vec![Creator { address: "creator".to_string(), share: 100 }],
        basis_points: 50,
        phases,
        codeid: 7,
    }
}

fn machine(phases: Vec<Phase>) -> State {
    instantiate(message(phases), "creator".to_string()).0
}

fn inj(amount: u128) -> Vec<Coin> {
    vec![Coin { denom: "inj".to_string(), amount }]
}

/// The first three steps of a mint request.
fn request(state: State, sender: &str, funds: &Vec<Coin>, now: u64) -> Result<PendingMint, ContractError> {
    let payment = payment_of(funds)?;
    let (state, _advanced) = check_phase(state, now);
    start_mint(state, sender.to_string(), payment)
}

fn sell(state: State, sender: &str, funds: Vec<Coin>, now: u64, held: usize) -> Result<(State, candy_machine::msg::ContractResponse), ContractError> {
    let pending = request(state, sender, &funds, now)?;
    let ids = (0..held).map(|i| i.to_string()).collect();
    finish_mint(pending, &GetOwnedQueryResponse { ids })
}

#[test]
fn instantiate_stores_the_message_and_reports_the_method() {
    let (state, response) = instantiate(message(vec![phase("one", &["*"], 5, 100, 1)]), "creator".to_string());
    assert_eq!(state.owner, "creator");
    assert_eq!(state.contract, "nft");
    assert_eq!(state.last_minted, 0);
    assert_eq!(state.current_phase, 0);
    assert!(!state.fee_paid);
    assert!(state.stopped);
    assert_eq!(response.attributes.len(), 1);
    assert_eq!(response.attributes[0].key, "method");
    assert_eq!(response.attributes[0].value, "instantiate");
    assert!(response.messages.is_empty());
}

#[test]
fn metadata_after_instantiate_gives_back_the_message() {
    let msg = message(vec![phase("one", &["*"], 5, 100, 1)]);
    let metadata = get_metadata(machine(msg.phases.clone()));
    assert_eq!(metadata.collection, msg.collection);
    assert_eq!(metadata.description, msg.description);
    assert_eq!(metadata.symbol, msg.symbol);
    assert_eq!(metadata.logo_uri, msg.logo_uri);
    assert_eq!(metadata.banner_uri, msg.banner_uri);
    assert_eq!(metadata.supply, msg.supply);
    assert_eq!(metadata.contract, msg.contract);
    assert_eq!(metadata.phases, msg.phases);
    assert_eq!(metadata.minted, 0);
}

#[test]
fn fee_is_three_percent_rounded_down() {
    assert_eq!(MINT_FEE_PERCENT, 3);
    assert_eq!(fee_on(100), 3);
    assert_eq!(fee_on(1_000_000), 30_000);
    assert_eq!(fee_on(33), 0);
    assert_eq!(fee_on(34), 1);
    assert_eq!(fee_on(0), 0);
    assert_eq!(fee_on(u128::MAX), u128::MAX / 100 * 3 + (u128::MAX % 100) * 3 / 100);
}

#[test]
fn decimal_text_of_integers() {
    assert_eq!(i32_to_string(0), "0");
    assert_eq!(i32_to_string(7), "7");
    assert_eq!(i32_to_string(1234), "1234");
    assert_eq!(i32_to_string(-56), "-56");
    assert_eq!(i32_to_string(i32::MAX), i32::MAX.to_string());
    assert_eq!(i32_to_string(i32::MIN), i32::MIN.to_string());
}

#[test]
fn sale_counts_transfers_and_pays_out() {
    let state = machine(vec![phase("one", &["alice"], 1000, 100, 2)]);
    let (after, response) = sell(state, "alice", inj(1030), 10, 1).expect("sale");
    assert_eq!(after.last_minted, 1);
    assert_eq!(response.attributes[0].key, "action");
    assert_eq!(response.attributes[0].value, "mint");
    assert_eq!(response.attributes[1].key, "token");
    assert_eq!(response.attributes[1].value, "1");
    match &response.messages[0] {
        OutMsg::TransferNft { contract_addr, msg } => {
            assert_eq!(contract_addr, "nft");
            assert_eq!(msg.transfer_nft.recipient, "alice");
            assert_eq!(msg.transfer_nft.token_id, "0");
        }
        other => panic!("unexpected {:?}", other),
    }
    let paid_out: u128 = response.messages[1..]
        .iter()
        .map(|m| match m {
            OutMsg::BankSend { amount, .. } => amount[0].amount,
            other => panic!("unexpected {:?}", other),
        })
        .sum();
    assert_eq!(paid_out, 1030);
    assert_eq!(
        response.messages[1],
        OutMsg::BankSend { to_address: "creator".to_string(), amount: inj(1000) }
    );
    assert_eq!(
        response.messages[2],
        OutMsg::BankSend {
            to_address: "inj1q7juqp9sw4sjahshanryw2a4qhenlmev9ygpm7".to_string(),
            amount: inj(30)
        }
    );
}

#[test]
fn overpayment_goes_to_the_owner() {
    let state = machine(vec![phase("one", &["*"], 100, 1000, 5)]);
    let (_, response) = sell(state, "bob", inj(500), 10, 0).expect("sale");
    assert_eq!(response.messages[1], OutMsg::BankSend { to_address: "creator".to_string(), amount: inj(497) });
    assert_eq!(
        response.messages[2],
        OutMsg::BankSend { to_address: "inj1q7juqp9sw4sjahshanryw2a4qhenlmev9ygpm7".to_string(), amount: inj(3) }
    );
}

#[test]
fn successive_sales_transfer_different_tokens() {
    let state = machine(vec![phase("one", &["*"], 0, 1000, 10)]);
    let (state, first) = sell(state, "bob", vec![], 10, 0).expect("first sale");
    let (state, second) = sell(state, "bob", vec![], 10, 1).expect("second sale");
    assert_eq!(state.last_minted, 2);
    let token = |r: &candy_machine::msg::ContractResponse| match &r.messages[0] {
        OutMsg::TransferNft { msg, .. } => msg.transfer_nft.token_id.clone(),
        _ => panic!("no transfer"),
    };
    assert_eq!(token(&first), "0");
    assert_eq!(token(&second), "1");
}

#[test]
fn wrong_denom_is_refused() {
    let state = machine(vec![phase("one", &["*"], 0, 1000, 10)]);
    let funds = vec![Coin { denom: "atom".to_string(), amount: 5 }];
    assert_eq!(
        sell(state, "bob", funds, 10, 0).unwrap_err(),
        ContractError::Unauthorized { reason: "wrong denom".to_string() }
    );
}

#[test]
fn wrong_denom_is_refused_before_the_phases_are_read() {
    let state = machine(vec![]);
    let funds = vec![Coin { denom: "atom".to_string(), amount: 5 }];
    assert!(!phase_check_answerable(&state, 10));
    assert_eq!(
        payment_of(&funds).unwrap_err(),
        ContractError::Unauthorized { reason: "wrong denom".to_string() }
    );
}

#[test]
fn insufficient_funds_are_refused() {
    let state = machine(vec![phase("one", &["*"], 1000, 1000, 10)]);
    assert_eq!(sell(state.clone(), "bob", inj(1029), 10, 0).unwrap_err(), ContractError::InsufficientFunds {});
    assert_eq!(sell(state.clone(), "bob", vec![], 10, 0).unwrap_err(), ContractError::InsufficientFunds {});
    assert!(sell(state, "bob", inj(1030), 10, 0).is_ok());
}

#[test]
fn wildcard_allowlist_lets_anyone_buy() {
    let state = machine(vec![phase("one", &["*", "alice"], 0, 1000, 10)]);
    assert!(sell(state, "zed", vec![], 10, 0).is_ok());
}

#[test]
fn wildcard_only_counts_first() {
    let state = machine(vec![phase("one", &["alice", "*"], 0, 1000, 10)]);
    assert_eq!(
        sell(state, "zed", vec![], 10, 0).unwrap_err(),
        ContractError::Unauthorized { reason: "not in allowlist".to_string() }
    );
}

#[test]
fn allocation_limits_holdings() {
    let state = machine(vec![phase("one", &["*"], 0, 1000, 2)]);
    assert!(sell(state.clone(), "bob", vec![], 10, 1).is_ok());
    assert_eq!(
        sell(state.clone(), "bob", vec![], 10, 2).unwrap_err(),
        ContractError::Unauthorized { reason: "max minted".to_string() }
    );
    let unlimited = machine(vec![phase("one", &["*"], 0, 1000, -1)]);
    assert!(sell(unlimited, "bob", vec![], 10, 40).is_ok());
}

#[test]
fn mint_moves_to_the_next_phase_once_the_current_has_ended() {
    let phases = vec![phase("early", &["alice"], 0, 100, 5), phase("public", &["*"], 50, 200, 5)];
    let state = machine(phases);
    // at the end of the first phase the next one sells: its price applies
    assert_eq!(sell(state.clone(), "alice", vec![], 100, 0).unwrap_err(), ContractError::InsufficientFunds {});
    let (checked, advanced) = check_phase(state.clone(), 100);
    assert!(advanced);
    assert_eq!(checked.current_phase, 1);
    let pending = start_mint(checked, "bob".to_string(), payment_of(&inj(51)).unwrap()).expect("second phase");
    assert_eq!(pending.state.current_phase, 1);
    assert_eq!(pending.query.tokens.owner, "bob");
    assert_eq!(pending.query.tokens.limit, 30);
    assert_eq!(pending.query.tokens.start_after, None);
    let (after, _) = finish_mint(pending, &GetOwnedQueryResponse { ids: vec![] }).expect("sale");
    assert_eq!(after.current_phase, 1);
    // before its end the first phase still sells
    let (checked, advanced) = check_phase(state, 99);
    assert!(!advanced);
    assert_eq!(checked.current_phase, 0);
}

#[test]
fn phase_moves_on_by_one_even_past_several_ended_phases() {
    let phases = vec![phase("a", &["*"], 0, 10, 5), phase("b", &["*"], 0, 20, 5), phase("c", &["*"], 0, 30, 5)];
    let (checked, advanced) = check_phase(machine(phases), 25);
    assert!(advanced);
    assert_eq!(checked.current_phase, 1);
}

#[test]
fn a_refused_request_keeps_the_checked_phase() {
    let phases = vec![phase("early", &["alice"], 0, 100, 5), phase("public", &["*"], 50, 200, 5)];
    let (checked, advanced) = check_phase(machine(phases), 150);
    assert!(advanced);
    // the request is then refused, but the checked state is what gets stored
    assert_eq!(start_mint(checked.clone(), "bob".to_string(), payment_of(&vec![]).unwrap()).unwrap_err(), ContractError::InsufficientFunds {});
    assert_eq!(checked.current_phase, 1);
}

#[test]
fn max_minted_is_answered_even_with_a_full_counter() {
    let mut state = machine(vec![phase("one", &["*"], 0, 1000, 1)]);
    state.last_minted = i32::MAX;
    let pending = request(state, "bob", &vec![], 10).expect("pending");
    let held = GetOwnedQueryResponse { ids: vec!["0".to_string()] };
    assert!(mint_finish_answerable(&pending, &held));
    assert_eq!(
        finish_mint(pending.clone(), &held).unwrap_err(),
        ContractError::Unauthorized { reason: "max minted".to_string() }
    );
    // a sale that went ahead would overflow the counter
    assert!(!mint_finish_answerable(&pending, &GetOwnedQueryResponse { ids: vec![] }));
}

#[test]
fn requests_that_cannot_be_answered_are_recognised() {
    let sender = "bob".to_string();
    let zero = payment_of(&vec![]).unwrap();
    // no phase at all
    assert!(!phase_check_answerable(&machine(vec![]), 10));
    // the only phase has ended: the check moves past the last phase
    let (checked, _) = check_phase(machine(vec![phase("one", &["*"], 0, 5, 1)]), 10);
    assert!(!mint_start_answerable(&checked, &sender, &zero));
    // an empty allowlist on an affordable phase
    assert!(!mint_start_answerable(&machine(vec![phase("one", &[], 0, 50, 1)]), &sender, &zero));
    // the cost overflows
    assert!(!mint_start_answerable(&machine(vec![phase("one", &["*"], u128::MAX, 50, 1)]), &sender, &zero));
    assert!(mint_start_answerable(&machine(vec![phase("one", &["*"], 0, 50, 1)]), &sender, &zero));
    assert!(phase_check_answerable(&machine(vec![phase("one", &["*"], 0, 50, 1)]), 10));
    assert!(contains_address(&vec!["a".to_string(), "bob".to_string()], &sender));
    assert!(!contains_address(&vec![], &sender));
}

#[test]
fn phase_query_shows_the_current_or_next_phase() {
    let phases = vec![phase("early", &["alice"], 0, 100, 5), phase("public", &["*"], 50, 200, 5)];
    let state = machine(phases);
    let early = get_phase(state.clone(), 99);
    assert_eq!(early.name, "early");
    assert_eq!(early.current, 0);
    assert_eq!(early.price, 0);
    assert_eq!(early.ends, 100);
    assert_eq!(early.started, 0);
    assert_eq!(early.allowlist, vec!["alice".to_string()]);
    // at the very second the phase ends, the query still shows it
    assert_eq!(get_phase(state.clone(), 100).name, "early");
    let public = get_phase(state.clone(), 101);
    assert_eq!(public.name, "public");
    assert_eq!(public.current, 1);
    assert_eq!(public.price, 50);
    assert_eq!(public.ends, 200);
    assert!(phase_query_answerable(&state, 150));
    assert!(!phase_query_answerable(&machine(vec![phase("only", &["*"], 0, 100, 1)]), 150));
    assert!(!phase_query_answerable(&machine(vec![]), 0));
    match query(state.clone(), 101, QueryMsg::GetPhase {}) {
        QueryAnswer::Phase(p) => assert_eq!(p, public),
        other => panic!("unexpected {:?}", other),
    }
    match query(state.clone(), 101, QueryMsg::GetMetadata {}) {
        QueryAnswer::Metadata(m) => assert_eq!(m, get_metadata(state)),
        other => panic!("unexpected {:?}", other),
    }
}

#[test]
fn phase_query_saturates_times_beyond_i128() {
    let state = machine(vec![phase("far", &["*"], 0, u128::MAX, 1)]);
    let shown = get_phase(state, 0);
    assert_eq!(shown.ends, i128::MAX);
    assert_eq!(shown.started, 0);
}

#[test]
fn pending_mint_fields_are_public() {
    let state = machine(vec![phase("one", &["*"], 0, 1000, 1)]);
    let pending: PendingMint = request(state, "bob", &vec![], 1).expect("pending");
    assert_eq!(pending.sender, "bob");
    assert_eq!(pending.payment, Coin { denom: "inj".to_string(), amount: 0 });
}

#[test]
fn minted_counts_sales_over_a_run_with_refusals() {
    let state = machine(vec![phase("one", &["alice"], 10, 1000, 100)]);
    let (state, _) = sell(state, "alice", inj(10), 5, 0).expect("first");
    assert!(sell(state.clone(), "bob", inj(10), 5, 0).is_err());
    assert!(sell(state.clone(), "alice", inj(3), 5, 0).is_err());
    let (state, resp) = sell(state, "alice", inj(10), 5, 1).expect("second");
    match &resp.messages[0] {
        OutMsg::TransferNft { msg, .. } => assert_eq!(msg.transfer_nft.token_id, "1"),
        _ => panic!("no transfer"),
    }
    assert_eq!(resp.attributes[1].value, "2");
    assert_eq!(get_metadata(state).minted, 2);
}
