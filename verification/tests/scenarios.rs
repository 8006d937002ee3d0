use std::time::{self, UNIX_EPOCH};

use candy_machine::contract::execute::{check_phase, finish_mint, payment_of, start_mint};
use candy_machine::contract::{instantiate, GetOwnedQueryResponse};
use candy_machine::error::ContractError;
use candy_machine::msg::{Coin, Creator, InstantiateMsg, OutMsg};
use candy_machine::state::{Phase, State};

/// The seconds since the epoch, as the chain's block time in these scenarios.
fn now() -> u64 {
    time::SystemTime::now().duration_since(UNIX_EPOCH).expect("time is broken").as_secs()
}

fn set_up(nft_contract: &str, phases: Vec<Phase>, codeid: u64) -> State {
    let (state, _response) = instantiate(
        InstantiateMsg {
            collection: "collection".to_string(),
            contract: nft_contract.to_string(),
            description: "description".to_string(),
            symbol: "symbol".to_string(),
            logo_uri: "logo_uri".to_string(),
            banner_uri: "banner_uri".to_string(),
            supply: 100,
            creators: vec![Creator { address: "creator".to_string(), share: 100 }],
            basis_points: 100,
            phases,
            codeid,
        },
        "owner".to_string(),
    );
    state
}

fn public_phase(allowed: &str, allocation: i32) -> Phase {
    Phase {
        name: "public".to_string(),
        allowed: vec![allowed.to_string()],
        price: 0,
        ends: (now() + 1000) as u128,
        starts: now() as u128,
        allocation,
        denom: "inj".to_string(),
    }
}

/// Runs a whole mint, the NFT contract answering that `sender` holds `held`.
fn mint_once(
    state: State,
    sender: &str,
    funds: Vec<Coin>,
    held: Vec<String>,
) -> Result<(State, candy_machine::msg::ContractResponse), ContractError> {
    let payment = payment_of(&funds)?;
    let (state, _advanced) = check_phase(state, now());
    let pending = start_mint(state, sender.to_string(), payment)?;
    finish_mint(pending, &GetOwnedQueryResponse { ids: held })
}

#[test]
fn init() {
    let state = set_up("contract0", vec![], 2619);
    assert_eq!(state.collection, "collection");
    assert_eq!(state.owner, "owner");
    assert_eq!(state.supply, 100);
    assert!(state.phases.is_empty());
    println!("contract instantiated")
}

#[test]
fn mint() {
    let state = set_up("contract0", vec![public_phase("owner", 5)], 49);
    // the owner already holds token 0 of the NFT contract
    let held = vec![0.to_string()];
    let funds = vec![Coin { denom: "inj".to_string(), amount: 2010000 }];
    let (state, response) = mint_once(state, "owner", funds, held).expect("Minting is borked");
    assert_eq!(state.last_minted, 1);
    assert_eq!(response.messages.len(), 3);
}

#[test]
fn allowlist() {
    let state = set_up("contract0", vec![public_phase("owner", 5)], 49);
    let err = mint_once(state, "random", vec![], vec![]).unwrap_err();
    assert_eq!(ContractError::Unauthorized { reason: "not in allowlist".to_string() }, err);
}

#[test]
fn mint_limit() {
    let state = set_up("contract0", vec![public_phase("random", 1)], 49);

    // first mint should succeed: "random" holds nothing yet
    let (state, response) = mint_once(state, "random", vec![], vec![]).expect("Could not mint from CM");
    // the NFT contract hands the token named in the transfer to "random"
    let held = match &response.messages[0] {
        OutMsg::TransferNft { msg, .. } => vec![msg.transfer_nft.token_id.clone()],
        _ => panic!("the first message of a sale transfers the token"),
    };

    // second mint should fail: "random" holds its allocation
    let err = mint_once(state, "random", vec![], held).unwrap_err();
    assert_eq!(ContractError::Unauthorized { reason: "max minted".to_string() }, err);
}
