use vstd::prelude::*;
use vstd::string::*;

use crate::msg::{Attribute, ContractResponse, GetMetadataResponse, GetPhaseResponse, InstantiateMsg, QueryMsg};
use crate::state::State;

pub mod execute;
pub mod query;

verus! {

#[derive(Debug, Clone, PartialEq, Eq)]
pub struct GetOwnerResponse {
    pub owner: String,
    pub approvals: Vec<String>,
}

#[derive(Debug, Clone, PartialEq, Eq)]
pub struct User {
    pub minted: Vec<i32>,
    pub allowed: bool,
}

/// The `tokens` query of the NFT contract: the ids that `owner` holds.
#[derive(Debug, Clone, PartialEq, Eq)]
pub struct Tokens {
    pub owner: String,
    pub limit: i32,
    pub start_after: Option<String>,
}

#[derive(Debug, Clone, PartialEq, Eq)]
pub struct GetOwnedQuery {
    pub tokens: Tokens,
}

#[derive(Debug, Clone, PartialEq, Eq)]
pub struct GetOwnedQueryResponse {
    pub ids: Vec<String>,
}

/// An attribute whose key is a literal.
pub fn attribute(key: &str, value: String) -> (a: Attribute)
    ensures
        a.key@ == key@,
        a.value == value,
{
    Attribute { key: String::from_str(key), value }
}

/// The state that instantiating with `msg` stores, where `creator` is the
/// account that created the NFT contract named in `msg`: the description of
/// the collection and its phases as given, no token sold, the first phase
/// current, the fee not paid and the machine stopped.
pub open spec fn instantiated(msg: InstantiateMsg, creator: String) -> State {
    State {
        collection: msg.collection,
        contract: msg.contract,
        description: msg.description,
        symbol: msg.symbol,
        logo_uri: msg.logo_uri,
        banner_uri: msg.banner_uri,
        supply: msg.supply,
        owner: creator,
        phases: msg.phases,
        fee_paid: false,
        last_minted: 0,
        current_phase: 0,
        stopped: true,
    }
}

/// What `instantiate(msg, creator)` answers: the state `instantiated(msg,
/// creator)` and a response that sends nothing and reports `method = instantiate`.
pub open spec fn instantiate_post(msg: InstantiateMsg, creator: String, res: (State, ContractResponse)) -> bool {
    &&& res.0 == instantiated(msg, creator)
    &&& res.1.messages@.len() == 0
    &&& res.1.attributes@.len() == 1
    &&& res.1.attributes@[0].key@ == "method"@
    &&& res.1.attributes@[0].value@ == "instantiate"@
}

/// Sets a candy machine up from `msg`. `creator` is the account that created
/// the NFT contract at `msg.contract`; it becomes the owner, who receives the
/// proceeds. Answers the stored state and a response that sends nothing and
/// reports `method = instantiate`.
pub fn instantiate(msg: InstantiateMsg, creator: String) -> (res: (State, ContractResponse))
    ensures
        instantiate_post(msg, creator, res),
{
    let state = State {
        collection: msg.collection,
        contract: msg.contract,
        description: msg.description,
        symbol: msg.symbol,
        logo_uri: msg.logo_uri,
        banner_uri: msg.banner_uri,
        supply: msg.supply,
        owner: creator,
        phases: msg.phases,
        fee_paid: false,
        last_minted: 0,
        current_phase: 0,
        stopped: true,
    };
    let mut attributes: Vec<Attribute> = Vec::new();
    attributes.push(attribute("method", String::from_str("instantiate")));
    (state, ContractResponse { attributes, messages: Vec::new() })
}

/// What a query answers.
#[derive(Debug, Clone, PartialEq, Eq)]
pub enum QueryAnswer {
    Metadata(GetMetadataResponse),
    Phase(GetPhaseResponse),
}

/// What `query(state, now, msg)` answers.
pub open spec fn query_post(state: State, now: u64, msg: QueryMsg, answer: QueryAnswer) -> bool {
    match msg {
        QueryMsg::GetMetadata {} => answer == QueryAnswer::Metadata(query::metadata_of(state)),
        QueryMsg::GetPhase {} => answer == QueryAnswer::Phase(query::phase_response(state, now)),
    }
}

/// Answers `msg` on the stored `state` at time `now` (in seconds).
pub fn query(state: State, now: u64, msg: QueryMsg) -> (answer: QueryAnswer)
    requires
        msg is GetPhase ==> query::phase_query_defined(state, now),
    ensures
        query_post(state, now, msg, answer),
{
    match msg {
        QueryMsg::GetMetadata {} => QueryAnswer::Metadata(query::get_metadata(state)),
        QueryMsg::GetPhase {} => QueryAnswer::Phase(query::get_phase(state, now)),
    }
}

} // verus!
