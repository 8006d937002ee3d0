use vstd::prelude::*;

verus! {

/// What the contract keeps between calls.
#[derive(Debug, Clone, PartialEq, Eq)]
pub struct State {
    pub collection: String,
    /// The address of the NFT contract whose tokens are sold.
    pub contract: String,
    pub description: String,
    pub symbol: String,
    pub logo_uri: String,
    pub banner_uri: String,
    pub supply: i32,
    /// The address that receives the proceeds of the sale.
    pub owner: String,
    pub phases: Vec<Phase>,
    pub fee_paid: bool,
    /// The number of tokens sold so far.
    pub last_minted: i32,
    /// The index in `phases` of the phase that is selling.
    pub current_phase: i8,
    pub stopped: bool,
}

/// A record of one token sold.
#[derive(Debug, Clone, PartialEq, Eq)]
pub struct Mint {
    pub token_id: String,
    pub owner: String,
    pub phase: i8,
}

/// One phase of the sale. Amounts and times are plain integers: `price` in
/// the smallest unit of the coin, `starts` and `ends` in seconds.
#[derive(Debug, Clone, PartialEq, Eq)]
pub struct Phase {
    pub name: String,
    /// The addresses that may buy in this phase; a first entry `*` lets anyone buy.
    pub allowed: Vec<String>,
    pub price: u128,
    pub ends: u128,
    pub starts: u128,
    /// How many tokens one address may hold for a purchase to be accepted.
    pub allocation: i32,
    pub denom: String,
}

} // verus!
