use vstd::prelude::*;

use crate::state::Phase;

verus! {

/// The message that sets a candy machine up.
#[derive(Debug, Clone, PartialEq, Eq)]
pub struct InstantiateMsg {
    pub collection: String,
    pub contract: String,
    pub description: String,
    pub symbol: String,
    pub logo_uri: String,
    pub banner_uri: String,
    pub supply: i32,
    pub creators: Vec<Creator>,
    /// Royalty in basis points: 100 basis points are 1% of the list price.
    pub basis_points: i8,
    pub phases: Vec<Phase>,
    /// The code id of the NFT contract.
    pub codeid: u64,
}

#[derive(Debug, Clone, PartialEq, Eq)]
pub struct Royalties {
    pub seller_fee_basis_points: i8,
    pub creators: Vec<Creator>,
}

#[derive(Debug, Clone, PartialEq, Eq)]
pub struct OwnerOf {
    pub token_id: String,
}

#[derive(Debug, Clone, PartialEq, Eq)]
pub struct GetApprovals {
    pub token_id: String,
}

#[derive(Debug, Clone, PartialEq, Eq)]
pub struct MintingInfo {}

#[derive(Debug, Clone, PartialEq, Eq)]
pub struct Creator {
    pub address: String,
    pub share: i8,
}

/// The executions that the contract offers.
#[derive(Debug, Clone, PartialEq, Eq)]
pub enum ExecuteMsg {
    Mint { signature: String },
}

/// The message sent to the NFT contract to hand a token over.
#[derive(Debug, Clone, PartialEq, Eq)]
pub struct Tmessage {
    pub transfer_nft: SendTokenMsg,
}

#[derive(Debug, Clone, PartialEq, Eq)]
pub struct Rmessage {
    pub revoke: Revoke,
}

#[derive(Debug, Clone, PartialEq, Eq)]
pub struct SendTokenMsg {
    pub recipient: String,
    pub token_id: String,
}

#[derive(Debug, Clone, PartialEq, Eq)]
pub struct Revoke {
    pub spender: String,
    pub token_id: String,
}

/// The queries that the contract answers.
#[derive(Debug, Clone, PartialEq, Eq)]
pub enum QueryMsg {
    GetMetadata {},
    GetPhase {},
}

#[derive(Debug, Clone, PartialEq, Eq)]
pub struct GetMetadataResponse {
    pub collection: String,
    pub description: String,
    pub symbol: String,
    pub logo_uri: String,
    pub banner_uri: String,
    pub minted: i32,
    pub supply: i32,
    pub contract: String,
    pub phases: Vec<Phase>,
}

#[derive(Debug, Clone, PartialEq, Eq)]
pub struct GetListedResponse {
    pub number: i32,
    pub listed: Vec<NFT>,
}

#[derive(Debug, Clone, PartialEq, Eq)]
pub struct GetPhaseResponse {
    pub current: i8,
    pub price: u128,
    pub ends: i128,
    pub started: i128,
    pub allowlist: Vec<String>,
    pub name: String,
}

#[derive(Debug, Clone, PartialEq, Eq)]
pub struct NFT {
    pub id: String,
    pub uri: String,
    pub owner: String,
    pub is_listed: bool,
}

/// An amount of one coin.
#[derive(Debug, Clone, PartialEq, Eq)]
pub struct Coin {
    pub denom: String,
    pub amount: u128,
}

/// A key and a value that a response reports.
#[derive(Debug, Clone, PartialEq, Eq)]
pub struct Attribute {
    pub key: String,
    pub value: String,
}

/// A message that the contract sends out with its response.
#[derive(Debug, Clone, PartialEq, Eq)]
pub enum OutMsg {
    /// Execute `msg` on the contract at `contract_addr`, sending no coins.
    TransferNft { contract_addr: String, msg: Tmessage },
    /// Send `amount` to `to_address` from the contract's balance.
    BankSend { to_address: String, amount: Vec<Coin> },
}

/// What an execution answers: its attributes and the messages it sends.
#[derive(Debug, Clone, PartialEq, Eq)]
pub struct ContractResponse {
    pub attributes: Vec<Attribute>,
    pub messages: Vec<OutMsg>,
}

} // verus!
