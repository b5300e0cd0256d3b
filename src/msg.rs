use vstd::prelude::*;

verus! {

/// The parameters the contract is created with.
#[derive(Clone, Debug, PartialEq, Eq)]
pub struct InstantiateMsg {
    pub admin: String,
    pub token_name: String,
    pub token_symbol: String,
    pub token_decimals: u8,
    /// The stored code of the token contract to instantiate.
    pub token_code_id: u64,
}

/// The state-changing operations.
#[derive(Clone, Debug, PartialEq, Eq)]
pub enum ExecuteMsg {
    AddToWhiteList { address: String },
    RemoveFromWhiteList { address: String },
    /// Mints `amount` tokens to `recipient`, or to the caller where it is absent.
    Mint { amount: u128, recipient: Option<String> },
}

/// The read-only operations.
#[derive(Clone, Debug, PartialEq, Eq)]
pub enum QueryMsg {
    GetConfig {},
    IsWhitelisted { address: String },
}

/// The answer to `QueryMsg::GetConfig`.
#[derive(Clone, Debug, PartialEq, Eq)]
pub struct ConfigResponse {
    pub admin: String,
    pub token_contract: Option<String>,
}

/// The answer to a query.
#[derive(Clone, Debug, PartialEq, Eq)]
pub enum QueryResponse {
    Config(ConfigResponse),
    IsWhitelisted(bool),
}

/// One attribute of an event emitted by a sub-call.
#[derive(Clone, Debug, PartialEq, Eq)]
pub struct Attribute {
    pub key: String,
    pub value: String,
}

/// An event emitted by a sub-call, as the reply hands it back.
#[derive(Clone, Debug, PartialEq, Eq)]
pub struct Event {
    pub ty: String,
    pub attributes: Vec<Attribute>,
}

/// The deferred request that creates the token contract.
#[derive(Clone, Debug, PartialEq, Eq)]
pub struct TokenInstantiate {
    /// The admin of the created contract.
    pub admin: String,
    pub code_id: u64,
    pub name: String,
    pub symbol: String,
    pub decimals: u8,
    /// The sole mint authority of the token: this contract's own address.
    pub minter: String,
    /// The correlation id under which the reply comes back.
    pub reply_id: u64,
    /// The token contract's JSON instantiate message.
    pub msg: Vec<u8>,
}

/// A mint request sent to the token contract.
#[derive(Clone, Debug, PartialEq, Eq)]
pub struct MintRequest {
    pub token_contract: String,
    pub recipient: String,
    pub amount: u128,
    /// The token contract's JSON mint message.
    pub msg: Vec<u8>,
}

/// What a successful execute call did.
#[derive(Clone, Debug, PartialEq, Eq)]
pub enum Action {
    WhitelistAdded(String),
    WhitelistRemoved(String),
    Mint(MintRequest),
}

pub open spec fn opt_view(o: Option<String>) -> Option<Seq<char>> {
    match o {
        Some(s) => Some(s@),
        None => None,
    }
}

} // verus!
