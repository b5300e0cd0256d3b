use vstd::prelude::*;

use crate::encode::{
    balances_view, encode_mint, encode_token_instantiate, mint_json, token_instantiate_json,
};
use crate::error::ContractError;
use crate::msg::{
    opt_view, Action, Attribute, ConfigResponse, Event, ExecuteMsg, InstantiateMsg, MintRequest,
    QueryMsg, QueryResponse, TokenInstantiate,
};
use crate::state::{Config, Store};

verus! {

/// The correlation id of the reply to the token-creation request.
pub const INSTANTIATE_TOKEN_REPLY_ID: u64 = 1;

/// The deferred requests whose replies the contract routes.
#[derive(Clone, Copy, Debug, PartialEq, Eq, Structural)]
pub enum ReplyId {
    InstantiateToken,
    Other(u64),
}

impl ReplyId {
    pub fn from_id(id: u64) -> (r: ReplyId)
        ensures
            r == (if id == INSTANTIATE_TOKEN_REPLY_ID {
                ReplyId::InstantiateToken
            } else {
                ReplyId::Other(id)
            }),
    {
        if id == INSTANTIATE_TOKEN_REPLY_ID {
            ReplyId::InstantiateToken
        } else {
            ReplyId::Other(id)
        }
    }
}

/// The first event of type `ty` in `evs`.
pub open spec fn first_event(evs: Seq<Event>, ty: Seq<char>) -> Option<Event>
    decreases evs.len(),
{
    if evs.len() == 0 {
        None
    } else if evs[0].ty@ == ty {
        Some(evs[0])
    } else {
        first_event(evs.drop_first(), ty)
    }
}

/// The value of the first attribute keyed `key` in `attrs`.
pub open spec fn attribute_value(attrs: Seq<Attribute>, key: Seq<char>) -> Option<Seq<char>>
    decreases attrs.len(),
{
    if attrs.len() == 0 {
        None
    } else if attrs[0].key@ == key {
        Some(attrs[0].value@)
    } else {
        attribute_value(attrs.drop_first(), key)
    }
}

/// The created contract's address that a successful instantiate reply carries:
/// the `_contract_address` attribute of its first `instantiate` event.
pub open spec fn created_contract_address(evs: Seq<Event>) -> Option<Seq<char>> {
    match first_event(evs, "instantiate"@) {
        Some(e) => attribute_value(e.attributes@, "_contract_address"@),
        None => None,
    }
}

fn find_attribute(attrs: &Vec<Attribute>, key: &String) -> (r: Option<String>)
    ensures
        opt_view(r) == attribute_value(attrs@, key@),
{
    let mut i: usize = 0;
    assert(attrs@.subrange(0, attrs@.len() as int) =~= attrs@);
    while i < attrs.len()
        invariant
            i <= attrs@.len(),
            attribute_value(attrs@, key@) == attribute_value(
                attrs@.subrange(i as int, attrs@.len() as int),
                key@,
            ),
        decreases attrs@.len() - i,
    {
        let ghost rest = attrs@.subrange(i as int, attrs@.len() as int);
        if attrs[i].key == *key {
            return Some(attrs[i].value.clone());
        }
        assert(rest.drop_first() =~= attrs@.subrange(i + 1, attrs@.len() as int));
        i = i + 1;
    }
    None
}

/// Finds the created contract's address in the events of an instantiate reply.
pub fn find_contract_address(events: &Vec<Event>) -> (r: Option<String>)
    ensures
        opt_view(r) == created_contract_address(events@),
{
    let ty = "instantiate".to_owned();
    let key = "_contract_address".to_owned();
    let mut i: usize = 0;
    assert(events@.subrange(0, events@.len() as int) =~= events@);
    while i < events.len()
        invariant
            i <= events@.len(),
            ty@ == "instantiate"@,
            key@ == "_contract_address"@,
            first_event(events@, "instantiate"@) == first_event(
                events@.subrange(i as int, events@.len() as int),
                "instantiate"@,
            ),
        decreases events@.len() - i,
    {
        let ghost rest = events@.subrange(i as int, events@.len() as int);
        if events[i].ty == ty {
            return find_attribute(&events[i].attributes, &key);
        }
        assert(rest.drop_first() =~= events@.subrange(i + 1, events@.len() as int));
        i = i + 1;
    }
    None
}

/// The store and request that instantiation produces, the request carrying
/// the encoded token message `encoded`.
pub open spec fn instantiated(
    msg: InstantiateMsg,
    self_addr: Seq<char>,
    encoded: Seq<u8>,
    r: Result<(Store, TokenInstantiate), ContractError>,
) -> bool {
    r matches Ok((s, t)) && s.wf() && s.admin_view() == msg.admin@ && s.token_view() is None
        && s.whitelist_view() == Set::<Seq<char>>::empty() && t.admin@ == msg.admin@ && t.code_id
        == msg.token_code_id && t.name@ == msg.token_name@ && t.symbol@ == msg.token_symbol@
        && t.decimals == msg.token_decimals && t.minter@ == self_addr && t.reply_id
        == INSTANTIATE_TOKEN_REPLY_ID && t.msg@ == encoded
}

/// The token contract's instantiate message: no initial balances, no supply
/// cap, and `minter` as the sole mint authority.
pub open spec fn token_message(msg: InstantiateMsg, minter: Seq<char>) -> Seq<u8> {
    token_instantiate_json(
        msg.token_name@,
        msg.token_symbol@,
        msg.token_decimals,
        Seq::empty(),
        minter,
        None,
    )
}

/// What `instantiate` returns for `msg`, this contract's own address `self_addr`,
/// and the host's verdict `valid` on the admin address.
pub open spec fn instantiate_post(
    msg: InstantiateMsg,
    self_addr: Seq<char>,
    valid: bool,
    r: Result<(Store, TokenInstantiate), ContractError>,
) -> bool {
    if !valid {
        r == Err::<(Store, TokenInstantiate), ContractError>(ContractError::InvalidAddress)
    } else {
        instantiated(msg, self_addr, token_message(msg, self_addr), r)
    }
}

/// Creates the store, with no token bound yet and an empty whitelist, and the
/// deferred request that creates the token with this contract as its minter.
pub fn instantiate(msg: InstantiateMsg, self_addr: String, admin_valid: bool) -> (r: Result<
    (Store, TokenInstantiate),
    ContractError,
>)
    ensures
        instantiate_post(msg, self_addr@, admin_valid, r),
{
    let no_balances: Vec<(String, u128)> = Vec::new();
    assert(balances_view(no_balances@) =~= Seq::empty());
    let encoded = encode_token_instantiate(
        &msg.token_name,
        &msg.token_symbol,
        msg.token_decimals,
        &no_balances,
        &self_addr,
        None,
    ).unwrap();
    instantiate_encoded(msg, self_addr, admin_valid, encoded)
}

/// Instantiation once the token contract's instantiate message has been
/// encoded as `token_msg`.
pub fn instantiate_encoded(
    msg: InstantiateMsg,
    self_addr: String,
    admin_valid: bool,
    token_msg: Vec<u8>,
) -> (r: Result<(Store, TokenInstantiate), ContractError>)
    ensures
        !admin_valid ==> r == Err::<(Store, TokenInstantiate), ContractError>(
            ContractError::InvalidAddress,
        ),
        admin_valid ==> instantiated(msg, self_addr@, token_msg@, r),
{
    if !admin_valid {
        return Err(ContractError::InvalidAddress);
    }
    let request = TokenInstantiate {
        admin: msg.admin.clone(),
        code_id: msg.token_code_id,
        name: msg.token_name,
        symbol: msg.token_symbol,
        decimals: msg.token_decimals,
        minter: self_addr,
        reply_id: INSTANTIATE_TOKEN_REPLY_ID,
        msg: token_msg,
    };
    let store = Store::new(Config { admin: msg.admin, token_contract: None });
    Ok((store, request))
}

/// What `reply` does for correlation id `id`, the sub-call's `result`, and the
/// host's verdict `valid` on the address found in it.
pub open spec fn reply_post(
    s: Store,
    s2: Store,
    id: u64,
    result: Result<Vec<Event>, String>,
    valid: bool,
    r: Result<Option<String>, ContractError>,
) -> bool {
    if id != INSTANTIATE_TOKEN_REPLY_ID || result is Err {
        r == Ok::<Option<String>, ContractError>(None) && s2 == s
    } else {
        match created_contract_address(result->Ok_0@) {
            None => r == Err::<Option<String>, ContractError>(ContractError::NoContractAddress)
                && s2 == s,
            Some(a) => if !valid {
                r == Err::<Option<String>, ContractError>(ContractError::InvalidAddress) && s2 == s
            } else {
                r matches Ok(Some(x)) && x@ == a && s2.wf() && s2.whitelist_view()
                    == s.whitelist_view() && s2.admin_view() == s.admin_view() && s2.token_view()
                    == Some(a)
            },
        }
    }
}

/// Handles the reply to a deferred request; replies under other ids are ignored.
pub fn reply(
    store: &mut Store,
    id: u64,
    result: Result<Vec<Event>, String>,
    address_valid: bool,
) -> (r: Result<Option<String>, ContractError>)
    requires
        old(store).wf(),
    ensures
        final(store).wf(),
        reply_post(*old(store), *final(store), id, result, address_valid, r),
{
    match ReplyId::from_id(id) {
        ReplyId::InstantiateToken => handle_instantiate_token_reply(store, result, address_valid),
        ReplyId::Other(_) => Ok(None),
    }
}

fn handle_instantiate_token_reply(
    store: &mut Store,
    result: Result<Vec<Event>, String>,
    address_valid: bool,
) -> (r: Result<Option<String>, ContractError>)
    requires
        old(store).wf(),
    ensures
        final(store).wf(),
        reply_post(*old(store), *final(store), INSTANTIATE_TOKEN_REPLY_ID, result, address_valid, r),
{
    match result {
        Ok(events) => {
            match find_contract_address(&events) {
                None => Err(ContractError::NoContractAddress),
                Some(addr) => {
                    if !address_valid {
                        return Err(ContractError::InvalidAddress);
                    }
                    store.set_token_contract(addr.clone());
                    Ok(Some(addr))
                },
            }
        },
        Err(_) => Ok(None),
    }
}

/// What `add_to_whitelist` does.
pub open spec fn add_post(
    s: Store,
    s2: Store,
    sender: Seq<char>,
    address: Seq<char>,
    valid: bool,
    r: Result<Action, ContractError>,
) -> bool {
    if sender != s.admin_view() {
        r == Err::<Action, ContractError>(ContractError::Unauthorized) && s2 == s
    } else if !valid {
        r == Err::<Action, ContractError>(ContractError::InvalidAddress) && s2 == s
    } else {
        r matches Ok(Action::WhitelistAdded(a)) && a@ == address && s2.wf() && s2.config_view()
            == s.config_view() && s2.whitelist_view() == s.whitelist_view().insert(address)
    }
}

/// What `remove_from_whitelist` does.
pub open spec fn remove_post(
    s: Store,
    s2: Store,
    sender: Seq<char>,
    address: Seq<char>,
    valid: bool,
    r: Result<Action, ContractError>,
) -> bool {
    if sender != s.admin_view() {
        r == Err::<Action, ContractError>(ContractError::Unauthorized) && s2 == s
    } else if !valid {
        r == Err::<Action, ContractError>(ContractError::InvalidAddress) && s2 == s
    } else {
        r matches Ok(Action::WhitelistRemoved(a)) && a@ == address && s2.wf() && s2.config_view()
            == s.config_view() && s2.whitelist_view() == s.whitelist_view().remove(address)
    }
}

/// Where a mint goes: the bound token contract and the resolved recipient,
/// or why the mint is refused.
pub open spec fn mint_target(
    s: Store,
    sender: Seq<char>,
    recipient: Option<Seq<char>>,
    valid: bool,
) -> Result<(Seq<char>, Seq<char>), ContractError> {
    match s.token_view() {
        None => Err(ContractError::NoContractAddress),
        Some(t) => if !s.may_mint(sender) {
            Err(ContractError::Unauthorized)
        } else if recipient is Some && !valid {
            Err(ContractError::InvalidAddress)
        } else {
            Ok(
                (
                    t,
                    match recipient {
                        Some(x) => x,
                        None => sender,
                    },
                ),
            )
        },
    }
}

/// What `mint_tokens` returns.
pub open spec fn mint_post(
    s: Store,
    sender: Seq<char>,
    amount: u128,
    recipient: Option<Seq<char>>,
    valid: bool,
    r: Result<Action, ContractError>,
) -> bool {
    match mint_target(s, sender, recipient, valid) {
        Err(e) => r == Err::<Action, ContractError>(e),
        Ok((t, to)) => r matches Ok(Action::Mint(m)) && m.token_contract@ == t && m.recipient@
            == to && m.amount == amount && m.msg@ == mint_json(to, amount),
    }
}

/// What `execute` does for `msg` sent by `sender`; `valid` is the host's verdict
/// on the address that `msg` carries, if any.
pub open spec fn execute_post(
    s: Store,
    s2: Store,
    sender: Seq<char>,
    msg: ExecuteMsg,
    valid: bool,
    r: Result<Action, ContractError>,
) -> bool {
    match msg {
        ExecuteMsg::AddToWhiteList { address } => add_post(s, s2, sender, address@, valid, r),
        ExecuteMsg::RemoveFromWhiteList { address } => remove_post(
            s,
            s2,
            sender,
            address@,
            valid,
            r,
        ),
        ExecuteMsg::Mint { amount, recipient } => s2 == s && mint_post(
            s,
            sender,
            amount,
            opt_view(recipient),
            valid,
            r,
        ),
    }
}

/// Runs one state-changing operation sent by `sender`.
pub fn execute(store: &mut Store, sender: &String, msg: ExecuteMsg, address_valid: bool) -> (r:
    Result<Action, ContractError>)
    requires
        old(store).wf(),
    ensures
        final(store).wf(),
        execute_post(*old(store), *final(store), sender@, msg, address_valid, r),
{
    match msg {
        ExecuteMsg::AddToWhiteList { address } => add_to_whitelist(
            store,
            sender,
            address,
            address_valid,
        ),
        ExecuteMsg::RemoveFromWhiteList { address } => remove_from_whitelist(
            store,
            sender,
            address,
            address_valid,
        ),
        ExecuteMsg::Mint { amount, recipient } => mint_tokens(
            store,
            sender,
            amount,
            recipient,
            address_valid,
        ),
    }
}

fn is_admin(store: &Store, sender: &String) -> (r: bool)
    ensures
        r == (sender@ == store.admin_view()),
{
    *sender == store.config().admin
}

/// Adds `address` to the whitelist; only the admin may.
pub fn add_to_whitelist(store: &mut Store, sender: &String, address: String, address_valid: bool) -> (r:
    Result<Action, ContractError>)
    requires
        old(store).wf(),
    ensures
        final(store).wf(),
        add_post(*old(store), *final(store), sender@, address@, address_valid, r),
{
    if !is_admin(store, sender) {
        return Err(ContractError::Unauthorized);
    }
    if !address_valid {
        return Err(ContractError::InvalidAddress);
    }
    store.whitelist_insert(address.clone());
    Ok(Action::WhitelistAdded(address))
}

/// Removes `address` from the whitelist; only the admin may.
pub fn remove_from_whitelist(
    store: &mut Store,
    sender: &String,
    address: String,
    address_valid: bool,
) -> (r: Result<Action, ContractError>)
    requires
        old(store).wf(),
    ensures
        final(store).wf(),
        remove_post(*old(store), *final(store), sender@, address@, address_valid, r),
{
    if !is_admin(store, sender) {
        return Err(ContractError::Unauthorized);
    }
    if !address_valid {
        return Err(ContractError::InvalidAddress);
    }
    store.whitelist_remove(&address);
    Ok(Action::WhitelistRemoved(address))
}

/// Whether `sender` holds the capability to mint.
pub fn can_mint(store: &Store, sender: &String) -> (r: bool)
    requires
        store.wf(),
    ensures
        r == store.may_mint(sender@),
{
    is_admin(store, sender) || store.is_whitelisted(sender)
}

/// Decides where a mint goes: the bound token contract and the recipient, or
/// the caller where no recipient is given; only the admin and whitelisted
/// callers may mint.
pub fn resolve_mint(
    store: &Store,
    sender: &String,
    recipient: Option<String>,
    recipient_valid: bool,
) -> (r: Result<(String, String), ContractError>)
    requires
        store.wf(),
    ensures
        match r {
            Ok((t, to)) => mint_target(*store, sender@, opt_view(recipient), recipient_valid)
                == Ok::<(Seq<char>, Seq<char>), ContractError>((t@, to@)),
            Err(e) => mint_target(*store, sender@, opt_view(recipient), recipient_valid) == Err::<
                (Seq<char>, Seq<char>),
                ContractError,
            >(e),
        },
{
    let token = match &store.config().token_contract {
        Some(t) => t.clone(),
        None => {
            return Err(ContractError::NoContractAddress);
        },
    };
    if !can_mint(store, sender) {
        return Err(ContractError::Unauthorized);
    }
    let to = match recipient {
        Some(addr) => {
            if !recipient_valid {
                return Err(ContractError::InvalidAddress);
            }
            addr
        },
        None => sender.clone(),
    };
    Ok((token, to))
}

/// Builds the mint request for `amount` tokens to `recipient`, or to the caller
/// where it is absent; only the admin and whitelisted callers may mint.
pub fn mint_tokens(
    store: &Store,
    sender: &String,
    amount: u128,
    recipient: Option<String>,
    recipient_valid: bool,
) -> (r: Result<Action, ContractError>)
    requires
        store.wf(),
    ensures
        mint_post(*store, sender@, amount, opt_view(recipient), recipient_valid, r),
{
    let (token, to) = match resolve_mint(store, sender, recipient, recipient_valid) {
        Ok(p) => p,
        Err(e) => {
            return Err(e);
        },
    };
    let msg = encode_mint(&to, amount).unwrap();
    Ok(Action::Mint(MintRequest { token_contract: token, recipient: to, amount, msg }))
}

/// Answers a read-only query; `address_valid` is the host's verdict on the
/// address that `msg` carries, if any.
pub fn query(store: &Store, msg: QueryMsg, address_valid: bool) -> (r: Result<
    QueryResponse,
    ContractError,
>)
    requires
        store.wf(),
    ensures
        match msg {
            QueryMsg::GetConfig {  } => r matches Ok(QueryResponse::Config(c)) && c.admin@
                == store.admin_view() && opt_view(c.token_contract) == store.token_view(),
            QueryMsg::IsWhitelisted { address } => if !address_valid {
                r == Err::<QueryResponse, ContractError>(ContractError::InvalidAddress)
            } else {
                r == Ok::<QueryResponse, ContractError>(
                    QueryResponse::IsWhitelisted(store.whitelist_view().contains(address@)),
                )
            },
        },
{
    match msg {
        QueryMsg::GetConfig {  } => {
            let config = store.config();
            Ok(
                QueryResponse::Config(
                    ConfigResponse {
                        admin: config.admin.clone(),
                        token_contract: config.token_contract.clone(),
                    },
                ),
            )
        },
        QueryMsg::IsWhitelisted { address } => {
            if !address_valid {
                return Err(ContractError::InvalidAddress);
            }
            Ok(QueryResponse::IsWhitelisted(store.is_whitelisted(&address)))
        },
    }
}

} // verus!
