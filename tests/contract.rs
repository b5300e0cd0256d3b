use std::collections::HashMap;

use whitelist_cw20::contract::{
    execute, find_contract_address, instantiate, instantiate_encoded, mint_tokens, query, reply,
    resolve_mint, ReplyId, INSTANTIATE_TOKEN_REPLY_ID,
};
use whitelist_cw20::error::ContractError;
use whitelist_cw20::msg::{
    Action, Attribute, ConfigResponse, Event, ExecuteMsg, InstantiateMsg, MintRequest, QueryMsg,
    QueryResponse, TokenInstantiate,
};
use whitelist_cw20::state::{Config, Store};

const FACTORY: &str = "factory_contract";
const TOKEN: &str = "token_contract";

fn s(x: &str) -> String {
    x.to_string()
}

fn init_msg(admin: &str) -> InstantiateMsg {
    InstantiateMsg {
        admin: s(admin),
        token_name: s("the token name"),
        token_symbol: s("TKNSYBL"),
        token_decimals: 6,
        token_code_id: 1,
    }
}

fn created_events(addr: &str) -> Vec<Event> {
    vec![Event {
        ty: s("instantiate"),
        attributes: vec![
            Attribute { key: s("code_id"), value: s("1") },
            Attribute { key: s("_contract_address"), value: s(addr) },
        ],
    }]
}

/// Instantiates with `admin` and delivers the reply that binds the token.
fn setup_app(admin: &str) -> (Store, TokenInstantiate) {
    let (mut store, request) = instantiate(init_msg(admin), s(FACTORY), true).unwrap();
    let bound = reply(&mut store, request.reply_id, Ok(created_events(TOKEN)), true).unwrap();
    assert_eq!(bound, Some(s(TOKEN)));
    (store, request)
}

fn get_config(store: &Store) -> ConfigResponse {
    match query(store, QueryMsg::GetConfig {}, true).unwrap() {
        QueryResponse::Config(c) => c,
        other => panic!("unexpected answer {:?}", other),
    }
}

fn is_whitelisted(store: &Store, address: &str) -> bool {
    match query(store, QueryMsg::IsWhitelisted { address: s(address) }, true).unwrap() {
        QueryResponse::IsWhitelisted(b) => b,
        other => panic!("unexpected answer {:?}", other),
    }
}

/// Stands in for the token contract's ledger: applies a mint request.
fn apply_mint(ledger: &mut HashMap<String, u128>, action: Action) {
    match action {
        Action::Mint(MintRequest { token_contract, recipient, amount, msg }) => {
            assert_eq!(token_contract, s(TOKEN));
            assert_eq!(msg, mint_json(&recipient, amount));
            *ledger.entry(recipient).or_insert(0) += amount;
        }
        other => panic!("expected a mint, got {:?}", other),
    }
}

fn mint_json(recipient: &str, amount: u128) -> Vec<u8> {
    format!("{{\"mint\":{{\"recipient\":\"{}\",\"amount\":\"{}\"}}}}", recipient, amount)
        .into_bytes()
}

fn balance(ledger: &HashMap<String, u128>, who: &str) -> u128 {
    *ledger.get(who).unwrap_or(&0)
}

#[test]
fn test_factory_instantiates_cw20() {
    let (store, request) = setup_app("the_admin");
    let config_resp = get_config(&store);
    assert_eq!(config_resp.admin, s("the_admin"));
    let cw20_addr = config_resp.token_contract.expect("No Contract address set");
    assert_eq!(cw20_addr, s(TOKEN));
    assert_eq!(request.name, "the token name");
    assert_eq!(request.symbol, "TKNSYBL");
    assert_eq!(request.decimals, 6);
    assert_eq!(request.minter, s(FACTORY));
    assert_eq!(request.admin, s("the_admin"));
    assert_eq!(request.code_id, 1);
    let expected = "{\"name\":\"the token name\",\"symbol\":\"TKNSYBL\",\"decimals\":6,\
        \"initial_balances\":[],\"mint\":{\"minter\":\"factory_contract\",\"cap\":null},\
        \"marketing\":null}";
    assert_eq!(String::from_utf8(request.msg).unwrap(), expected);
}

#[test]
fn test_add_and_remove_whitelist() {
    let (mut store, _) = setup_app("the_admin");
    let admin = s("the_admin");
    let user = "user1";
    let add_msg = ExecuteMsg::AddToWhiteList { address: s(user) };
    assert_eq!(execute(&mut store, &admin, add_msg, true), Ok(Action::WhitelistAdded(s(user))));
    assert!(is_whitelisted(&store, user));
    let remove_msg = ExecuteMsg::RemoveFromWhiteList { address: s(user) };
    assert_eq!(
        execute(&mut store, &admin, remove_msg, true),
        Ok(Action::WhitelistRemoved(s(user)))
    );
    assert!(!is_whitelisted(&store, user));
}

#[test]
fn test_mint_tokens() {
    let (mut store, _) = setup_app("the_admin");
    let admin = s("the_admin");
    let recipient = "recipient1";
    let mut ledger: HashMap<String, u128> = HashMap::new();

    let add_msg = ExecuteMsg::AddToWhiteList { address: s(recipient) };
    execute(&mut store, &admin, add_msg, true).unwrap();

    let mint_msg = ExecuteMsg::Mint { amount: 1000, recipient: Some(s(recipient)) };
    apply_mint(&mut ledger, execute(&mut store, &admin, mint_msg, true).unwrap());

    let cw20_addr = get_config(&store).token_contract.expect("No Contract address set");
    assert_eq!(cw20_addr, s(TOKEN));
    assert_eq!(balance(&ledger, recipient), 1000);

    let mint_msg2 = ExecuteMsg::Mint { amount: 234, recipient: None };
    apply_mint(&mut ledger, execute(&mut store, &s(recipient), mint_msg2, true).unwrap());
    assert_eq!(balance(&ledger, recipient), 1234);
}

#[test]
fn end_to_end_scenario() {
    let (mut store, _) = setup_app("A");
    assert_eq!(get_config(&store).token_contract, Some(s(TOKEN)));
    let mut ledger: HashMap<String, u128> = HashMap::new();
    execute(&mut store, &s("A"), ExecuteMsg::AddToWhiteList { address: s("U") }, true).unwrap();
    let m = ExecuteMsg::Mint { amount: 1000, recipient: Some(s("U")) };
    apply_mint(&mut ledger, execute(&mut store, &s("A"), m, true).unwrap());
    assert_eq!(balance(&ledger, "U"), 1000);
    let m = ExecuteMsg::Mint { amount: 234, recipient: None };
    apply_mint(&mut ledger, execute(&mut store, &s("U"), m, true).unwrap());
    assert_eq!(balance(&ledger, "U"), 1234);
}

#[test]
fn instantiate_rejects_invalid_admin() {
    assert!(matches!(
        instantiate(init_msg("BAD ADMIN"), s(FACTORY), false),
        Err(ContractError::InvalidAddress)
    ));
}

#[test]
fn instantiate_leaves_token_unbound_and_whitelist_empty() {
    let (store, request) = instantiate(init_msg("the_admin"), s(FACTORY), true).unwrap();
    assert_eq!(request.reply_id, INSTANTIATE_TOKEN_REPLY_ID);
    assert_eq!(
        get_config(&store),
        ConfigResponse { admin: s("the_admin"), token_contract: None }
    );
    assert!(!is_whitelisted(&store, "the_admin"));
    assert!(!is_whitelisted(&store, "user1"));
}

#[test]
fn mint_before_reply_fails() {
    let (mut store, _) = instantiate(init_msg("the_admin"), s(FACTORY), true).unwrap();
    let m = ExecuteMsg::Mint { amount: 5, recipient: None };
    assert_eq!(
        execute(&mut store, &s("the_admin"), m, true),
        Err(ContractError::NoContractAddress)
    );
}

#[test]
fn reply_without_address_fails() {
    let (mut store, _) = instantiate(init_msg("the_admin"), s(FACTORY), true).unwrap();
    let before = store.clone();
    let events = vec![Event { ty: s("wasm"), attributes: vec![] }];
    assert_eq!(
        reply(&mut store, INSTANTIATE_TOKEN_REPLY_ID, Ok(events), true),
        Err(ContractError::NoContractAddress)
    );
    assert_eq!(store, before);
}

#[test]
fn reply_with_invalid_address_fails() {
    let (mut store, _) = instantiate(init_msg("the_admin"), s(FACTORY), true).unwrap();
    assert_eq!(
        reply(&mut store, INSTANTIATE_TOKEN_REPLY_ID, Ok(created_events("Bad Addr")), false),
        Err(ContractError::InvalidAddress)
    );
    assert_eq!(get_config(&store).token_contract, None);
}

#[test]
fn reply_with_other_id_is_ignored() {
    let (mut store, _) = instantiate(init_msg("the_admin"), s(FACTORY), true).unwrap();
    assert_eq!(reply(&mut store, 7, Ok(created_events(TOKEN)), true), Ok(None));
    assert_eq!(get_config(&store).token_contract, None);
}

#[test]
fn reply_with_failed_result_is_ignored() {
    let (mut store, _) = instantiate(init_msg("the_admin"), s(FACTORY), true).unwrap();
    assert_eq!(reply(&mut store, INSTANTIATE_TOKEN_REPLY_ID, Err(s("failed")), true), Ok(None));
    assert_eq!(get_config(&store).token_contract, None);
}

#[test]
fn contract_address_comes_from_first_instantiate_event() {
    let events = vec![
        Event {
            ty: s("wasm"),
            attributes: vec![Attribute { key: s("_contract_address"), value: s("wrong") }],
        },
        Event {
            ty: s("instantiate"),
            attributes: vec![
                Attribute { key: s("_contract_address"), value: s("first") },
                Attribute { key: s("_contract_address"), value: s("second") },
            ],
        },
        Event {
            ty: s("instantiate"),
            attributes: vec![Attribute { key: s("_contract_address"), value: s("later") }],
        },
    ];
    assert_eq!(find_contract_address(&events), Some(s("first")));
    let missing = vec![
        Event { ty: s("instantiate"), attributes: vec![] },
        Event {
            ty: s("instantiate"),
            attributes: vec![Attribute { key: s("_contract_address"), value: s("later") }],
        },
    ];
    assert_eq!(find_contract_address(&missing), None);
    assert_eq!(find_contract_address(&vec![]), None);
}

#[test]
fn non_admin_cannot_manage_whitelist() {
    let (mut store, _) = setup_app("the_admin");
    let before = store.clone();
    let add = ExecuteMsg::AddToWhiteList { address: s("user1") };
    assert_eq!(execute(&mut store, &s("user1"), add, true), Err(ContractError::Unauthorized));
    let remove = ExecuteMsg::RemoveFromWhiteList { address: s("user1") };
    assert_eq!(execute(&mut store, &s("user1"), remove, true), Err(ContractError::Unauthorized));
    assert_eq!(store, before);
}

#[test]
fn whitelisted_user_cannot_manage_whitelist() {
    let (mut store, _) = setup_app("the_admin");
    execute(&mut store, &s("the_admin"), ExecuteMsg::AddToWhiteList { address: s("u") }, true)
        .unwrap();
    let add = ExecuteMsg::AddToWhiteList { address: s("v") };
    assert_eq!(execute(&mut store, &s("u"), add, true), Err(ContractError::Unauthorized));
    assert!(!is_whitelisted(&store, "v"));
}

#[test]
fn whitelist_operations_are_idempotent() {
    let (mut store, _) = setup_app("the_admin");
    let admin = s("the_admin");
    for _ in 0..2 {
        let add = ExecuteMsg::AddToWhiteList { address: s("u") };
        assert!(execute(&mut store, &admin, add, true).is_ok());
        assert!(is_whitelisted(&store, "u"));
    }
    for _ in 0..2 {
        let remove = ExecuteMsg::RemoveFromWhiteList { address: s("u") };
        assert!(execute(&mut store, &admin, remove, true).is_ok());
        assert!(!is_whitelisted(&store, "u"));
    }
}

#[test]
fn whitelist_rejects_invalid_address() {
    let (mut store, _) = setup_app("the_admin");
    let add = ExecuteMsg::AddToWhiteList { address: s("Bad Addr") };
    assert_eq!(execute(&mut store, &s("the_admin"), add, false), Err(ContractError::InvalidAddress));
    let remove = ExecuteMsg::RemoveFromWhiteList { address: s("Bad Addr") };
    assert_eq!(
        execute(&mut store, &s("the_admin"), remove, false),
        Err(ContractError::InvalidAddress)
    );
}

#[test]
fn stranger_cannot_mint() {
    let (store, _) = setup_app("the_admin");
    assert_eq!(
        mint_tokens(&store, &s("stranger"), 10, None, true),
        Err(ContractError::Unauthorized)
    );
}

#[test]
fn admin_mints_without_whitelist() {
    let (store, _) = setup_app("the_admin");
    let r = mint_tokens(&store, &s("the_admin"), 10, Some(s("bob")), true);
    assert_eq!(
        r,
        Ok(Action::Mint(MintRequest {
            token_contract: s(TOKEN),
            recipient: s("bob"),
            amount: 10,
            msg: mint_json("bob", 10)
        }))
    );
}

#[test]
fn mint_without_recipient_credits_caller() {
    let (mut store, _) = setup_app("the_admin");
    execute(&mut store, &s("the_admin"), ExecuteMsg::AddToWhiteList { address: s("u") }, true)
        .unwrap();
    let r = mint_tokens(&store, &s("u"), u128::MAX, None, true);
    assert_eq!(
        r,
        Ok(Action::Mint(MintRequest {
            token_contract: s(TOKEN),
            recipient: s("u"),
            amount: u128::MAX,
            msg: b"{\"mint\":{\"recipient\":\"u\",\"amount\":\"340282366920938463463374607431768211455\"}}"
                .to_vec()
        }))
    );
}

#[test]
fn mint_rejects_invalid_recipient() {
    let (store, _) = setup_app("the_admin");
    assert_eq!(
        mint_tokens(&store, &s("the_admin"), 10, Some(s("Bad Addr")), false),
        Err(ContractError::InvalidAddress)
    );
}

#[test]
fn query_rejects_invalid_address() {
    let (store, _) = setup_app("the_admin");
    let q = QueryMsg::IsWhitelisted { address: s("Bad Addr") };
    assert_eq!(query(&store, q, false), Err(ContractError::InvalidAddress));
}

#[test]
fn store_from_parts_keeps_each_address_once() {
    let config = Config { admin: s("a"), token_contract: Some(s(TOKEN)) };
    let mut store = Store::from_parts(config.clone(), vec![s("x"), s("y"), s("x")]);
    assert_eq!(store.config(), &config);
    assert!(store.is_whitelisted(&s("x")));
    assert!(store.is_whitelisted(&s("y")));
    assert!(!store.is_whitelisted(&s("z")));
    store.whitelist_remove(&s("x"));
    assert!(!store.is_whitelisted(&s("x")));
    assert!(store.is_whitelisted(&s("y")));
}

#[test]
fn reply_id_routes_by_tag() {
    assert_eq!(ReplyId::from_id(INSTANTIATE_TOKEN_REPLY_ID), ReplyId::InstantiateToken);
    assert_eq!(ReplyId::from_id(2), ReplyId::Other(2));
}

#[test]
fn error_messages() {
    assert_eq!(ContractError::InvalidAddress.message(), "Invalid address");
    assert_eq!(ContractError::Unauthorized.message(), "Unauthorized");
    assert_eq!(ContractError::NoContractAddress.message(), "No contract address");
}

#[test]
fn instantiate_encoded_carries_given_bytes() {
    let (store, request) =
        instantiate_encoded(init_msg("the_admin"), s(FACTORY), true, vec![1, 2, 3]).unwrap();
    assert_eq!(request.msg, vec![1, 2, 3]);
    assert_eq!(request.reply_id, INSTANTIATE_TOKEN_REPLY_ID);
    assert_eq!(get_config(&store).admin, s("the_admin"));
    assert!(matches!(
        instantiate_encoded(init_msg("the_admin"), s(FACTORY), false, vec![1]),
        Err(ContractError::InvalidAddress)
    ));
}

#[test]
fn mint_passes_zero_amount_unchanged() {
    let (store, _) = setup_app("the_admin");
    assert_eq!(
        mint_tokens(&store, &s("the_admin"), 0, None, true),
        Ok(Action::Mint(MintRequest {
            token_contract: s(TOKEN),
            recipient: s("the_admin"),
            amount: 0,
            msg: mint_json("the_admin", 0)
        }))
    );
}

#[test]
fn whitelist_history_with_calls_between() {
    let (mut store, _) = setup_app("the_admin");
    let admin = s("the_admin");
    assert!(!is_whitelisted(&store, "u"));
    let m = ExecuteMsg::Mint { amount: 1, recipient: None };
    execute(&mut store, &admin, m, true).unwrap();
    let add = ExecuteMsg::AddToWhiteList { address: s("u") };
    assert!(execute(&mut store, &s("u"), add, true).is_err());
    assert!(!is_whitelisted(&store, "u"));
    execute(&mut store, &admin, ExecuteMsg::AddToWhiteList { address: s("u") }, true).unwrap();
    execute(&mut store, &admin, ExecuteMsg::AddToWhiteList { address: s("v") }, true).unwrap();
    execute(&mut store, &s("u"), ExecuteMsg::Mint { amount: 2, recipient: None }, true).unwrap();
    assert_eq!(reply(&mut store, 9, Ok(vec![]), true), Ok(None));
    assert!(is_whitelisted(&store, "u"));
    execute(&mut store, &admin, ExecuteMsg::RemoveFromWhiteList { address: s("v") }, true)
        .unwrap();
    assert!(is_whitelisted(&store, "u"));
    execute(&mut store, &admin, ExecuteMsg::RemoveFromWhiteList { address: s("u") }, true)
        .unwrap();
    assert!(!is_whitelisted(&store, "u"));
    assert_eq!(
        mint_tokens(&store, &s("u"), 3, None, true),
        Err(ContractError::Unauthorized)
    );
}

#[test]
fn resolve_mint_decides_target() {
    let (unbound, _) = instantiate(init_msg("the_admin"), s(FACTORY), true).unwrap();
    assert_eq!(
        resolve_mint(&unbound, &s("the_admin"), None, true),
        Err(ContractError::NoContractAddress)
    );
    let (store, _) = setup_app("the_admin");
    assert_eq!(resolve_mint(&store, &s("the_admin"), None, true), Ok((s(TOKEN), s("the_admin"))));
    assert_eq!(
        resolve_mint(&store, &s("the_admin"), Some(s("bob")), true),
        Ok((s(TOKEN), s("bob")))
    );
    assert_eq!(resolve_mint(&store, &s("eve"), None, true), Err(ContractError::Unauthorized));
}
