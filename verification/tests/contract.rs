use cosmwasm_std::testing::mock_env;
use deposit_native::contract::{
    execute, execute_add_ask, execute_add_bid, execute_deposit, execute_remove_offer, execute_withdraw, get_config,
    instantiate, query, query_deposits, query_offers, update_config,
};
use deposit_native::error::ContractError;
use deposit_native::host::{BankMsg, MessageInfo, Response};
use deposit_native::msg::{ExecuteMsg, InstantiateMsg, QueryMsg, QueryResponse};
use deposit_native::state::{coin, Coin, Deposits, Offer, Side};
use deposit_native::store::Store;

const SENDER: &str = "sender_address";
const AMOUNT: u128 = 100000;
const DENOM: &str = "utest";

fn mock_info(sender: &str, funds: &[Coin]) -> MessageInfo {
    MessageInfo { sender: sender.to_string(), funds: funds.to_vec() }
}

fn setup_contract(store: &mut Store) {
    let msg = InstantiateMsg {};
    let info = mock_info(SENDER, &[]);
    let res = instantiate(store, mock_env(), info, msg).unwrap();
    assert_eq!(0, res.messages.len());
}

fn deposit_coins(store: &mut Store) {
    let msg = ExecuteMsg::Deposit {};
    let coins = vec![coin(AMOUNT, DENOM)];
    let info = mock_info(SENDER, &coins);
    let res = execute(store, mock_env(), info, msg).unwrap();
    assert_eq!("deposit".to_string(), res.attributes[0].value);
    assert_eq!(DENOM.to_string(), res.attributes[1].value);
    assert_eq!(AMOUNT.to_string(), res.attributes[2].value);
}

fn query_coins(store: &Store) {
    let msg: QueryMsg = QueryMsg::Deposits { address: SENDER.to_string() };
    let res = query(store, mock_env(), msg).unwrap();
    let query = match res {
        QueryResponse::Deposits(found) => found,
        QueryResponse::Offers(_) => panic!("a listing of offers answered a query for deposits"),
    };
    assert_eq!(SENDER, query.deposits[0].1.owner);
    assert_eq!(DENOM, query.deposits[0].1.coins.denom);
    assert_eq!(AMOUNT.to_string(), query.deposits[0].1.coins.amount.to_string());
    assert_eq!(1, query.deposits[0].1.count);
}

fn balance(store: &Store, owner: &str, denom: &str) -> Option<(i32, u128)> {
    store.deposit(owner, denom).map(|held| (held.count, held.coins.amount))
}

#[test]
fn _0_instantiate() {
    let mut store = Store::new();
    setup_contract(&mut store);
}

#[test]
fn _1_deposit() {
    let mut store = Store::new();
    setup_contract(&mut store);
    deposit_coins(&mut store);
}

#[test]
fn _2_query_deposit() {
    let mut store = Store::new();
    setup_contract(&mut store);
    deposit_coins(&mut store);
    query_coins(&store);
}

#[test]
fn _1_deposit_then_withdraw() {
    let mut store = Store::new();
    setup_contract(&mut store);
    deposit_coins(&mut store);
}

#[test]
fn instantiate_makes_the_sender_administrator() {
    let mut store = Store::new();
    assert!(get_config(&store).is_err());
    let res = instantiate(&mut store, mock_env(), mock_info("creator", &[coin(5, "utest")]), InstantiateMsg {});
    assert_eq!(res, Ok(Response { messages: vec![], attributes: vec![] }));
    assert_eq!(get_config(&store).unwrap().owner, "creator");
    assert_eq!(store.deposit("creator", "utest"), None);
}

#[test]
fn first_deposit_opens_the_record() {
    let mut store = Store::new();
    deposit_coins(&mut store);
    assert_eq!(
        store.deposit(SENDER, DENOM),
        Some(Deposits { count: 1, owner: SENDER.to_string(), coins: coin(100000, "utest") })
    );
    let listed = query_deposits(&store, SENDER.to_string()).unwrap();
    assert_eq!(
        listed.deposits,
        vec![("utest".to_string(), Deposits { count: 1, owner: SENDER.to_string(), coins: coin(100000, "utest") })]
    );
}

#[test]
fn deposits_add_up() {
    let mut store = Store::new();
    for amount in [7u128, 0, 100, 4_000_000_000_000_000_000_000] {
        execute_deposit(&mut store, mock_info("alice", &[coin(amount, "uatom")])).unwrap();
    }
    execute_deposit(&mut store, mock_info("alice", &[coin(9, "uosmo")])).unwrap();
    execute_deposit(&mut store, mock_info("bob", &[coin(11, "uatom")])).unwrap();
    assert_eq!(balance(&store, "alice", "uatom"), Some((4, 4_000_000_000_000_000_000_107)));
    assert_eq!(balance(&store, "alice", "uosmo"), Some((1, 9)));
    assert_eq!(balance(&store, "bob", "uatom"), Some((1, 11)));
    assert_eq!(store.deposit("alice", "uatom").unwrap().owner, "alice");
}

#[test]
fn deposit_reports_its_attributes() {
    let mut store = Store::new();
    let res = execute_deposit(&mut store, mock_info("alice", &[coin(42, "uatom")])).unwrap();
    let told: Vec<(&str, &str)> = res.attributes.iter().map(|a| (a.key.as_str(), a.value.as_str())).collect();
    assert_eq!(told, vec![("execute", "deposit"), ("denom", "uatom"), ("amount", "42")]);
    assert!(res.messages.is_empty());
}

#[test]
fn deposit_wants_exactly_one_coin() {
    let mut store = Store::new();
    assert_eq!(execute_deposit(&mut store, mock_info("alice", &[])), Err(ContractError::InvalidFunds {}));
    assert_eq!(
        execute_deposit(&mut store, mock_info("alice", &[coin(1, "uatom"), coin(2, "uosmo")])),
        Err(ContractError::InvalidFunds {})
    );
    assert_eq!(
        execute(&mut store, mock_env(), mock_info("alice", &[]), ExecuteMsg::Deposit {}),
        Err(ContractError::InvalidFunds {})
    );
    assert_eq!(store.deposit("alice", "uatom"), None);
    assert_eq!(store.deposit("alice", "uosmo"), None);
}

#[test]
fn deposit_overflow_is_rejected() {
    let mut store = Store::new();
    execute_deposit(&mut store, mock_info("alice", &[coin(u128::MAX, "uatom")])).unwrap();
    assert_eq!(
        execute_deposit(&mut store, mock_info("alice", &[coin(1, "uatom")])),
        Err(ContractError::Overflow {})
    );
    assert_eq!(balance(&store, "alice", "uatom"), Some((1, u128::MAX)));
    execute_deposit(&mut store, mock_info("alice", &[coin(0, "uatom")])).unwrap();
    assert_eq!(balance(&store, "alice", "uatom"), Some((2, u128::MAX)));
}

#[test]
fn deposit_counter_overflow_is_rejected() {
    let mut store = Store::new();
    let full = Deposits { count: i32::MAX, owner: "alice".to_string(), coins: coin(5, "uatom") };
    store.save_deposit("alice", "uatom", &full).unwrap();
    assert_eq!(
        execute_deposit(&mut store, mock_info("alice", &[coin(1, "uatom")])),
        Err(ContractError::Overflow {})
    );
    assert_eq!(store.deposit("alice", "uatom"), Some(full));
}

#[test]
fn withdraw_takes_the_amount_and_orders_one_transfer() {
    let mut store = Store::new();
    execute_deposit(&mut store, mock_info("alice", &[coin(100, "uatom")])).unwrap();
    let res = execute_withdraw(&mut store, mock_info("alice", &[]), 30, "uatom".to_string()).unwrap();
    assert_eq!(balance(&store, "alice", "uatom"), Some((0, 70)));
    let told: Vec<(&str, &str)> = res.attributes.iter().map(|a| (a.key.as_str(), a.value.as_str())).collect();
    assert_eq!(told, vec![("execute", "withdraw"), ("denom", "uatom"), ("amount", "30")]);
    assert_eq!(
        res.messages,
        vec![BankMsg::Send { to_address: "alice".to_string(), amount: vec![coin(30, "uatom")] }]
    );
}

#[test]
fn withdraw_through_execute() {
    let mut store = Store::new();
    setup_contract(&mut store);
    deposit_coins(&mut store);
    let msg = ExecuteMsg::Withdraw { amount: AMOUNT, denom: DENOM.to_string() };
    let res = execute(&mut store, mock_env(), mock_info(SENDER, &[]), msg).unwrap();
    assert_eq!("withdraw".to_string(), res.attributes[0].value);
    assert_eq!(1, res.messages.len());
    assert_eq!(balance(&store, SENDER, DENOM), Some((0, 0)));
}

#[test]
fn withdraw_without_a_deposit_is_not_found() {
    let mut store = Store::new();
    execute_deposit(&mut store, mock_info("alice", &[coin(100, "uatom")])).unwrap();
    assert_eq!(
        execute_withdraw(&mut store, mock_info("alice", &[]), 1, "uosmo".to_string()),
        Err(ContractError::NotFound {})
    );
    assert_eq!(
        execute_withdraw(&mut store, mock_info("bob", &[]), 1, "uatom".to_string()),
        Err(ContractError::NotFound {})
    );
    assert_eq!(balance(&store, "alice", "uatom"), Some((1, 100)));
}

#[test]
fn withdraw_again_underflows_once_the_balance_is_spent() {
    let mut store = Store::new();
    execute_deposit(&mut store, mock_info("alice", &[coin(60, "uatom")])).unwrap();
    execute_deposit(&mut store, mock_info("alice", &[coin(40, "uatom")])).unwrap();
    execute_withdraw(&mut store, mock_info("alice", &[]), 100, "uatom".to_string()).unwrap();
    assert_eq!(balance(&store, "alice", "uatom"), Some((1, 0)));
    assert_eq!(
        execute_withdraw(&mut store, mock_info("alice", &[]), 100, "uatom".to_string()),
        Err(ContractError::Underflow {})
    );
    assert_eq!(balance(&store, "alice", "uatom"), Some((1, 0)));
}

#[test]
fn withdraw_more_than_held_underflows() {
    let mut store = Store::new();
    execute_deposit(&mut store, mock_info("alice", &[coin(100, "uatom")])).unwrap();
    assert_eq!(
        execute_withdraw(&mut store, mock_info("alice", &[]), 101, "uatom".to_string()),
        Err(ContractError::Underflow {})
    );
    assert_eq!(balance(&store, "alice", "uatom"), Some((1, 100)));
}

#[test]
fn withdraw_with_a_spent_counter_underflows() {
    let mut store = Store::new();
    execute_deposit(&mut store, mock_info("alice", &[coin(100, "uatom")])).unwrap();
    execute_withdraw(&mut store, mock_info("alice", &[]), 10, "uatom".to_string()).unwrap();
    assert_eq!(balance(&store, "alice", "uatom"), Some((0, 90)));
    assert_eq!(
        execute_withdraw(&mut store, mock_info("alice", &[]), 10, "uatom".to_string()),
        Err(ContractError::Underflow {})
    );
    assert_eq!(balance(&store, "alice", "uatom"), Some((0, 90)));
}

#[test]
fn deposit_then_withdraw_restores_the_balance() {
    let mut store = Store::new();
    execute_deposit(&mut store, mock_info("alice", &[coin(500, "uatom")])).unwrap();
    execute_deposit(&mut store, mock_info("alice", &[coin(25, "uatom")])).unwrap();
    let res = execute_withdraw(&mut store, mock_info("alice", &[]), 25, "uatom".to_string()).unwrap();
    assert_eq!(balance(&store, "alice", "uatom"), Some((1, 500)));
    assert_eq!(
        res.messages,
        vec![BankMsg::Send { to_address: "alice".to_string(), amount: vec![coin(25, "uatom")] }]
    );
}

#[test]
fn add_bid_files_the_offer_under_both_keys() {
    let mut store = Store::new();
    let res = execute_add_bid(&mut store, mock_info("alice", &[coin(15, "uatom")]), "token-1".to_string()).unwrap();
    let told: Vec<(&str, &str)> = res.attributes.iter().map(|a| (a.key.as_str(), a.value.as_str())).collect();
    assert_eq!(
        told,
        vec![("execute", "add_bid"), ("denom", "uatom"), ("amount", "15"), ("token_id", "token-1")]
    );
    assert!(res.messages.is_empty());
    let filed = Offer { token_id: "token-1".to_string(), amount: coin(15, "uatom") };
    assert_eq!(store.offer(Side::Bid, "alice", "token-1"), Some(filed.clone()));
    assert_eq!(store.offer(Side::Bid, "token-1", "alice"), Some(filed));
    assert_eq!(store.offer(Side::Ask, "alice", "token-1"), None);
    assert_eq!(store.offer(Side::Ask, "token-1", "alice"), None);
    assert_eq!(store.deposit("alice", "uatom"), None);
}

#[test]
fn second_bid_on_the_same_item_is_rejected() {
    let mut store = Store::new();
    let msg = ExecuteMsg::AddBid { token_id: "token-1".to_string() };
    execute(&mut store, mock_env(), mock_info("alice", &[coin(15, "uatom")]), msg.clone()).unwrap();
    assert_eq!(
        execute(&mut store, mock_env(), mock_info("alice", &[coin(15, "uatom")]), msg),
        Err(ContractError::InvalidBid {})
    );
    assert_eq!(
        execute_add_bid(&mut store, mock_info("alice", &[coin(99, "uosmo")]), "token-1".to_string()),
        Err(ContractError::InvalidBid {})
    );
    let filed = Offer { token_id: "token-1".to_string(), amount: coin(15, "uatom") };
    assert_eq!(
        query_offers(&store, "alice".to_string(), true).unwrap().bids,
        vec![("token-1".to_string(), filed.clone())]
    );
    assert_eq!(
        query_offers(&store, "token-1".to_string(), true).unwrap().bids,
        vec![("alice".to_string(), filed)]
    );
    execute_add_bid(&mut store, mock_info("bob", &[coin(16, "uatom")]), "token-1".to_string()).unwrap();
    execute_add_bid(&mut store, mock_info("alice", &[coin(17, "uatom")]), "token-2".to_string()).unwrap();
}

#[test]
fn add_bid_wants_exactly_one_coin() {
    let mut store = Store::new();
    assert_eq!(
        execute_add_bid(&mut store, mock_info("alice", &[]), "token-1".to_string()),
        Err(ContractError::InvalidFunds {})
    );
    assert_eq!(
        execute_add_bid(&mut store, mock_info("alice", &[coin(1, "a"), coin(2, "b")]), "token-1".to_string()),
        Err(ContractError::InvalidFunds {})
    );
    assert_eq!(store.offer(Side::Bid, "alice", "token-1"), None);
}

#[test]
fn add_ask_mirrors_add_bid() {
    let mut store = Store::new();
    let msg = ExecuteMsg::AddAsk { token_id: "token-1".to_string(), amount: 20, denom: "uatom".to_string() };
    let res = execute(&mut store, mock_env(), mock_info("alice", &[]), msg).unwrap();
    let told: Vec<(&str, &str)> = res.attributes.iter().map(|a| (a.key.as_str(), a.value.as_str())).collect();
    assert_eq!(
        told,
        vec![("execute", "add_ask"), ("denom", "uatom"), ("amount", "20"), ("token_id", "token-1")]
    );
    let filed = Offer { token_id: "token-1".to_string(), amount: coin(20, "uatom") };
    assert_eq!(store.offer(Side::Ask, "alice", "token-1"), Some(filed.clone()));
    assert_eq!(store.offer(Side::Ask, "token-1", "alice"), Some(filed));
    assert_eq!(store.offer(Side::Bid, "alice", "token-1"), None);
    assert_eq!(
        execute_add_ask(&mut store, mock_info("alice", &[]), "token-1".to_string(), 21, "uatom".to_string()),
        Err(ContractError::InvalidAsk {})
    );
    execute_add_bid(&mut store, mock_info("alice", &[coin(15, "uatom")]), "token-1".to_string()).unwrap();
}

#[test]
fn remove_offer_takes_both_entries_away() {
    let mut store = Store::new();
    execute_add_bid(&mut store, mock_info("alice", &[coin(15, "uatom")]), "token-1".to_string()).unwrap();
    execute_add_bid(&mut store, mock_info("bob", &[coin(16, "uatom")]), "token-1".to_string()).unwrap();
    execute_add_ask(&mut store, mock_info("alice", &[]), "token-2".to_string(), 20, "uatom".to_string()).unwrap();
    let msg = ExecuteMsg::RemoveOffer { token_id: "token-1".to_string() };
    let res = execute(&mut store, mock_env(), mock_info("alice", &[]), msg).unwrap();
    let told: Vec<(&str, &str)> = res.attributes.iter().map(|a| (a.key.as_str(), a.value.as_str())).collect();
    assert_eq!(told, vec![("execute", "remove_offer"), ("token_id", "token-1")]);
    assert_eq!(store.offer(Side::Bid, "alice", "token-1"), None);
    assert_eq!(store.offer(Side::Bid, "token-1", "alice"), None);
    assert!(store.offer(Side::Bid, "bob", "token-1").is_some());
    assert!(store.offer(Side::Bid, "token-1", "bob").is_some());
    assert!(store.offer(Side::Ask, "alice", "token-2").is_some());
    execute_remove_offer(&mut store, mock_info("alice", &[]), "token-2".to_string()).unwrap();
    assert_eq!(store.offer(Side::Ask, "alice", "token-2"), None);
    assert_eq!(store.offer(Side::Ask, "token-2", "alice"), None);
    execute_add_bid(&mut store, mock_info("alice", &[coin(15, "uatom")]), "token-1".to_string()).unwrap();
}

#[test]
fn remove_offer_without_an_offer_is_not_found() {
    let mut store = Store::new();
    execute_add_bid(&mut store, mock_info("bob", &[coin(16, "uatom")]), "token-1".to_string()).unwrap();
    assert_eq!(
        execute_remove_offer(&mut store, mock_info("alice", &[]), "token-1".to_string()),
        Err(ContractError::NotFound {})
    );
    assert!(store.offer(Side::Bid, "bob", "token-1").is_some());
    assert!(store.offer(Side::Bid, "token-1", "bob").is_some());
}

#[test]
fn only_the_administrator_updates_the_configuration() {
    let mut store = Store::new();
    setup_contract(&mut store);
    assert_eq!(
        update_config(&mut store, mock_info("mallory", &[]), Some(Ok("mallory".to_string()))),
        Err(ContractError::InvalidOwner {})
    );
    assert_eq!(update_config(&mut store, mock_info("mallory", &[]), None), Err(ContractError::InvalidOwner {}));
    assert_eq!(get_config(&store).unwrap().owner, SENDER);
    let res = update_config(&mut store, mock_info(SENDER, &[]), Some(Ok("successor".to_string())));
    assert_eq!(res, Ok(Response::default()));
    assert_eq!(get_config(&store).unwrap().owner, "successor");
    assert_eq!(
        update_config(&mut store, mock_info(SENDER, &[]), Some(Ok(SENDER.to_string()))),
        Err(ContractError::InvalidOwner {})
    );
    assert_eq!(update_config(&mut store, mock_info("successor", &[]), None), Ok(Response::default()));
    assert_eq!(get_config(&store).unwrap().owner, "successor");
}

#[test]
fn update_with_a_rejected_address_changes_nothing() {
    let mut store = Store::new();
    setup_contract(&mut store);
    let refusal = || cosmwasm_std::StdError::generic_err("Invalid input: human address too short");
    match update_config(&mut store, mock_info(SENDER, &[]), Some(Err(refusal()))) {
        Err(ContractError::Std(cause)) => assert_eq!(cause, refusal()),
        other => panic!("expected the validator's refusal, got {other:?}"),
    }
    assert_eq!(get_config(&store).unwrap().owner, SENDER);
    assert_eq!(
        update_config(&mut store, mock_info("mallory", &[]), Some(Err(refusal()))),
        Err(ContractError::InvalidOwner {})
    );
}

#[test]
fn update_before_setup_is_refused() {
    let mut store = Store::new();
    assert!(matches!(update_config(&mut store, mock_info(SENDER, &[]), None), Err(ContractError::Std(_))));
    assert!(get_config(&store).is_err());
}

#[test]
fn overlong_leading_keys_are_rejected() {
    let mut store = Store::new();
    let long = "k".repeat(65536);
    let longest = "k".repeat(65535);
    assert_eq!(
        execute_deposit(&mut store, mock_info(&long, &[coin(1, "uatom")])),
        Err(ContractError::KeyTooLong {})
    );
    assert_eq!(
        execute_withdraw(&mut store, mock_info(&long, &[]), 1, "uatom".to_string()),
        Err(ContractError::KeyTooLong {})
    );
    assert_eq!(
        execute_add_bid(&mut store, mock_info("alice", &[coin(1, "uatom")]), long.clone()),
        Err(ContractError::KeyTooLong {})
    );
    assert_eq!(
        execute_add_ask(&mut store, mock_info(&long, &[]), "token-1".to_string(), 1, "uatom".to_string()),
        Err(ContractError::KeyTooLong {})
    );
    assert_eq!(
        execute_remove_offer(&mut store, mock_info("alice", &[]), long.clone()),
        Err(ContractError::KeyTooLong {})
    );
    assert_eq!(query_deposits(&store, long.clone()), Err(ContractError::KeyTooLong {}));
    assert_eq!(query_offers(&store, long.clone(), false), Err(ContractError::KeyTooLong {}));
    assert_eq!(store.offer(Side::Bid, "alice", &long), None);

    execute_deposit(&mut store, mock_info(&longest, &[coin(1, &long)])).unwrap();
    assert_eq!(balance(&store, &longest, &long), Some((1, 1)));
    execute_add_bid(&mut store, mock_info("alice", &[coin(1, "uatom")]), longest.clone()).unwrap();
    assert!(store.offer(Side::Bid, &longest, "alice").is_some());
    let wide = "\u{20ac}".repeat(21846);
    assert_eq!(
        execute_deposit(&mut store, mock_info(&wide, &[coin(1, "uatom")])),
        Err(ContractError::KeyTooLong {})
    );
    let wide = "\u{20ac}".repeat(21845);
    execute_deposit(&mut store, mock_info(&wide, &[coin(1, "uatom")])).unwrap();
}

#[test]
fn deposits_are_listed_by_denomination_in_ascending_order() {
    let mut store = Store::new();
    for denom in ["b", "\u{10000}", "a", "ab", "", "\u{e9}", "\u{ffff}", "z", "B"] {
        execute_deposit(&mut store, mock_info("alice", &[coin(1, denom)])).unwrap();
    }
    execute_deposit(&mut store, mock_info("alic", &[coin(1, "ea")])).unwrap();
    execute_deposit(&mut store, mock_info("alicea", &[coin(1, "c")])).unwrap();
    let listed = query_deposits(&store, "alice".to_string()).unwrap();
    let denoms: Vec<&str> = listed.deposits.iter().map(|row| row.0.as_str()).collect();
    assert_eq!(denoms, vec!["", "B", "a", "ab", "b", "z", "\u{e9}", "\u{ffff}", "\u{10000}"]);
    for (denom, held) in &listed.deposits {
        assert_eq!(held, &Deposits { count: 1, owner: "alice".to_string(), coins: coin(1, denom) });
    }
    assert_eq!(query_deposits(&store, "nobody".to_string()).unwrap().deposits, vec![]);
}

#[test]
fn offers_are_listed_from_either_side() {
    let mut store = Store::new();
    execute_add_bid(&mut store, mock_info("carol", &[coin(3, "uatom")]), "token-1".to_string()).unwrap();
    execute_add_bid(&mut store, mock_info("alice", &[coin(1, "uatom")]), "token-1".to_string()).unwrap();
    execute_add_bid(&mut store, mock_info("alice", &[coin(2, "uatom")]), "token-0".to_string()).unwrap();
    execute_add_ask(&mut store, mock_info("bob", &[]), "token-1".to_string(), 9, "uatom".to_string()).unwrap();
    let by_item = query(
        &store,
        mock_env(),
        QueryMsg::TokenIdOffers { token_id: "token-1".to_string(), bid: true },
    ).unwrap();
    let rows = match by_item {
        QueryResponse::Offers(found) => found.bids,
        QueryResponse::Deposits(_) => panic!("a listing of deposits answered a query for offers"),
    };
    assert_eq!(
        rows,
        vec![
            ("alice".to_string(), Offer { token_id: "token-1".to_string(), amount: coin(1, "uatom") }),
            ("carol".to_string(), Offer { token_id: "token-1".to_string(), amount: coin(3, "uatom") }),
        ]
    );
    let by_owner = query(
        &store,
        mock_env(),
        QueryMsg::AddressOffers { address: "alice".to_string(), bid: true },
    ).unwrap();
    let rows = match by_owner {
        QueryResponse::Offers(found) => found.bids,
        QueryResponse::Deposits(_) => panic!("a listing of deposits answered a query for offers"),
    };
    assert_eq!(
        rows,
        vec![
            ("token-0".to_string(), Offer { token_id: "token-0".to_string(), amount: coin(2, "uatom") }),
            ("token-1".to_string(), Offer { token_id: "token-1".to_string(), amount: coin(1, "uatom") }),
        ]
    );
    let asks = query_offers(&store, "token-1".to_string(), false).unwrap().bids;
    assert_eq!(
        asks,
        vec![("bob".to_string(), Offer { token_id: "token-1".to_string(), amount: coin(9, "uatom") })]
    );
    assert_eq!(query_offers(&store, "alice".to_string(), false).unwrap().bids, vec![]);
}
