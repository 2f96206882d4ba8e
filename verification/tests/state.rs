use deposit_native::contract::{file_offer, receipt, settle, side_of};
use deposit_native::error::ContractError;
use deposit_native::host::{Attribute, BankMsg, Response};
use deposit_native::state::{coin, Coin, Config, Deposits, Offer, Side};
use deposit_native::store::Store;

#[test]
fn coin_holds_amount_and_denomination() {
    assert_eq!(coin(100000, "utest"), Coin { denom: "utest".to_string(), amount: 100000 });
    assert_eq!(coin(0, ""), Coin { denom: String::new(), amount: 0 });
    let paid = coin(7, "uatom");
    assert_eq!(paid.clone(), paid);
}

#[test]
fn credit_opens_a_record() {
    let opened = Deposits::credit(None, "alice", &coin(5, "uatom"));
    assert_eq!(opened, Ok(Deposits { count: 1, owner: "alice".to_string(), coins: coin(5, "uatom") }));
    let nothing = Deposits::credit(None, "", &coin(0, ""));
    assert_eq!(nothing, Ok(Deposits { count: 1, owner: String::new(), coins: coin(0, "") }));
}

#[test]
fn credit_adds_to_a_record() {
    let held = Deposits { count: 3, owner: "alice".to_string(), coins: coin(40, "uatom") };
    let more = Deposits::credit(Some(held.clone()), "bob", &coin(2, "uosmo"));
    assert_eq!(more, Ok(Deposits { count: 4, owner: "alice".to_string(), coins: coin(42, "uatom") }));
    let same = Deposits::credit(Some(held), "alice", &coin(0, "uatom"));
    assert_eq!(same, Ok(Deposits { count: 4, owner: "alice".to_string(), coins: coin(40, "uatom") }));
    let below = Deposits { count: -3, owner: "alice".to_string(), coins: coin(1, "uatom") };
    assert_eq!(Deposits::credit(Some(below), "alice", &coin(1, "uatom")).unwrap().count, -2);
}

#[test]
fn credit_rejects_an_overflow() {
    let full = Deposits { count: 1, owner: "alice".to_string(), coins: coin(u128::MAX - 1, "uatom") };
    assert_eq!(
        Deposits::credit(Some(full.clone()), "alice", &coin(1, "uatom")).unwrap().coins.amount,
        u128::MAX
    );
    assert_eq!(Deposits::credit(Some(full), "alice", &coin(2, "uatom")), Err(ContractError::Overflow {}));
    let counted = Deposits { count: i32::MAX - 1, owner: "alice".to_string(), coins: coin(1, "uatom") };
    assert_eq!(Deposits::credit(Some(counted), "alice", &coin(1, "uatom")).unwrap().count, i32::MAX);
    let counted = Deposits { count: i32::MAX, owner: "alice".to_string(), coins: coin(1, "uatom") };
    assert_eq!(Deposits::credit(Some(counted), "alice", &coin(1, "uatom")), Err(ContractError::Overflow {}));
}

#[test]
fn debit_takes_from_a_record() {
    let held = Deposits { count: 3, owner: "alice".to_string(), coins: coin(40, "uatom") };
    assert_eq!(
        held.clone().debit(15),
        Ok(Deposits { count: 2, owner: "alice".to_string(), coins: coin(25, "uatom") })
    );
    assert_eq!(held.clone().debit(40), Ok(Deposits { count: 2, owner: "alice".to_string(), coins: coin(0, "uatom") }));
    assert_eq!(held.debit(0), Ok(Deposits { count: 2, owner: "alice".to_string(), coins: coin(40, "uatom") }));
}

#[test]
fn debit_rejects_an_underflow() {
    let held = Deposits { count: 3, owner: "alice".to_string(), coins: coin(40, "uatom") };
    assert_eq!(held.debit(41), Err(ContractError::Underflow {}));
    let last = Deposits { count: 1, owner: "alice".to_string(), coins: coin(40, "uatom") };
    assert_eq!(last.debit(1).unwrap().count, 0);
    let spent = Deposits { count: 0, owner: "alice".to_string(), coins: coin(40, "uatom") };
    assert_eq!(spent.debit(1), Err(ContractError::Underflow {}));
    let below = Deposits { count: -1, owner: "alice".to_string(), coins: coin(40, "uatom") };
    assert_eq!(below.debit(0), Err(ContractError::Underflow {}));
    let lowest = Deposits { count: i32::MIN, owner: "alice".to_string(), coins: coin(40, "uatom") };
    assert_eq!(lowest.debit(0), Err(ContractError::Underflow {}));
}

#[test]
fn records_are_cloned_field_by_field() {
    let held = Deposits { count: 3, owner: "alice".to_string(), coins: coin(40, "uatom") };
    assert_eq!(held.clone(), held);
    let offer = Offer { token_id: "token-1".to_string(), amount: coin(1, "uatom") };
    assert_eq!(offer.clone(), offer);
    let config = Config { owner: "alice".to_string() };
    assert_eq!(config.clone(), config);
}

#[test]
fn responses_are_built_in_order() {
    assert_eq!(Response::new(), Response { messages: vec![], attributes: vec![] });
    assert_eq!(Response::default(), Response::new());
    let order = BankMsg::Send { to_address: "alice".to_string(), amount: vec![coin(1, "uatom")] };
    let other = BankMsg::Send { to_address: "bob".to_string(), amount: vec![] };
    let built = Response::new()
        .add_attribute("a", "1")
        .add_message(order.clone())
        .add_attribute("b", "")
        .add_message(other.clone())
        .add_attribute("a", "2");
    assert_eq!(
        built.attributes,
        vec![
            Attribute { key: "a".to_string(), value: "1".to_string() },
            Attribute { key: "b".to_string(), value: String::new() },
            Attribute { key: "a".to_string(), value: "2".to_string() },
        ]
    );
    assert_eq!(built.messages, vec![order, other]);
}

#[test]
fn receipts_name_action_denomination_and_amount() {
    let told = receipt("deposit", &coin(100000, "utest"));
    assert_eq!(
        told,
        Response {
            messages: vec![],
            attributes: vec![
                Attribute { key: "execute".to_string(), value: "deposit".to_string() },
                Attribute { key: "denom".to_string(), value: "utest".to_string() },
                Attribute { key: "amount".to_string(), value: "100000".to_string() },
            ],
        }
    );
    assert_eq!(receipt("withdraw", &coin(u128::MAX, "")).attributes[2].value, u128::MAX.to_string());
}

#[test]
fn settle_passes_the_response_or_the_refusal() {
    let told = receipt("deposit", &coin(1, "utest"));
    assert_eq!(settle(Ok(()), told.clone()), Ok(told.clone()));
    let refusal = || cosmwasm_std::StdError::generic_err("refused");
    assert_eq!(settle(Err(refusal()), told), Err(ContractError::Std(refusal())));
}

#[test]
fn flags_select_sides() {
    assert_eq!(side_of(true), Side::Bid);
    assert_eq!(side_of(false), Side::Ask);
}

#[test]
fn filing_writes_both_entries_or_none() {
    let mut store = Store::new();
    let offer = Offer { token_id: "token-1".to_string(), amount: coin(3, "uatom") };
    assert_eq!(file_offer(&mut store, Side::Ask, "alice", &offer), Ok(()));
    assert_eq!(store.offer(Side::Ask, "alice", "token-1"), Some(offer.clone()));
    assert_eq!(store.offer(Side::Ask, "token-1", "alice"), Some(offer.clone()));
    assert_eq!(file_offer(&mut store, Side::Ask, "alice", &offer), Err(ContractError::InvalidAsk {}));
    assert_eq!(file_offer(&mut store, Side::Bid, "alice", &offer), Ok(()));
    assert_eq!(file_offer(&mut store, Side::Bid, "alice", &offer), Err(ContractError::InvalidBid {}));
    let mirrored = Offer { token_id: "alice".to_string(), amount: coin(4, "uatom") };
    assert_eq!(file_offer(&mut store, Side::Ask, "token-1", &mirrored), Err(ContractError::InvalidAsk {}));
    assert_eq!(store.offer(Side::Ask, "alice", "token-1"), Some(offer.clone()));
    let own = Offer { token_id: "carol".to_string(), amount: coin(5, "uatom") };
    assert_eq!(file_offer(&mut store, Side::Ask, "carol", &own), Ok(()));
    assert_eq!(store.offers_of(Side::Ask, "carol").unwrap(), vec![("carol".to_string(), own)]);
    let long = Offer { token_id: "t".repeat(65536), amount: coin(5, "uatom") };
    assert_eq!(file_offer(&mut store, Side::Ask, "dave", &long), Err(ContractError::KeyTooLong {}));
    assert_eq!(store.offers_of(Side::Ask, "dave").unwrap(), vec![]);
}
