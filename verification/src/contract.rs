use crate::error::{ContractError, Fault};
use crate::host::{coins_view, BankMsg, MessageInfo, MessageInfoView, Response};
use crate::listing::answers;
use crate::model::{flagged, key_fits, realizes, OwnerChange, State, MAX_KEY_LEN};
use crate::msg::{BidsResponse, DepositResponse, ExecuteMsg, ExecuteMsgView, InstantiateMsg, QueryMsg, QueryResponse};
use crate::state::{coin, Coin, CoinView, Config, Deposits, Offer, OfferView, Side};
use crate::store::{config_storable, deposits_storable, offers_storable, Store};
use crate::text::to_decimal;
use cosmwasm_std::{Env, StdError};
use vstd::prelude::*;

verus! {

/// A result by its views: of what was answered, or of the rejection.
pub open spec fn viewed<T: View>(r: Result<T, ContractError>) -> Result<T::V, Fault> {
    match r {
        Ok(found) => Ok(found@),
        Err(refusal) => Err(refusal@),
    }
}

/// Whether the store accepts the record that a deposit files.
pub open spec fn deposit_accepted(state: State, info: MessageInfoView) -> bool {
    match state.deposited(info) {
        Ok(record) => deposits_storable(record),
        Err(_) => true,
    }
}

/// Whether the store accepts the record that a withdrawal leaves.
pub open spec fn withdraw_accepted(state: State, sender: Seq<char>, amount: u128, denom: Seq<char>) -> bool {
    match state.withdrawn(sender, amount, denom) {
        Ok(record) => deposits_storable(record),
        Err(_) => true,
    }
}

/// Whether the store accepts the administrator that an update names.
pub open spec fn update_accepted(state: State, sender: Seq<char>, change: OwnerChange) -> bool {
    match state.reowned(sender, change) {
        Ok(owner) => config_storable(owner),
        Err(_) => true,
    }
}

/// Whether the store accepts the bid that the one attached coin makes.
pub open spec fn bid_accepted(info: MessageInfoView, token_id: Seq<char>) -> bool {
    info.funds.len() == 1 ==> offers_storable(OfferView { token_id, amount: info.funds[0] })
}

/// Whether the store accepts an ask.
pub open spec fn ask_accepted(token_id: Seq<char>, amount: u128, denom: Seq<char>) -> bool {
    offers_storable(OfferView { token_id, amount: CoinView { denom, amount } })
}

/// Whether the store accepts what a command files.
pub open spec fn execute_accepted(state: State, info: MessageInfoView, msg: ExecuteMsgView) -> bool {
    match msg {
        ExecuteMsgView::Deposit => deposit_accepted(state, info),
        ExecuteMsgView::Withdraw { amount, denom } => withdraw_accepted(state, info.sender, amount, denom),
        ExecuteMsgView::AddBid { token_id } => bid_accepted(info, token_id),
        ExecuteMsgView::AddAsk { token_id, amount, denom } => ask_accepted(token_id, amount, denom),
        ExecuteMsgView::RemoveOffer { .. } => true,
    }
}

/// What the validator's answer means for the administrator.
pub open spec fn change_of(owner: Option<Result<String, StdError>>) -> OwnerChange {
    match owner {
        None => OwnerChange::Keep,
        Some(Err(_)) => OwnerChange::Rejected,
        Some(Ok(next)) => OwnerChange::To(next@),
    }
}

/// Whether `text` can lead a store key.
pub fn fits(text: &str) -> (r: bool)
    ensures
        r == key_fits(text@),
{
    text.as_bytes().len() <= MAX_KEY_LEN
}

/// The attributes that tell what was done and with which coin: the action,
/// the denomination and the amount in base ten.
pub fn receipt(action: &str, paid: &Coin) -> (r: Response)
    ensures
        r@ == crate::model::receipt(action@, paid@),
{
    Response::new().add_attribute("execute", action).add_attribute("denom", paid.denom.as_str()).add_attribute(
        "amount",
        to_decimal(paid.amount).as_str(),
    )
}

/// The answer of an operation whose last step was to file something:
/// `response` where the store took it, the store's refusal where it did not.
pub fn settle(saved: Result<(), StdError>, response: Response) -> (r: Result<Response, ContractError>)
    ensures
        r == match saved {
            Ok(_) => Ok::<Response, ContractError>(response),
            Err(refusal) => Err(ContractError::Std(refusal)),
        },
{
    match saved {
        Ok(()) => Ok(response),
        Err(refusal) => Err(ContractError::Std(refusal)),
    }
}

/// Sets the ledger up: whoever sends this becomes the administrator.
pub fn instantiate(store: &mut Store, _env: Env, info: MessageInfo, _msg: InstantiateMsg) -> (r: Result<
    Response,
    ContractError,
>)
    ensures
        realizes(
            old(store)@.instantiate(info@.sender),
            config_storable(info@.sender),
            old(store)@,
            final(store)@,
            viewed(r),
        ),
        old(store)@.wf() ==> final(store)@.wf(),
        old(store).intact() ==> final(store).intact(),
{
    let config = Config { owner: info.sender };
    settle(store.save_config(&config), Response::new())
}

/// Carries out one command for its sender.
pub fn execute(store: &mut Store, _env: Env, info: MessageInfo, msg: ExecuteMsg) -> (r: Result<
    Response,
    ContractError,
>)
    ensures
        realizes(
            old(store)@.execute(info@, msg@),
            execute_accepted(old(store)@, info@, msg@),
            old(store)@,
            final(store)@,
            viewed(r),
        ),
        old(store)@.wf() ==> final(store)@.wf(),
        old(store).intact() ==> final(store).intact(),
{
    match msg {
        ExecuteMsg::Deposit {} => execute_deposit(store, info),
        ExecuteMsg::Withdraw { amount, denom } => execute_withdraw(store, info, amount, denom),
        ExecuteMsg::AddBid { token_id } => execute_add_bid(store, info, token_id),
        ExecuteMsg::AddAsk { token_id, amount, denom } => execute_add_ask(store, info, token_id, amount, denom),
        ExecuteMsg::RemoveOffer { token_id } => execute_remove_offer(store, info, token_id),
    }
}

/// Adds the one attached coin to the sender's balance in its denomination.
/// A first deposit opens the record; a later one adds to amount and counter.
pub fn execute_deposit(store: &mut Store, info: MessageInfo) -> (r: Result<Response, ContractError>)
    ensures
        realizes(
            old(store)@.deposit(info@),
            deposit_accepted(old(store)@, info@),
            old(store)@,
            final(store)@,
            viewed(r),
        ),
        old(store)@.wf() ==> final(store)@.wf(),
        old(store).intact() ==> final(store).intact(),
{
    if info.funds.len() != 1 {
        return Err(ContractError::InvalidFunds {});
    }
    if !fits(info.sender.as_str()) {
        return Err(ContractError::KeyTooLong {});
    }
    let paid = &info.funds[0];
    let held = store.deposit(info.sender.as_str(), paid.denom.as_str());
    let record = match Deposits::credit(held, info.sender.as_str(), paid) {
        Ok(record) => record,
        Err(fault) => return Err(fault),
    };
    let saved = store.save_deposit(info.sender.as_str(), paid.denom.as_str(), &record);
    settle(saved, receipt("deposit", paid))
}

/// Takes `amount` of `denom` out of the sender's balance and orders its
/// transfer to the sender.
pub fn execute_withdraw(store: &mut Store, info: MessageInfo, amount: u128, denom: String) -> (r: Result<
    Response,
    ContractError,
>)
    ensures
        realizes(
            old(store)@.withdraw(info@.sender, amount, denom@),
            withdraw_accepted(old(store)@, info@.sender, amount, denom@),
            old(store)@,
            final(store)@,
            viewed(r),
        ),
        old(store)@.wf() ==> final(store)@.wf(),
        old(store).intact() ==> final(store).intact(),
{
    if !fits(info.sender.as_str()) {
        return Err(ContractError::KeyTooLong {});
    }
    let held = match store.deposit(info.sender.as_str(), denom.as_str()) {
        Some(held) => held,
        None => return Err(ContractError::NotFound {}),
    };
    let record = match held.debit(amount) {
        Ok(record) => record,
        Err(fault) => return Err(fault),
    };
    let saved = store.save_deposit(info.sender.as_str(), denom.as_str(), &record);
    let paid = coin(amount, denom.as_str());
    let sent = vec![paid.clone()];
    assert(coins_view(sent@) =~= seq![paid@]);
    let order = BankMsg::Send { to_address: info.sender, amount: sent };
    settle(saved, receipt("withdraw", &paid).add_message(order))
}

/// The rejection of a second offer on one side.
fn duplicate(side: Side) -> (r: ContractError)
    ensures
        r@ == match side {
            Side::Bid => Fault::InvalidBid,
            Side::Ask => Fault::InvalidAsk,
        },
{
    match side {
        Side::Bid => ContractError::InvalidBid {},
        Side::Ask => ContractError::InvalidAsk {},
    }
}

/// Files `offer` for `owner` on `side`, under (owner, item) and under
/// (item, owner), unless `owner` has an offer on that item there already.
pub fn file_offer(store: &mut Store, side: Side, owner: &str, offer: &Offer) -> (r: Result<(), ContractError>)
    ensures
        match old(store)@.filed(side, owner@, offer@) {
            Ok(next) => if offers_storable(offer@) {
                r is Ok && final(store)@ == next
            } else {
                r is Err && r.unwrap_err()@ == Fault::Std && final(store)@ == old(store)@
            },
            Err(fault) => r is Err && r.unwrap_err()@ == fault && final(store)@ == old(store)@,
        },
        old(store).intact() ==> final(store).intact(),
{
    let item = offer.token_id.as_str();
    if !fits(owner) || !fits(item) {
        return Err(ContractError::KeyTooLong {});
    }
    if store.offer(side, owner, item).is_some() {
        return Err(duplicate(side));
    }
    match store.save_offer(side, owner, item, offer) {
        Ok(()) => {},
        Err(refusal) => return Err(ContractError::Std(refusal)),
    }
    match store.save_offer(side, item, owner, offer) {
        Ok(()) => {},
        Err(refusal) => return Err(ContractError::Std(refusal)),
    }
    Ok(())
}

/// Records the one attached coin as the sender's bid on `token_id`.
pub fn execute_add_bid(store: &mut Store, info: MessageInfo, token_id: String) -> (r: Result<
    Response,
    ContractError,
>)
    ensures
        realizes(
            old(store)@.add_bid(info@, token_id@),
            bid_accepted(info@, token_id@),
            old(store)@,
            final(store)@,
            viewed(r),
        ),
        old(store)@.wf() ==> final(store)@.wf(),
        old(store).intact() ==> final(store).intact(),
{
    if info.funds.len() != 1 {
        return Err(ContractError::InvalidFunds {});
    }
    let offer = Offer { token_id, amount: info.funds[0].clone() };
    match file_offer(store, Side::Bid, info.sender.as_str(), &offer) {
        Ok(()) => {},
        Err(fault) => return Err(fault),
    }
    Ok(receipt("add_bid", &offer.amount).add_attribute("token_id", offer.token_id.as_str()))
}

/// Records `amount` of `denom` as the sender's ask for `token_id`.
pub fn execute_add_ask(store: &mut Store, info: MessageInfo, token_id: String, amount: u128, denom: String) -> (r:
    Result<Response, ContractError>)
    ensures
        realizes(
            old(store)@.add_ask(info@.sender, token_id@, amount, denom@),
            ask_accepted(token_id@, amount, denom@),
            old(store)@,
            final(store)@,
            viewed(r),
        ),
        old(store)@.wf() ==> final(store)@.wf(),
        old(store).intact() ==> final(store).intact(),
{
    let offer = Offer { token_id, amount: Coin { denom, amount } };
    match file_offer(store, Side::Ask, info.sender.as_str(), &offer) {
        Ok(()) => {},
        Err(fault) => return Err(fault),
    }
    Ok(receipt("add_ask", &offer.amount).add_attribute("token_id", offer.token_id.as_str()))
}

/// Takes what the sender has filed on `token_id`, on either side, out of
/// the registry together with its mirror.
pub fn execute_remove_offer(store: &mut Store, info: MessageInfo, token_id: String) -> (r: Result<
    Response,
    ContractError,
>)
    ensures
        realizes(old(store)@.remove_offer(info@.sender, token_id@), true, old(store)@, final(store)@, viewed(r)),
        old(store)@.wf() ==> final(store)@.wf(),
        old(store).intact() ==> final(store).intact(),
{
    let owner = info.sender.as_str();
    let item = token_id.as_str();
    if !fits(owner) || !fits(item) {
        return Err(ContractError::KeyTooLong {});
    }
    let bid = store.offer(Side::Bid, owner, item).is_some();
    let ask = store.offer(Side::Ask, owner, item).is_some();
    if !bid && !ask {
        return Err(ContractError::NotFound {});
    }
    if bid {
        store.remove_offer(Side::Bid, owner, item);
        store.remove_offer(Side::Bid, item, owner);
    }
    if ask {
        store.remove_offer(Side::Ask, owner, item);
        store.remove_offer(Side::Ask, item, owner);
    }
    Ok(Response::new().add_attribute("execute", "remove_offer").add_attribute("token_id", item))
}

/// Hands the administration over. Only the administrator may do so; `owner`
/// is what the address validator made of the proposed successor, and `None`
/// leaves the administrator as it is. A successor that the validator
/// refused is answered with the validator's own error.
pub fn update_config(store: &mut Store, info: MessageInfo, owner: Option<Result<String, StdError>>) -> (r: Result<
    Response,
    ContractError,
>)
    ensures
        realizes(
            old(store)@.update_config(info@.sender, change_of(owner)),
            update_accepted(old(store)@, info@.sender, change_of(owner)),
            old(store)@,
            final(store)@,
            viewed(r),
        ),
        old(store)@.config == Some(info@.sender) ==> (owner matches Some(Err(refusal)) ==> r == Err::<
            Response,
            ContractError,
        >(ContractError::Std(refusal))),
        old(store)@.wf() ==> final(store)@.wf(),
        old(store).intact() ==> final(store).intact(),
{
    let mut config = match store.load_config() {
        Ok(config) => config,
        Err(refusal) => return Err(ContractError::Std(refusal)),
    };
    if config.owner != info.sender {
        return Err(ContractError::InvalidOwner {});
    }
    match owner {
        None => {},
        Some(Err(refusal)) => return Err(ContractError::Std(refusal)),
        Some(Ok(next)) => {
            config.owner = next;
        },
    }
    settle(store.save_config(&config), Response::new())
}

/// The configuration; an error where the ledger was never set up.
pub fn get_config(store: &Store) -> (r: Result<Config, StdError>)
    ensures
        r is Ok <==> store@.config is Some,
        r is Ok ==> r.unwrap().owner@ == store@.config.unwrap(),
{
    store.load_config()
}

/// The side that a query's flag selects.
pub fn side_of(bid: bool) -> (r: Side)
    ensures
        r == flagged(bid),
{
    if bid {
        Side::Bid
    } else {
        Side::Ask
    }
}

/// The balances of `address`, one for each denomination it holds, by
/// denomination in ascending order.
pub fn query_deposits(store: &Store, address: String) -> (r: Result<DepositResponse, ContractError>)
    ensures
        answers(viewed(r), store@.deposits, address@, store.intact()),
{
    if !fits(address.as_str()) {
        return Err(ContractError::KeyTooLong {});
    }
    match store.deposits_of(address.as_str()) {
        Ok(deposits) => Ok(DepositResponse { deposits }),
        Err(refusal) => Err(ContractError::Std(refusal)),
    }
}

/// What one side of the registry files under the leading key `first`, an
/// account or an item, by the other key in ascending order.
pub fn query_offers(store: &Store, first: String, bid: bool) -> (r: Result<BidsResponse, ContractError>)
    ensures
        answers(viewed(r), store@.offers(flagged(bid)), first@, store.intact()),
{
    if !fits(first.as_str()) {
        return Err(ContractError::KeyTooLong {});
    }
    match store.offers_of(side_of(bid), first.as_str()) {
        Ok(bids) => Ok(BidsResponse { bids }),
        Err(refusal) => Err(ContractError::Std(refusal)),
    }
}

/// Answers one query: the balances of an address, or the offers of one
/// side under an address or under an item.
pub fn query(store: &Store, _env: Env, msg: QueryMsg) -> (r: Result<QueryResponse, ContractError>)
    ensures
        store@.answered(msg@, store.intact(), viewed(r)),
{
    match msg {
        QueryMsg::Deposits { address } => match query_deposits(store, address) {
            Ok(found) => Ok(QueryResponse::Deposits(found)),
            Err(refusal) => Err(refusal),
        },
        QueryMsg::AddressOffers { address, bid } => match query_offers(store, address, bid) {
            Ok(found) => Ok(QueryResponse::Offers(found)),
            Err(refusal) => Err(refusal),
        },
        QueryMsg::TokenIdOffers { token_id, bid } => match query_offers(store, token_id, bid) {
            Ok(found) => Ok(QueryResponse::Offers(found)),
            Err(refusal) => Err(refusal),
        },
    }
}

} // verus!
