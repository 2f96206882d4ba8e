use crate::error::Fault;
use crate::host::{BankMsgView, MessageInfoView};
use crate::listing::{keys_of, lemma_listing_is_determined, lists_under};
use crate::model::{rejection, OwnerChange, State};
use crate::msg::ExecuteMsgView;
use crate::state::{CoinView, DepositsView, OfferView};
use vstd::prelude::*;

verus! {

/// What `sender` hands over when it attaches the one coin `paid`.
pub open spec fn paying(sender: Seq<char>, paid: CoinView) -> MessageInfoView {
    MessageInfoView { sender, funds: seq![paid] }
}

/// The sum of `amounts`.
pub open spec fn total(amounts: Seq<u128>) -> nat
    decreases amounts.len(),
{
    if amounts.len() == 0 {
        0
    } else {
        total(amounts.drop_last()) + amounts.last() as nat
    }
}

/// The state after `sender` has deposited each of `amounts` in turn, all
/// in `denom`; `None` where one of the deposits is rejected.
pub open spec fn deposit_all(state: State, sender: Seq<char>, denom: Seq<char>, amounts: Seq<u128>) -> Option<State>
    decreases amounts.len(),
{
    if amounts.len() == 0 {
        Some(state)
    } else {
        match deposit_all(state, sender, denom, amounts.drop_last()) {
            None => None,
            Some(so_far) => match so_far.deposit(paying(sender, CoinView { denom, amount: amounts.last() })) {
                Ok((next, _)) => Some(next),
                Err(_) => None,
            },
        }
    }
}

/// After any run of deposits to one (owner, denomination), the balance has
/// grown by the sum of the amounts and the counter by the number of
/// deposits, and no other balance, no offer and no configuration has
/// changed.
pub proof fn lemma_deposits_add_up(state: State, sender: Seq<char>, denom: Seq<char>, amounts: Seq<u128>)
    requires
        deposit_all(state, sender, denom, amounts) is Some,
    ensures
        ({
            let after = deposit_all(state, sender, denom, amounts).unwrap();
            &&& after.balance(sender, denom) == state.balance(sender, denom) + total(amounts)
            &&& after.count(sender, denom) == state.count(sender, denom) + amounts.len()
            &&& after.config == state.config
            &&& after.bids == state.bids
            &&& after.asks == state.asks
            &&& after.deposits.remove((sender, denom)) == state.deposits.remove((sender, denom))
        }),
    decreases amounts.len(),
{
    if amounts.len() > 0 {
        lemma_deposits_add_up(state, sender, denom, amounts.drop_last());
    }
}

/// After the first deposit into a store that held nothing, the balances of
/// the sender are listed as one row: the denomination with a record of one
/// deposit, the sender as owner and the coin that was paid.
pub proof fn lemma_first_deposit_is_listed(
    sender: Seq<char>,
    paid: CoinView,
    rows: Seq<(Seq<char>, DepositsView)>,
)
    requires
        State::empty().deposit(paying(sender, paid)) is Ok,
        lists_under(rows, State::empty().deposit(paying(sender, paid)).unwrap().0.deposits, sender),
    ensures
        rows == seq![(paid.denom, DepositsView { count: 1, owner: sender, coins: paid })],
{
    let after = State::empty().deposit(paying(sender, paid)).unwrap().0;
    let only = seq![(paid.denom, DepositsView { count: 1, owner: sender, coins: paid })];
    assert(keys_of(only) =~= seq![paid.denom]);
    assert(seq![paid.denom][0] == paid.denom);
    lemma_listing_is_determined(rows, only, after.deposits, sender);
}

/// A withdrawal succeeds only on a balance that covers it, and takes just
/// its amount. Once what is left no longer covers the amount, withdrawing
/// it again is rejected as an underflow.
pub proof fn lemma_rewithdraw_underflows(state: State, sender: Seq<char>, amount: u128, denom: Seq<char>)
    requires
        state.withdraw(sender, amount, denom) is Ok,
    ensures
        ({
            let after = state.withdraw(sender, amount, denom).unwrap().0;
            &&& state.balance(sender, denom) >= amount
            &&& after.balance(sender, denom) == state.balance(sender, denom) - amount
            &&& after.balance(sender, denom) < amount ==> {
                &&& after.withdraw(sender, amount, denom) == rejection(Fault::Underflow)
                &&& after.settled(after.withdraw(sender, amount, denom)) == after
            }
        }),
{
}

/// A deposit followed by a withdrawal of the same coin succeeds, puts
/// balance and counter back to what they were, and orders exactly one
/// transfer, of that coin to the sender. This holds wherever the counter
/// was not negative to begin with, as it is in every well-formed state.
pub proof fn lemma_deposit_then_withdraw(state: State, sender: Seq<char>, paid: CoinView)
    requires
        state.count(sender, paid.denom) >= 0,
        state.deposit(paying(sender, paid)) is Ok,
    ensures
        ({
            let between = state.deposit(paying(sender, paid)).unwrap().0;
            let back = between.withdraw(sender, paid.amount, paid.denom);
            &&& back is Ok
            &&& back.unwrap().0.balance(sender, paid.denom) == state.balance(sender, paid.denom)
            &&& back.unwrap().0.count(sender, paid.denom) == state.count(sender, paid.denom)
            &&& back.unwrap().1.messages == seq![
                BankMsgView::Send { to_address: sender, amount: seq![paid] },
            ]
        }),
{
}

/// Once a bid is filed, any further bid of the same sender on the same
/// item is rejected as a duplicate, while the first stays filed under both
/// of its keys.
pub proof fn lemma_second_bid_rejected(state: State, info: MessageInfoView, token_id: Seq<char>, again: CoinView)
    requires
        state.add_bid(info, token_id) is Ok,
    ensures
        ({
            let after = state.add_bid(info, token_id).unwrap().0;
            &&& after.add_bid(paying(info.sender, again), token_id) == rejection(Fault::InvalidBid)
            &&& after.add_bid(info, token_id) == rejection(Fault::InvalidBid)
            &&& after.settled(after.add_bid(paying(info.sender, again), token_id)) == after
            &&& after.bids.contains_key((info.sender, token_id))
            &&& after.bids.contains_key((token_id, info.sender))
        }),
{
}

/// A bid that is filed can be read under (sender, item) and under
/// (item, sender), and both places hold the same offer: the item and the
/// attached coin.
pub proof fn lemma_bid_filed_under_both_keys(state: State, info: MessageInfoView, token_id: Seq<char>)
    requires
        state.add_bid(info, token_id) is Ok,
    ensures
        ({
            let after = state.add_bid(info, token_id).unwrap().0;
            &&& after.bids.contains_key((info.sender, token_id))
            &&& after.bids.contains_key((token_id, info.sender))
            &&& after.bids[(info.sender, token_id)] == after.bids[(token_id, info.sender)]
            &&& after.bids[(info.sender, token_id)] == (OfferView { token_id, amount: info.funds[0] })
        }),
{
}

/// An offer that is removed is gone from both of its keys: on each side
/// where the sender had filed one on the item, neither (sender, item) nor
/// (item, sender) is filed any more, and a side where the sender had none
/// is as it was.
pub proof fn lemma_removed_offer_is_gone(state: State, sender: Seq<char>, token_id: Seq<char>)
    requires
        state.remove_offer(sender, token_id) is Ok,
    ensures
        ({
            let after = state.remove_offer(sender, token_id).unwrap().0;
            &&& !after.bids.contains_key((sender, token_id))
            &&& !after.asks.contains_key((sender, token_id))
            &&& state.bids.contains_key((sender, token_id)) ==> !after.bids.contains_key((token_id, sender))
            &&& state.asks.contains_key((sender, token_id)) ==> !after.asks.contains_key((token_id, sender))
            &&& !state.bids.contains_key((sender, token_id)) ==> after.bids == state.bids
            &&& !state.asks.contains_key((sender, token_id)) ==> after.asks == state.asks
            &&& after.deposits == state.deposits
            &&& after.config == state.config
        }),
{
}

/// Whoever is not the administrator cannot update the configuration: the
/// attempt is rejected, and the administrator stays who it was.
pub proof fn lemma_update_needs_owner(state: State, sender: Seq<char>, change: OwnerChange)
    requires
        state.config != Some(sender),
    ensures
        state.update_config(sender, change) is Err,
        state.config is Some ==> state.update_config(sender, change) == rejection(Fault::InvalidOwner),
        state.settled(state.update_config(sender, change)).config == state.config,
{
}

/// The administrator can hand over to a validated successor, and from
/// then on only the successor can update the configuration.
pub proof fn lemma_owner_hands_over(
    state: State,
    owner: Seq<char>,
    successor: Seq<char>,
    other: Seq<char>,
    change: OwnerChange,
)
    requires
        state.config == Some(owner),
    ensures
        state.update_config(owner, OwnerChange::To(successor)) is Ok,
        ({
            let after = state.update_config(owner, OwnerChange::To(successor)).unwrap().0;
            &&& after.config == Some(successor)
            &&& other != successor ==> after.update_config(other, change) == rejection(Fault::InvalidOwner)
            &&& change != OwnerChange::Rejected ==> after.update_config(successor, change) is Ok
        }),
{
}

/// A store that nothing was written to is well formed.
pub proof fn lemma_empty_is_wf()
    ensures
        State::empty().wf(),
{
}

/// Every command keeps the state well formed: records stay under their
/// own keys with counters that are not negative, and offers come and go
/// together with their mirrors.
pub proof fn lemma_execute_keeps_wf(state: State, info: MessageInfoView, msg: ExecuteMsgView)
    requires
        state.wf(),
        state.execute(info, msg) is Ok,
    ensures
        state.execute(info, msg).unwrap().0.wf(),
{
}

} // verus!
