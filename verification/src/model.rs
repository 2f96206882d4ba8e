use crate::error::Fault;
use crate::host::{BankMsgView, MessageInfoView, ResponseView};
use crate::listing::answers;
use crate::msg::{ExecuteMsgView, QueryMsgView, QueryResponseView};
use crate::state::{CoinView, DepositsView, OfferView, Side};
use crate::text::decimal;
use vstd::prelude::*;

verus! {

/// The most bytes that the leading part of a store key may take.
pub const MAX_KEY_LEN: usize = 0xFFFF;

/// Whether `text` can lead a store key.
pub open spec fn key_fits(text: Seq<char>) -> bool {
    vstd::utf8::encode_utf8(text).len() <= MAX_KEY_LEN
}

/// Everything the store holds: the administrator once one is set, the
/// balances by (owner, denomination), and the bids and the asks, each offer
/// filed under (owner, item) and under (item, owner).
#[verifier::ext_equal]
pub struct State {
    pub config: Option<Seq<char>>,
    pub deposits: Map<(Seq<char>, Seq<char>), DepositsView>,
    pub bids: Map<(Seq<char>, Seq<char>), OfferView>,
    pub asks: Map<(Seq<char>, Seq<char>), OfferView>,
}

/// What an operation does to a state: the state and the response that
/// follow, or the rejection that leaves the state as it was.
pub type Outcome = Result<(State, ResponseView), Fault>;

/// The outcome of an operation that is rejected with `fault`.
pub open spec fn rejection(fault: Fault) -> Outcome {
    Err(fault)
}

/// What comes of a plan. A plan that succeeds is carried out where the
/// store accepts what it files, and ends in a `Std` rejection where the
/// store does not; a plan that rejects stays the rejection it is.
pub open spec fn enacted(planned: Outcome, accepted: bool) -> Outcome {
    if planned is Ok && !accepted {
        rejection(Fault::Std)
    } else {
        planned
    }
}

/// Whether an operation did what was planned for it: the store went from
/// `before` to `after` and the caller was told `r` as the enacted plan
/// says. Whenever `r` is a rejection, `after` is `before`.
pub open spec fn realizes(
    planned: Outcome,
    accepted: bool,
    before: State,
    after: State,
    r: Result<ResponseView, Fault>,
) -> bool {
    &&& after == before.settled(enacted(planned, accepted))
    &&& r == match enacted(planned, accepted) {
        Ok((_, response)) => Ok::<ResponseView, Fault>(response),
        Err(fault) => Err(fault),
    }
}

/// What the address validator said of a proposed administrator.
pub enum OwnerChange {
    Keep,
    Rejected,
    To(Seq<char>),
}

/// The attributes that tell what was done and with which coin: the action,
/// the denomination and the amount in base ten.
pub open spec fn receipt(action: Seq<char>, coin: CoinView) -> ResponseView {
    ResponseView::empty().with_attribute("execute"@, action).with_attribute("denom"@, coin.denom).with_attribute(
        "amount"@,
        decimal(coin.amount as nat),
    )
}

/// `table` without the offer filed under (`owner`, `item`) and its mirror.
pub open spec fn unfiled(
    table: Map<(Seq<char>, Seq<char>), OfferView>,
    owner: Seq<char>,
    item: Seq<char>,
) -> Map<(Seq<char>, Seq<char>), OfferView> {
    if table.contains_key((owner, item)) {
        table.remove((owner, item)).remove((item, owner))
    } else {
        table
    }
}

impl State {
    /// The state of a store that nothing was written to.
    pub open spec fn empty() -> State {
        State { config: None, deposits: Map::empty(), bids: Map::empty(), asks: Map::empty() }
    }

    /// The record held under (`owner`, `denom`), if any.
    pub open spec fn held(self, owner: Seq<char>, denom: Seq<char>) -> Option<DepositsView> {
        if self.deposits.contains_key((owner, denom)) {
            Some(self.deposits[(owner, denom)])
        } else {
            None
        }
    }

    /// The amount held under (`owner`, `denom`): zero where no record is.
    pub open spec fn balance(self, owner: Seq<char>, denom: Seq<char>) -> nat {
        match self.held(owner, denom) {
            Some(record) => record.coins.amount as nat,
            None => 0,
        }
    }

    /// The call counter under (`owner`, `denom`): zero where no record is.
    pub open spec fn count(self, owner: Seq<char>, denom: Seq<char>) -> int {
        match self.held(owner, denom) {
            Some(record) => record.count as int,
            None => 0,
        }
    }

    /// The offers of one side.
    pub open spec fn offers(self, side: Side) -> Map<(Seq<char>, Seq<char>), OfferView> {
        match side {
            Side::Bid => self.bids,
            Side::Ask => self.asks,
        }
    }

    /// The state with the offers of one side replaced.
    pub open spec fn with_offers(self, side: Side, table: Map<(Seq<char>, Seq<char>), OfferView>) -> State {
        match side {
            Side::Bid => State { bids: table, ..self },
            Side::Ask => State { asks: table, ..self },
        }
    }

    /// Every record sits under its own owner and denomination with a
    /// counter that is not negative, and every offer has its mirror.
    pub open spec fn wf(self) -> bool {
        &&& forall|owner: Seq<char>, denom: Seq<char>| #[trigger]
            self.deposits.contains_key((owner, denom)) ==> {
                &&& self.deposits[(owner, denom)].owner == owner
                &&& self.deposits[(owner, denom)].coins.denom == denom
                &&& self.deposits[(owner, denom)].count >= 0
            }
        &&& Self::mirrored(self.bids)
        &&& Self::mirrored(self.asks)
    }

    /// Whatever is filed under (a, b) is filed under (b, a) too.
    pub open spec fn mirrored(table: Map<(Seq<char>, Seq<char>), OfferView>) -> bool {
        forall|a: Seq<char>, b: Seq<char>| #[trigger]
            table.contains_key((a, b)) ==> table.contains_key((b, a)) && table[(b, a)] == table[(a, b)]
    }

    /// The state that an outcome leaves: the one it brings, or this one
    /// where the operation was rejected.
    pub open spec fn settled(self, outcome: Outcome) -> State {
        match outcome {
            Ok((next, _)) => next,
            Err(_) => self,
        }
    }

    /// Setting up: the sender becomes the administrator.
    pub open spec fn instantiate(self, sender: Seq<char>) -> Outcome {
        Ok((State { config: Some(sender), ..self }, ResponseView::empty()))
    }

    /// The record that a deposit with `info` files, where it files one.
    pub open spec fn deposited(self, info: MessageInfoView) -> Result<DepositsView, Fault> {
        if info.funds.len() != 1 {
            Err(Fault::InvalidFunds)
        } else if !key_fits(info.sender) {
            Err(Fault::KeyTooLong)
        } else {
            DepositsView::credited(self.held(info.sender, info.funds[0].denom), info.sender, info.funds[0])
        }
    }

    /// Deposit: the one attached coin is added to the sender's balance in
    /// its denomination.
    pub open spec fn deposit(self, info: MessageInfoView) -> Outcome {
        match self.deposited(info) {
            Err(fault) => Err(fault),
            Ok(record) => Ok(
                (
                    State { deposits: self.deposits.insert((info.sender, info.funds[0].denom), record), ..self },
                    receipt("deposit"@, info.funds[0]),
                ),
            ),
        }
    }

    /// The record that a withdrawal leaves, where it succeeds.
    pub open spec fn withdrawn(self, sender: Seq<char>, amount: u128, denom: Seq<char>) -> Result<
        DepositsView,
        Fault,
    > {
        if !key_fits(sender) {
            Err(Fault::KeyTooLong)
        } else {
            match self.held(sender, denom) {
                None => Err(Fault::NotFound),
                Some(record) => record.debited(amount),
            }
        }
    }

    /// Withdraw: `amount` of `denom` leaves the sender's balance, and one
    /// transfer of it to the sender is ordered.
    pub open spec fn withdraw(self, sender: Seq<char>, amount: u128, denom: Seq<char>) -> Outcome {
        match self.withdrawn(sender, amount, denom) {
            Err(fault) => Err(fault),
            Ok(record) => Ok(
                (
                    State { deposits: self.deposits.insert((sender, denom), record), ..self },
                    receipt("withdraw"@, CoinView { denom, amount }).with_message(
                        BankMsgView::Send { to_address: sender, amount: seq![CoinView { denom, amount }] },
                    ),
                ),
            ),
        }
    }

    /// Filing `offer` for `owner` on one side, under both of its keys. A
    /// second offer of the same owner on the same item is rejected.
    pub open spec fn filed(self, side: Side, owner: Seq<char>, offer: OfferView) -> Result<State, Fault> {
        if !key_fits(owner) || !key_fits(offer.token_id) {
            Err(Fault::KeyTooLong)
        } else if self.offers(side).contains_key((owner, offer.token_id)) {
            Err(
                match side {
                    Side::Bid => Fault::InvalidBid,
                    Side::Ask => Fault::InvalidAsk,
                },
            )
        } else {
            Ok(
                self.with_offers(
                    side,
                    self.offers(side).insert((owner, offer.token_id), offer).insert((offer.token_id, owner), offer),
                ),
            )
        }
    }

    /// Add-bid: the one attached coin is the price bid on `token_id`.
    pub open spec fn add_bid(self, info: MessageInfoView, token_id: Seq<char>) -> Outcome {
        if info.funds.len() != 1 {
            Err(Fault::InvalidFunds)
        } else {
            match self.filed(Side::Bid, info.sender, OfferView { token_id, amount: info.funds[0] }) {
                Err(fault) => Err(fault),
                Ok(next) => Ok((next, receipt("add_bid"@, info.funds[0]).with_attribute("token_id"@, token_id))),
            }
        }
    }

    /// Add-ask: `amount` of `denom` is the price asked for `token_id`.
    pub open spec fn add_ask(self, sender: Seq<char>, token_id: Seq<char>, amount: u128, denom: Seq<char>) -> Outcome {
        match self.filed(Side::Ask, sender, OfferView { token_id, amount: CoinView { denom, amount } }) {
            Err(fault) => Err(fault),
            Ok(next) => Ok(
                (next, receipt("add_ask"@, CoinView { denom, amount }).with_attribute("token_id"@, token_id)),
            ),
        }
    }

    /// Remove-offer: what the sender has filed on `token_id`, on either
    /// side, leaves the registry with its mirror.
    pub open spec fn remove_offer(self, sender: Seq<char>, token_id: Seq<char>) -> Outcome {
        if !key_fits(sender) || !key_fits(token_id) {
            Err(Fault::KeyTooLong)
        } else if !self.bids.contains_key((sender, token_id)) && !self.asks.contains_key((sender, token_id)) {
            Err(Fault::NotFound)
        } else {
            Ok(
                (
                    State {
                        bids: unfiled(self.bids, sender, token_id),
                        asks: unfiled(self.asks, sender, token_id),
                        ..self
                    },
                    ResponseView::empty().with_attribute("execute"@, "remove_offer"@).with_attribute(
                        "token_id"@,
                        token_id,
                    ),
                ),
            )
        }
    }

    /// The administrator after an update by `sender`, where it is allowed.
    pub open spec fn reowned(self, sender: Seq<char>, change: OwnerChange) -> Result<Seq<char>, Fault> {
        match self.config {
            None => Err(Fault::Std),
            Some(owner) => if owner != sender {
                Err(Fault::InvalidOwner)
            } else {
                match change {
                    OwnerChange::Keep => Ok(owner),
                    OwnerChange::Rejected => Err(Fault::Std),
                    OwnerChange::To(next) => Ok(next),
                }
            },
        }
    }

    /// Configuration update: only the administrator may name a successor.
    pub open spec fn update_config(self, sender: Seq<char>, change: OwnerChange) -> Outcome {
        match self.reowned(sender, change) {
            Err(fault) => Err(fault),
            Ok(owner) => Ok((State { config: Some(owner), ..self }, ResponseView::empty())),
        }
    }

    /// One command, by its kind.
    pub open spec fn execute(self, info: MessageInfoView, msg: ExecuteMsgView) -> Outcome {
        match msg {
            ExecuteMsgView::Deposit => self.deposit(info),
            ExecuteMsgView::Withdraw { amount, denom } => self.withdraw(info.sender, amount, denom),
            ExecuteMsgView::AddBid { token_id } => self.add_bid(info, token_id),
            ExecuteMsgView::AddAsk { token_id, amount, denom } => self.add_ask(info.sender, token_id, amount, denom),
            ExecuteMsgView::RemoveOffer { token_id } => self.remove_offer(info.sender, token_id),
        }
    }
}

/// The side that a query's flag selects.
pub open spec fn flagged(bid: bool) -> Side {
    if bid {
        Side::Bid
    } else {
        Side::Ask
    }
}

impl State {
    /// Whether `r` answers the query `msg` on this state: with balances
    /// where balances are asked for and with offers where offers are, each
    /// as `answers` says.
    pub open spec fn answered(self, msg: QueryMsgView, intact: bool, r: Result<QueryResponseView, Fault>) -> bool {
        match msg {
            QueryMsgView::Deposits { address } => match r {
                Ok(QueryResponseView::Deposits(rows)) => answers(Ok(rows), self.deposits, address, intact),
                Ok(QueryResponseView::Offers(_)) => false,
                Err(fault) => answers(Err::<Seq<(Seq<char>, DepositsView)>, Fault>(fault), self.deposits, address, intact),
            },
            QueryMsgView::AddressOffers { address: first, bid } | QueryMsgView::TokenIdOffers {
                token_id: first,
                bid,
            } => match r {
                Ok(QueryResponseView::Offers(rows)) => answers(Ok(rows), self.offers(flagged(bid)), first, intact),
                Ok(QueryResponseView::Deposits(_)) => false,
                Err(fault) => answers(
                    Err::<Seq<(Seq<char>, OfferView)>, Fault>(fault),
                    self.offers(flagged(bid)),
                    first,
                    intact,
                ),
            },
        }
    }
}

} // verus!
