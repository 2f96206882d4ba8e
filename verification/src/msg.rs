use crate::state::{deposit_rows, offer_rows, Deposits, DepositsView, Offer, OfferView};
use vstd::prelude::*;

verus! {

/// Sent once, when the ledger is set up; it carries nothing.
#[derive(Clone, Debug, PartialEq)]
pub struct InstantiateMsg {}

/// The commands that change the ledger or the offer registry.
#[derive(Clone, Debug, PartialEq)]
pub enum ExecuteMsg {
    Deposit {},
    Withdraw { amount: u128, denom: String },
    AddBid { token_id: String },
    AddAsk { token_id: String, amount: u128, denom: String },
    RemoveOffer { token_id: String },
}

/// A command as a plain value.
pub enum ExecuteMsgView {
    Deposit,
    Withdraw { amount: u128, denom: Seq<char> },
    AddBid { token_id: Seq<char> },
    AddAsk { token_id: Seq<char>, amount: u128, denom: Seq<char> },
    RemoveOffer { token_id: Seq<char> },
}

impl View for ExecuteMsg {
    type V = ExecuteMsgView;

    open spec fn view(&self) -> ExecuteMsgView {
        match self {
            ExecuteMsg::Deposit {} => ExecuteMsgView::Deposit,
            ExecuteMsg::Withdraw { amount, denom } => ExecuteMsgView::Withdraw { amount: *amount, denom: denom@ },
            ExecuteMsg::AddBid { token_id } => ExecuteMsgView::AddBid { token_id: token_id@ },
            ExecuteMsg::AddAsk { token_id, amount, denom } => ExecuteMsgView::AddAsk {
                token_id: token_id@,
                amount: *amount,
                denom: denom@,
            },
            ExecuteMsg::RemoveOffer { token_id } => ExecuteMsgView::RemoveOffer { token_id: token_id@ },
        }
    }
}

/// The read-only requests.
#[derive(Clone, Debug, PartialEq)]
pub enum QueryMsg {
    Deposits { address: String },
    AddressOffers { address: String, bid: bool },
    TokenIdOffers { token_id: String, bid: bool },
}

/// A query as a plain value.
pub enum QueryMsgView {
    Deposits { address: Seq<char> },
    AddressOffers { address: Seq<char>, bid: bool },
    TokenIdOffers { token_id: Seq<char>, bid: bool },
}

impl View for QueryMsg {
    type V = QueryMsgView;

    open spec fn view(&self) -> QueryMsgView {
        match self {
            QueryMsg::Deposits { address } => QueryMsgView::Deposits { address: address@ },
            QueryMsg::AddressOffers { address, bid } => QueryMsgView::AddressOffers { address: address@, bid: *bid },
            QueryMsg::TokenIdOffers { token_id, bid } => QueryMsgView::TokenIdOffers {
                token_id: token_id@,
                bid: *bid,
            },
        }
    }
}

/// The answer to `QueryMsg::Deposits`: each balance of the address with its
/// denomination, in ascending order of denomination.
#[derive(Clone, Debug, PartialEq)]
pub struct DepositResponse {
    pub deposits: Vec<(String, Deposits)>,
}

/// The answer to the two offer queries: each offer with the key it is
/// listed by, in ascending order of that key.
#[derive(Clone, Debug, PartialEq)]
pub struct BidsResponse {
    pub bids: Vec<(String, Offer)>,
}

/// The answer to a query, by its kind.
#[derive(Clone, Debug, PartialEq)]
pub enum QueryResponse {
    Deposits(DepositResponse),
    Offers(BidsResponse),
}

impl View for DepositResponse {
    type V = Seq<(Seq<char>, DepositsView)>;

    open spec fn view(&self) -> Seq<(Seq<char>, DepositsView)> {
        deposit_rows(self.deposits@)
    }
}

impl View for BidsResponse {
    type V = Seq<(Seq<char>, OfferView)>;

    open spec fn view(&self) -> Seq<(Seq<char>, OfferView)> {
        offer_rows(self.bids@)
    }
}

/// An answer as a plain value: the rows of its listing.
pub enum QueryResponseView {
    Deposits(Seq<(Seq<char>, DepositsView)>),
    Offers(Seq<(Seq<char>, OfferView)>),
}

impl View for QueryResponse {
    type V = QueryResponseView;

    open spec fn view(&self) -> QueryResponseView {
        match self {
            QueryResponse::Deposits(found) => QueryResponseView::Deposits(found@),
            QueryResponse::Offers(found) => QueryResponseView::Offers(found@),
        }
    }
}

} // verus!
