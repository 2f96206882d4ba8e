use crate::error::{ContractError, Fault};
use vstd::prelude::*;

verus! {

/// An amount of one asset.
#[derive(Debug, PartialEq, Eq)]
pub struct Coin {
    pub denom: String,
    pub amount: u128,
}

/// A coin as a plain value.
pub struct CoinView {
    pub denom: Seq<char>,
    pub amount: u128,
}

impl View for Coin {
    type V = CoinView;

    open spec fn view(&self) -> CoinView {
        CoinView { denom: self.denom@, amount: self.amount }
    }
}

impl Clone for Coin {
    fn clone(&self) -> (r: Self)
        ensures
            r == *self,
    {
        Coin { denom: self.denom.clone(), amount: self.amount }
    }
}

/// Builds the coin of `amount` units of `denom`.
pub fn coin(amount: u128, denom: &str) -> (r: Coin)
    ensures
        r@ == (CoinView { denom: denom@, amount }),
{
    Coin { denom: denom.to_owned(), amount }
}

/// The balance that one account holds in one denomination.
///
/// `count` goes up by one with each deposit and down by one with each
/// withdrawal: it counts calls and says nothing about the funds.
#[derive(Debug, PartialEq, Eq)]
pub struct Deposits {
    pub count: i32,
    pub owner: String,
    pub coins: Coin,
}

/// A balance record as a plain value.
pub struct DepositsView {
    pub count: i32,
    pub owner: Seq<char>,
    pub coins: CoinView,
}

impl View for Deposits {
    type V = DepositsView;

    open spec fn view(&self) -> DepositsView {
        DepositsView { count: self.count, owner: self.owner@, coins: self.coins@ }
    }
}

impl Clone for Deposits {
    fn clone(&self) -> (r: Self)
        ensures
            r == *self,
    {
        Deposits { count: self.count, owner: self.owner.clone(), coins: self.coins.clone() }
    }
}

impl DepositsView {
    /// The record after `coin` is paid in by `owner`: a first deposit opens
    /// the record, a later one adds to amount and counter.
    pub open spec fn credited(existing: Option<DepositsView>, owner: Seq<char>, coin: CoinView) -> Result<
        DepositsView,
        Fault,
    > {
        match existing {
            None => Ok(DepositsView { count: 1, owner, coins: coin }),
            Some(held) => if held.coins.amount + coin.amount > u128::MAX || held.count + 1 > i32::MAX {
                Err(Fault::Overflow)
            } else {
                Ok(
                    DepositsView {
                        count: (held.count + 1) as i32,
                        owner: held.owner,
                        coins: CoinView {
                            denom: held.coins.denom,
                            amount: (held.coins.amount + coin.amount) as u128,
                        },
                    },
                )
            },
        }
    }

    /// The record after `amount` is paid out: amount and counter go down, and
    /// neither may pass below zero.
    pub open spec fn debited(self, amount: u128) -> Result<DepositsView, Fault> {
        if self.coins.amount < amount || self.count < 1 {
            Err(Fault::Underflow)
        } else {
            Ok(
                DepositsView {
                    count: (self.count - 1) as i32,
                    owner: self.owner,
                    coins: CoinView {
                        denom: self.coins.denom,
                        amount: (self.coins.amount - amount) as u128,
                    },
                },
            )
        }
    }
}

/// The view of a record that may be absent.
pub open spec fn held_view(existing: Option<Deposits>) -> Option<DepositsView> {
    match existing {
        None => None,
        Some(held) => Some(held@),
    }
}

impl Deposits {
    /// Pays `coin` in for `owner`, on top of the record `existing` if there
    /// is one. Neither amount nor counter wraps: an overflow of either is
    /// rejected.
    pub fn credit(existing: Option<Deposits>, owner: &str, coin: &Coin) -> (r: Result<Deposits, ContractError>)
        ensures
            match DepositsView::credited(held_view(existing), owner@, coin@) {
                Ok(next) => r is Ok && r.unwrap()@ == next,
                Err(fault) => r is Err && r.unwrap_err()@ == fault,
            },
    {
        match existing {
            None => Ok(Deposits { count: 1, owner: owner.to_owned(), coins: coin.clone() }),
            Some(held) => {
                let amount = match held.coins.amount.checked_add(coin.amount) {
                    Some(sum) => sum,
                    None => return Err(ContractError::Overflow {}),
                };
                let count = match held.count.checked_add(1) {
                    Some(next) => next,
                    None => return Err(ContractError::Overflow {}),
                };
                Ok(Deposits { count, owner: held.owner, coins: Coin { denom: held.coins.denom, amount } })
            },
        }
    }

    /// Pays `amount` out of the record. Neither amount nor counter wraps: a
    /// record that holds less than `amount`, or whose counter is spent, is
    /// rejected with an underflow.
    pub fn debit(self, amount: u128) -> (r: Result<Deposits, ContractError>)
        ensures
            match self@.debited(amount) {
                Ok(next) => r is Ok && r.unwrap()@ == next,
                Err(fault) => r is Err && r.unwrap_err()@ == fault,
            },
    {
        let left = match self.coins.amount.checked_sub(amount) {
            Some(rest) => rest,
            None => return Err(ContractError::Underflow {}),
        };
        if self.count < 1 {
            return Err(ContractError::Underflow {});
        }
        Ok(Deposits { count: self.count - 1, owner: self.owner, coins: Coin { denom: self.coins.denom, amount: left } })
    }
}

/// A bid or an ask on one item.
#[derive(Debug, PartialEq, Eq)]
pub struct Offer {
    pub token_id: String,
    pub amount: Coin,
}

/// An offer as a plain value.
pub struct OfferView {
    pub token_id: Seq<char>,
    pub amount: CoinView,
}

impl View for Offer {
    type V = OfferView;

    open spec fn view(&self) -> OfferView {
        OfferView { token_id: self.token_id@, amount: self.amount@ }
    }
}

impl Clone for Offer {
    fn clone(&self) -> (r: Self)
        ensures
            r == *self,
    {
        Offer { token_id: self.token_id.clone(), amount: self.amount.clone() }
    }
}

/// The rows of a listing of balances, as plain values.
pub open spec fn deposit_rows(rows: Seq<(String, Deposits)>) -> Seq<(Seq<char>, DepositsView)> {
    rows.map_values(|row: (String, Deposits)| (row.0@, row.1@))
}

/// The rows of a listing of offers, as plain values.
pub open spec fn offer_rows(rows: Seq<(String, Offer)>) -> Seq<(Seq<char>, OfferView)> {
    rows.map_values(|row: (String, Offer)| (row.0@, row.1@))
}

/// The side of the registry that an offer stands on.
#[derive(Clone, Copy, Debug, PartialEq, Eq)]
pub enum Side {
    Bid,
    Ask,
}

/// Who administers the ledger.
#[derive(Debug, PartialEq, Eq)]
pub struct Config {
    pub owner: String,
}

impl Clone for Config {
    fn clone(&self) -> (r: Self)
        ensures
            r == *self,
    {
        Config { owner: self.owner.clone() }
    }
}

} // verus!
