use cosmwasm_std::StdError;
use vstd::prelude::*;

verus! {

/// `StdError` of cosmwasm_std: the error that the storage maps and the
/// address validator answer with. It is carried along and never inspected.
#[verifier::external_type_specification]
#[verifier::external_body]
pub struct ExStdError(StdError);

/// Why an operation was rejected.
///
/// Every rejection leaves the store exactly as it was.
#[derive(Debug, PartialEq)]
pub enum ContractError {
    /// The store or the address validator refused; the cause is carried along.
    Std(StdError),
    /// The caller is not the administrator.
    InvalidOwner {},
    /// The caller already holds a bid on the item.
    InvalidBid {},
    /// The caller already holds an ask on the item.
    InvalidAsk {},
    /// Not exactly one asset was attached.
    InvalidFunds {},
    /// An identifier is too long to serve as the leading part of a store key.
    KeyTooLong {},
    /// A balance or a counter would exceed its type.
    Overflow {},
    /// A balance or a counter would fall below zero.
    Underflow {},
    /// No balance or offer is recorded under the key.
    NotFound {},
}

/// The kind of a rejection, without the cause that a `Std` error carries.
#[derive(Debug)]
pub enum Fault {
    Std,
    InvalidOwner,
    InvalidBid,
    InvalidAsk,
    InvalidFunds,
    KeyTooLong,
    Overflow,
    Underflow,
    NotFound,
}

impl View for ContractError {
    type V = Fault;

    open spec fn view(&self) -> Fault {
        match self {
            ContractError::Std(_) => Fault::Std,
            ContractError::InvalidOwner {} => Fault::InvalidOwner,
            ContractError::InvalidBid {} => Fault::InvalidBid,
            ContractError::InvalidAsk {} => Fault::InvalidAsk,
            ContractError::InvalidFunds {} => Fault::InvalidFunds,
            ContractError::KeyTooLong {} => Fault::KeyTooLong,
            ContractError::Overflow {} => Fault::Overflow,
            ContractError::Underflow {} => Fault::Underflow,
            ContractError::NotFound {} => Fault::NotFound,
        }
    }
}

} // verus!
