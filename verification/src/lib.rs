//! An account-scoped asset ledger with a registry of bids and asks, kept in
//! a key-value store.
//!
//! `state` holds the records and what a deposit or a withdrawal makes of one;
//! `store` keeps them in storage; `model` says what every operation does to
//! what the store holds; `contract` carries the operations out; `laws` and
//! `listing` prove what follows from that.

pub mod contract;
pub mod error;
pub mod host;
pub mod laws;
pub mod listing;
pub mod model;
pub mod msg;
pub mod state;
pub mod store;
pub mod text;
