//! A token faucet: a program-derived authority issues a bounded amount of a
//! fungible token, either by minting new supply or by moving it out of a
//! reserve, and a claim ledger lets each requester claim an asset only once.

pub mod address;
pub mod error;
pub mod policy;
pub mod authority;
pub mod token;
pub mod ledger;
pub mod faucet;
pub mod laws;
