//! The minting contract: it sells the tokens of one collection at their
//! price, numbers them up to a limit, orders each from the contract that
//! holds the collection, and forwards the price to the beneficiaries of the
//! share table.

pub mod contract;
pub mod msg;
pub mod state;
