//! The treasury: it forwards what it receives to a savings market, and lets
//! its administrator redeem the savings and withdraw the balance.

pub mod contract;
pub mod msg;
pub mod state;
