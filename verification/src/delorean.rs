//! The sale contract: it sells collectibles at their price, sets the
//! proceeds of one product apart in a sub-pool, sweeps both pools to the
//! beneficiaries of the share tables at each round update, keeps the
//! per-round ledger of wallets that burned a collectible, and pays the one
//! recorded prize to its winner before the deadline.

pub mod contract;
pub mod guarantees;
pub mod msg;
pub mod state;
