//! The distributer: one cumulative pool of deposits, and for each
//! beneficiary of the share table the pool size up to which it has been
//! paid. A deposit touches the pool only; a beneficiary is settled when it
//! claims.

pub mod accounting;
pub mod contract;
pub mod msg;
pub mod state;
