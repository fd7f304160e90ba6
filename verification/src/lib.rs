//! Fund accounting and settlement for a family of collectible-sale contracts:
//! a basis-point share allocator, a cumulative pool with lazily settled
//! claims, a round-scoped fund partition, a time-gated prize claim and a
//! per-round participation ledger, each written as a state transition on an
//! explicit state value.

pub mod auth;
pub mod decimal;
pub mod delorean;
pub mod distributer;
pub mod errors;
pub mod host;
pub mod metadata;
pub mod mint;
pub mod share;
pub mod treasury;
