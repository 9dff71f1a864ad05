//! A small state machine for taxed value transfers over an external ledger.
//!
//! The library keeps one global configuration record (a tax-collection
//! destination, an administrative authority, and an irreversible `renounced`
//! flag) and offers three operations: initialize the configuration, plan a
//! taxed transfer between two accounts, and permanently renounce
//! administrative control.
//!
//! The ledger itself (account balances and the primitive that moves value
//! between accounts) is an external collaborator: a transfer here produces an
//! ordered plan of ledger moves, and the host executes the plan against its
//! ledger, stopping at the first move that fails.

pub mod config;
pub mod error;
pub mod identity;
pub mod tax;
pub mod transfer;
