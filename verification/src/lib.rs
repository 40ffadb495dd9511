//! A per-reward-cycle signer engine for a threshold-signature block
//! ratification protocol.
//!
//! The crate models the signer's orchestration logic as a verified state
//! machine over plain values: block-acceptance decisions, peer chain-view
//! reconciliation with NACK back-off, vote-transaction auditing, and the
//! block-info store. All I/O (chain RPC, the shared bulletin board, the
//! cryptographic round library) is performed by a surrounding driver, which
//! feeds events in and carries the returned actions out.

pub mod assoc;
pub mod audit;
pub mod blocks;
pub mod engine;
pub mod events;
pub mod messages;
pub mod packets;
pub mod results;
pub mod selector;
pub mod signerdb;
pub mod stale_view;
pub mod transactions;
pub mod types;
pub mod validation;
