//! Balance queries, batch transfers and a block-driven transfer pipeline
//! for a proof-of-stake ledger, with the decision logic verified.
pub mod address;
pub mod amount;
pub mod config;
pub mod dispatch;
pub mod error;
pub mod report;
pub mod transfer;
