//! A two-way token bridge relay: it records outbound deposits, and releases
//! funds for inbound transactions that a single trusted relayer has signed,
//! with replay protection, a fee split and rollback of failed transfers.
pub mod bridge;
pub mod chain;
pub mod fee;
pub mod laws;
pub mod replay;
pub mod transaction;

pub use bridge::{
    BridgeAssist, BridgeError, CallContext, FulfillPlan, TransferOutcome, TransferRequest,
};
pub use fee::{split_fee, FEE_DENOMINATOR};
pub use transaction::Transaction;
