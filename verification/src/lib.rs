//! Settlement of uptime-based payouts to infrastructure nodes.
//!
//! The library holds the decision logic of two ledger contracts: an oracle
//! that vouches for uptime reports of authorized signers, and a settlement
//! contract that keeps escrow terms per node and pays out of its token balance
//! when a verified report meets the node's uptime threshold. The ledger
//! itself (storage, authorization, cross-contract calls and token transfers)
//! stays with the host program, which hands the library plain values.

pub mod address;
pub mod address_map;
pub mod oracle;
pub mod model;
pub mod node;
pub mod settlement;

pub use address::Address;
pub use address_map::AddressMap;
pub use oracle::{MockOracle, OracleError, MAX_UPTIME_BPS};
pub use node::{NodeInfo, BPS_SCALE};
pub use settlement::{
    DepositTransfer, OracleReport, PayoutTransfer, ReportAction, ReportEvent, SettlementContract,
    SettlementError,
};
