//! A custodial multi-party transaction vault: an ordered set of signers
//! jointly controls a fund-holding identity, proposals collect approvals
//! until a configurable quorum is reached, and execution routes each
//! approved transfer to the ledger adapter registered for its token path,
//! appending the outcome to an append-only transaction log.

pub mod adapters;
pub mod evm;
pub mod executor;
pub mod ledger;
pub mod ledger_data;
pub mod token_path;
pub mod types;
pub mod util;
pub mod vault;
