//! Plain data records for talking to a block-query ledger service:
//! block ranges, the operations a block may carry, transfer responses
//! and the locally stored, sweep-tracked form of a fetched
//! transaction.

use vstd::prelude::*;
use std::collections::HashMap;

verus! {

/// A request for a range of ledger blocks.
#[derive(Clone)]
pub struct QueryBlocksRequest {
    pub start: u64,
    pub length: u64,
}

/// A token-contract transfer response: the block index on success,
/// the service's refusal otherwise.
#[derive(Clone, Debug)]
pub enum Icrc1TransferResponse {
    Confirmed(u64),
    Refused(Error),
}

/// Why a token-contract transfer was refused.
#[derive(Clone, Debug)]
pub enum Error {
    Generic(GenericErrorRecord),
    TemporarilyUnavailable,
    BadBurn(BadBurnRecord),
    Duplicate(DuplicateRecord),
    BadFee(BadFeeRecord),
    CreatedInFuture(CreatedInFutureRecord),
    TooOld,
    InsufficientFunds(InsufficientFundsRecord),
}

/// An unclassified refusal, with the service's own code and text.
#[derive(Clone, Debug)]
pub struct GenericErrorRecord {
    message: String,
    error_code: u64,
}

/// A burn below the service's minimum.
#[derive(Clone, Debug)]
pub struct BadBurnRecord {
    min_burn_amount: u64,
}

/// A transfer the service had already seen.
#[derive(Clone, Debug)]
pub struct DuplicateRecord {
    duplicate_of: u64,
}

/// A transfer carrying the wrong fee.
#[derive(Clone, Debug)]
pub struct BadFeeRecord {
    expected_fee: u64,
}

/// A transfer timestamped after the service's clock.
#[derive(Clone, Debug)]
pub struct CreatedInFutureRecord {
    ledger_time: u64,
}

/// A transfer exceeding the sender's balance.
#[derive(Clone, Debug)]
pub struct InsufficientFundsRecord {
    balance: u64,
}

/// The service's answer to a block-range query.
#[derive(Clone, Debug)]
pub struct QueryBlocksResponse {
    pub certificate: Option<Vec<u8>>,
    pub blocks: Vec<Block>,
    pub chain_length: u64,
    pub first_block_index: u64,
    pub archived_blocks: Vec<ArchivedBlock>,
}

/// One ledger block: its transaction, timestamp and parent hash.
#[derive(Clone, Debug)]
pub struct Block {
    pub transaction: Transaction,
    pub timestamp: Timestamp,
    pub parent_hash: Option<Vec<u8>>,
}

/// One ledger transaction as the block-query service reports it.
#[derive(Clone, Debug)]
pub struct Transaction {
    pub memo: u64,
    pub icrc1_memo: Option<Vec<u8>>,
    pub operation: Option<Operation>,
    pub created_at_time: Timestamp,
}

/// A point in time, in nanoseconds since the epoch.
#[derive(Clone, Copy, PartialEq, Eq, Structural, Debug)]
pub struct Timestamp {
    pub timestamp_nanos: u64,
}

impl Timestamp {
    /// The timestamp for a nanosecond count.
    pub fn from_nanos(timestamp_nanos: u64) -> (r: Self)
        ensures
            r.timestamp_nanos == timestamp_nanos,
    {
        Self { timestamp_nanos }
    }
}

/// The operation a ledger transaction performed.
#[derive(Clone, Debug)]
pub enum Operation {
    Approve(Approve),
    Burn(Burn),
    Mint(Mint),
    Transfer(Transfer),
}

/// An allowance grant recorded on the ledger.
#[derive(Clone, Debug)]
pub struct Approve {
    pub fee: E8s,
    pub from: Vec<u8>,
    pub allowance_e8s: i64,
    pub allowance: E8s,
    pub expected_allowance: Option<E8s>,
    pub expires_at: Option<Timestamp>,
    pub spender: Vec<u8>,
}

/// A burn recorded on the ledger.
#[derive(Clone, Debug)]
pub struct Burn {
    pub from: Vec<u8>,
    pub amount: E8s,
    pub spender: Option<Vec<u8>>,
}

/// A mint recorded on the ledger.
#[derive(Clone, Debug)]
pub struct Mint {
    pub to: Vec<u8>,
    pub amount: E8s,
}

/// A transfer recorded on the ledger.
#[derive(Clone, Debug)]
pub struct Transfer {
    pub to: Vec<u8>,
    pub fee: E8s,
    pub from: Vec<u8>,
    pub amount: E8s,
    pub spender: Option<Vec<u8>>,
}

/// An amount in the ledger's smallest unit.
#[derive(Clone, Copy, PartialEq, Eq, Structural, Debug)]
pub struct E8s {
    pub e8s: u64,
}

/// A block range that was moved to an archive canister, with the
/// callback handles to fetch it.
#[derive(Clone, Debug)]
pub struct ArchivedBlock {
    pub callback: HashMap<String, Callback>,
    pub start: u64,
    pub length: u64,
}

/// The archive's answer when a moved block range is fetched.
#[derive(Clone, Debug)]
pub enum Callback {
    Fetched { blocks: Vec<Block> },
    Unavailable(CallbackError),
}

/// Why an archive refused a block-range fetch.
#[derive(Clone, Debug)]
pub enum CallbackError {
    BadFirstBlockIndex { requested_index: u64, first_valid_index: u64 },
    Other { error_message: String, error_code: u64 },
}

/// Whether a stored transaction's funds were swept onward.
#[derive(Clone, Copy, PartialEq, Eq, Structural, Debug)]
pub enum SweepStatus {
    Swept,
    FailedToSweep,
    NotSwept,
}

/// A fetched transaction as the vault stores it: the ledger fields,
/// its index and hash, and its sweep state.
#[derive(Clone, Debug)]
pub struct StoredTransactions {
    pub index: u64,
    pub memo: u64,
    pub icrc1_memo: Option<Vec<u8>>,
    pub operation: Option<Operation>,
    pub created_at_time: Timestamp,
    pub sweep_status: SweepStatus,
    pub tx_hash: String,
}

impl StoredTransactions {
    /// Stores a fetched transaction: the ledger fields are taken over
    /// unchanged, and the record starts out not swept.
    pub fn new(index: u64, transaction: Transaction, hash: String) -> (r: Self)
        ensures
            r.index == index,
            r.memo == transaction.memo,
            r.icrc1_memo == transaction.icrc1_memo,
            r.operation == transaction.operation,
            r.created_at_time == transaction.created_at_time,
            r.sweep_status == SweepStatus::NotSwept,
            r.tx_hash@ == hash@,
    {
        Self {
            index,
            memo: transaction.memo,
            icrc1_memo: transaction.icrc1_memo,
            operation: transaction.operation,
            created_at_time: transaction.created_at_time,
            sweep_status: SweepStatus::NotSwept,
            tx_hash: hash,
        }
    }
}

} // verus!
