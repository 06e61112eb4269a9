//! The external-chain backend's decision logic: chain selection,
//! integer conversion from a human-readable unit to the chain's base
//! unit, the cached-nonce policy and the shape of a submitted
//! transaction's result. The remote signing and submission themselves
//! are the caller's; everything decided here is pure.

use vstd::prelude::*;

verus! {

/// The outcome of one external-chain submission: the transaction hash
/// and a status line.
#[derive(Clone)]
pub struct TransactionResult {
    pub hash: String,
    pub status: String,
}

/// A caller's external-chain transfer request: destination address,
/// decimal value text and chain name.
#[derive(Clone, Debug)]
pub struct TransactionRequestBasic {
    pub to: String,
    pub value: String,
    pub chain: String,
}

/// The threshold-signature key a chain signer is derived from.
#[derive(Clone, Debug)]
pub struct EcdsaKeyId {
    pub curve: EcdsaCurve,
    pub name: String,
}

/// The curve of a threshold-signature key.
#[derive(Clone, Copy, PartialEq, Eq, Structural, Debug)]
pub enum EcdsaCurve {
    Secp256k1,
}

/// A raw threshold-signature public key with its chain code.
#[derive(Clone, Debug)]
pub struct ECDSAPublicKeyReply {
    pub public_key: Vec<u8>,
    pub chain_code: Vec<u8>,
}

/// A raw public key handed back to a caller.
#[derive(Clone, Debug)]
pub struct PublicKeyReply {
    pub public_key: Vec<u8>,
}

/// What a fund-holding account is created with: the name of its
/// signing key.
#[derive(Clone, Debug)]
pub struct AccountInitArgs {
    key_name: String,
}

impl AccountInitArgs {
    /// Names the signing key the account will use.
    pub fn new(key_name: String) -> (r: Self)
        ensures
            r.spec_key_name() == key_name@,
    {
        AccountInitArgs { key_name }
    }

    /// The name of the account's signing key.
    pub closed spec fn spec_key_name(&self) -> Seq<char> {
        self.key_name@
    }

    /// The name of the account's signing key.
    pub fn key_name(&self) -> (r: &String)
        ensures
            r@ == self.spec_key_name(),
    {
        &self.key_name
    }
}

/// Base units per micro-unit: the chain's fixed-point scale factor of
/// ten to the eighteenth divided by the million micro-units per unit.
pub const WEI_PER_MICRO: u128 = 1000000000000;

/// Converts an amount in micro-units to the chain's integer base
/// unit. The whole conversion is integer arithmetic: no precision is
/// lost on the final multiply.
pub fn eth_to_wei(micro_eth: u64) -> (r: u128)
    ensures
        r == micro_eth * WEI_PER_MICRO,
{
    proof {
        assert((micro_eth as u128) * WEI_PER_MICRO <= (u64::MAX as u128) * WEI_PER_MICRO)
            by (nonlinear_arith)
            requires
                micro_eth <= u64::MAX,
        ;
    }
    (micro_eth as u128) * WEI_PER_MICRO
}

/// The chain id of a named chain; zero for a chain this backend does
/// not serve.
pub open spec fn spec_chain_id(chain: Seq<char>) -> u64 {
    if chain == "eth"@ {
        11155111
    } else if chain == "base"@ {
        84532
    } else if chain == "polygon"@ {
        80002
    } else {
        0
    }
}

/// The chain id of a named chain; zero for an unsupported chain.
pub fn chain_id_of(chain: &str) -> (r: u64)
    ensures
        r == spec_chain_id(chain@),
{
    let c = chain.to_owned();
    if c == String::from_str("eth") {
        11155111
    } else if c == String::from_str("base") {
        84532
    } else if c == String::from_str("polygon") {
        80002
    } else {
        0
    }
}

/// Whether this backend serves the named chain.
pub fn is_supported_chain(chain: &str) -> (r: bool)
    ensures
        r == (spec_chain_id(chain@) != 0),
{
    chain_id_of(chain) != 0
}

/// The gas limit attached to a plain value transfer.
pub const TRANSFER_GAS_LIMIT: u64 = 21000;

/// The nonce for the next submission: one past the cached nonce of
/// the last confirmed transaction when one is known, otherwise the
/// count the remote chain reported.
pub fn next_nonce(cached: Option<u64>, queried: u64) -> (r: u64)
    requires
        cached matches Some(n) ==> n < u64::MAX,
    ensures
        match cached {
            Some(n) => r == n + 1,
            None => r == queried,
        },
{
    match cached {
        Some(n) => n + 1,
        None => queried,
    }
}

/// The result reported for an unsupported chain: no hash, a fixed
/// failure line.
pub fn unsupported_chain_result() -> (r: TransactionResult)
    ensures
        r.hash@.len() == 0,
        r.status@ == "Failed: Unsupported chain."@,
{
    TransactionResult {
        hash: String::new(),
        status: String::from_str("Failed: Unsupported chain."),
    }
}

/// The result reported once submission is over: the mined
/// transaction's hash and a success line when the chain returned the
/// transaction, otherwise no hash and a fixed failure line.
pub fn evm_submission_result(mined_hash: Option<String>) -> (r: TransactionResult)
    ensures
        match mined_hash {
            Some(h) => r.hash@ == h@ && r.status@ == "Success"@,
            None => r.hash@.len() == 0 && r.status@ == "Failed: Could not get transaction."@,
        },
{
    match mined_hash {
        Some(h) => TransactionResult { hash: h, status: String::from_str("Success") },
        None => TransactionResult {
            hash: String::new(),
            status: String::from_str("Failed: Could not get transaction."),
        },
    }
}

} // verus!
