//! The vault's data model: party identities, token paths, transaction
//! kinds, intent statuses, proposals and the immutable history record.
//! Each executable type carries a mathematical view that the contracts
//! of the other modules speak of.

use vstd::prelude::*;
use vstd::std_specs::cmp::PartialEqSpec;
use crate::util::copy_bytes;

verus! {

/// Identity of a party or external service: an opaque byte string of at
/// most 29 bytes, compared by exact byte equality.
#[derive(Debug)]
pub struct Principal {
    bytes: Vec<u8>,
}

/// The longest raw form an identity may take.
pub const PRINCIPAL_MAX_LEN: usize = 29;

impl View for Principal {
    type V = Seq<u8>;

    closed spec fn view(&self) -> Seq<u8> {
        self.bytes@
    }
}

impl DeepView for Principal {
    type V = Seq<u8>;

    open spec fn deep_view(&self) -> Seq<u8> {
        self.view()
    }
}

impl Principal {
    #[verifier::type_invariant]
    spec fn len_bounded(self) -> bool {
        self.bytes@.len() <= PRINCIPAL_MAX_LEN
    }

    /// Builds an identity from its raw bytes; rejects over-long input.
    pub fn try_from_bytes(bytes: Vec<u8>) -> (r: Option<Principal>)
        ensures
            bytes@.len() <= PRINCIPAL_MAX_LEN ==> (r matches Some(p) && p@ == bytes@),
            bytes@.len() > PRINCIPAL_MAX_LEN ==> r is None,
    {
        if bytes.len() <= PRINCIPAL_MAX_LEN {
            Some(Principal { bytes })
        } else {
            None
        }
    }

    /// The raw bytes of the identity.
    pub fn to_bytes(&self) -> (r: Vec<u8>)
        ensures
            r@ == self@,
    {
        copy_bytes(&self.bytes)
    }

    /// A borrowed view of the identity's raw bytes.
    pub fn as_slice(&self) -> (r: &[u8])
        ensures
            r@ == self@,
    {
        self.bytes.as_slice()
    }

    /// Parses the canonical text form of an identity; `None` when the
    /// text is not a well-formed identity.
    pub fn from_text(s: &str) -> (r: Option<Principal>)
        ensures
            match r {
                Some(p) => principal_of_text(s@) == Some(p@),
                None => principal_of_text(s@) is None,
            },
    {
        principal_parse(s)
    }

    /// The canonical text form of the identity.
    pub fn to_text(&self) -> (r: String)
        ensures
            r@ == principal_text(self@),
    {
        proof {
            use_type_invariant(self);
        }
        principal_render(self)
    }
}

/// The identity bytes denoted by canonical identity text, if any.
pub uninterp spec fn principal_of_text(text: Seq<char>) -> Option<Seq<u8>>;

/// The canonical text form of an identity's bytes.
pub uninterp spec fn principal_text(bytes: Seq<u8>) -> Seq<char>;

/// Relies on candid::Principal::from_text: whether text parses as an
/// identity, and to which bytes, depends on the text alone; a parsed
/// identity is at most 29 bytes long.
#[verifier::external_body]
fn principal_parse(s: &str) -> (r: Option<Principal>)
    ensures
        match r {
            Some(p) => principal_of_text(s@) == Some(p@),
            None => principal_of_text(s@) is None,
        },
{
    match candid::Principal::from_text(s) {
        Ok(p) => Principal::try_from_bytes(p.as_slice().to_vec()),
        Err(_) => None,
    }
}

/// Relies on candid::Principal::to_text: the canonical text form depends
/// on the identity's bytes alone.
#[verifier::external_body]
fn principal_render(p: &Principal) -> (r: String)
    requires
        p@.len() <= PRINCIPAL_MAX_LEN,
    ensures
        r@ == principal_text(p@),
{
    candid::Principal::from_slice(p.as_slice()).to_text()
}

impl Clone for Principal {
    fn clone(&self) -> (r: Self)
        ensures
            r@ == self@,
    {
        proof {
            use_type_invariant(self);
        }
        Principal { bytes: copy_bytes(&self.bytes) }
    }
}

impl PartialEq for Principal {
    fn eq(&self, other: &Self) -> (r: bool)
        ensures
            r == (self@ == other@),
    {
        let r = self.bytes == other.bytes;
        proof {
            if r {
                assert(self.bytes@ =~= other.bytes@);
            } else {
                if self.bytes@ == other.bytes@ {
                    assert(self.bytes.eq_spec(&other.bytes));
                }
            }
        }
        r
    }
}

impl vstd::std_specs::cmp::PartialEqSpecImpl for Principal {
    open spec fn obeys_eq_spec() -> bool {
        true
    }

    open spec fn eq_spec(&self, other: &Principal) -> bool {
        self@ == other@
    }
}

/// A string-encoded composite token identifier:
/// `<network>:<kind>` for a native asset, or
/// `<network>:<kind>:<contract identifier>` for a token contract.
pub type TokenPath = String;

/// A token identifier carried as its raw path text.
pub struct Token(pub String);

impl Token {
    /// The path text of the token.
    pub fn text(&self) -> (r: &String)
        ensures
            r@ == self.0@,
    {
        &self.0
    }
}

/// The kind of operation a proposal asks for.
#[derive(Clone, Copy, PartialEq, Eq, Structural, Debug)]
pub enum TransactionType {
    Swap,
    Transfer,
}

/// The ledger network a transaction is routed to.
#[derive(Clone, Copy, PartialEq, Eq, Structural, Debug)]
pub enum SupportedNetwork {
    ICP,
    ETH,
}

/// The progress or result of one execution attempt. `Completed` and
/// `Failed` are the terminal outcomes of a single attempt.
#[derive(Debug)]
pub enum IntentStatus {
    Pending(String),
    InProgress(String),
    Completed(String),
    Rejected(String),
    Failed(String),
}

/// The mathematical form of a status: the same tags over plain text.
pub enum StatusView {
    Pending(Seq<char>),
    InProgress(Seq<char>),
    Completed(Seq<char>),
    Rejected(Seq<char>),
    Failed(Seq<char>),
}

impl View for IntentStatus {
    type V = StatusView;

    open spec fn view(&self) -> StatusView {
        match self {
            IntentStatus::Pending(m) => StatusView::Pending(m@),
            IntentStatus::InProgress(m) => StatusView::InProgress(m@),
            IntentStatus::Completed(m) => StatusView::Completed(m@),
            IntentStatus::Rejected(m) => StatusView::Rejected(m@),
            IntentStatus::Failed(m) => StatusView::Failed(m@),
        }
    }
}

impl DeepView for IntentStatus {
    type V = StatusView;

    open spec fn deep_view(&self) -> StatusView {
        self.view()
    }
}

impl IntentStatus {
    /// The message carried by the status, whatever its tag.
    pub fn message(&self) -> (r: &String)
        ensures
            r@ == self.spec_message(),
    {
        match self {
            IntentStatus::Pending(m) => m,
            IntentStatus::InProgress(m) => m,
            IntentStatus::Completed(m) => m,
            IntentStatus::Rejected(m) => m,
            IntentStatus::Failed(m) => m,
        }
    }

    /// The message carried by the status.
    pub open spec fn spec_message(&self) -> Seq<char> {
        match self {
            IntentStatus::Pending(m) => m@,
            IntentStatus::InProgress(m) => m@,
            IntentStatus::Completed(m) => m@,
            IntentStatus::Rejected(m) => m@,
            IntentStatus::Failed(m) => m@,
        }
    }
}

impl Clone for IntentStatus {
    fn clone(&self) -> (r: Self)
        ensures
            r@ == self@,
    {
        match self {
            IntentStatus::Pending(m) => IntentStatus::Pending(m.clone()),
            IntentStatus::InProgress(m) => IntentStatus::InProgress(m.clone()),
            IntentStatus::Completed(m) => IntentStatus::Completed(m.clone()),
            IntentStatus::Rejected(m) => IntentStatus::Rejected(m.clone()),
            IntentStatus::Failed(m) => IntentStatus::Failed(m.clone()),
        }
    }
}

impl PartialEq for IntentStatus {
    fn eq(&self, other: &Self) -> (r: bool)
        ensures
            r == (self@ == other@),
    {
        match (self, other) {
            (IntentStatus::Pending(a), IntentStatus::Pending(b)) => *a == *b,
            (IntentStatus::InProgress(a), IntentStatus::InProgress(b)) => *a == *b,
            (IntentStatus::Completed(a), IntentStatus::Completed(b)) => *a == *b,
            (IntentStatus::Rejected(a), IntentStatus::Rejected(b)) => *a == *b,
            (IntentStatus::Failed(a), IntentStatus::Failed(b)) => *a == *b,
            _ => false,
        }
    }
}

impl vstd::std_specs::cmp::PartialEqSpecImpl for IntentStatus {
    open spec fn obeys_eq_spec() -> bool {
        true
    }

    open spec fn eq_spec(&self, other: &IntentStatus) -> bool {
        self@ == other@
    }
}

/// A recoverable error, carrying a human-readable message.
#[derive(Debug)]
pub struct Error {
    pub message: String,
}

/// What a vault is created from: its name and its initial signers.
pub struct VaultInitArgs {
    pub name: String,
    pub signers: Vec<Principal>,
}

/// The caller-supplied fields of a new proposal.
pub struct ProposeTransactionArgs {
    pub to: String,
    pub token: TokenPath,
    pub network: SupportedNetwork,
    pub amount: u64,
    pub transaction_type: TransactionType,
}

/// An in-flight transfer request awaiting quorum. Mutated only by
/// appending to `signers` or `rejections`; its `id` never changes.
#[derive(Debug)]
pub struct ProposedTransaction {
    pub id: u64,
    pub to: String,
    pub token: TokenPath,
    pub network: SupportedNetwork,
    pub amount: u64,
    pub transaction_type: TransactionType,
    pub signers: Vec<Principal>,
    pub rejections: Vec<Principal>,
}

/// The mathematical form of a proposal.
pub struct ProposalView {
    pub id: u64,
    pub to: Seq<char>,
    pub token: Seq<char>,
    pub network: SupportedNetwork,
    pub amount: u64,
    pub transaction_type: TransactionType,
    pub signers: Seq<Seq<u8>>,
    pub rejections: Seq<Seq<u8>>,
}

impl View for ProposedTransaction {
    type V = ProposalView;

    open spec fn view(&self) -> ProposalView {
        ProposalView {
            id: self.id,
            to: self.to@,
            token: self.token@,
            network: self.network,
            amount: self.amount,
            transaction_type: self.transaction_type,
            signers: self.signers.deep_view(),
            rejections: self.rejections.deep_view(),
        }
    }
}

impl DeepView for ProposedTransaction {
    type V = ProposalView;

    open spec fn deep_view(&self) -> ProposalView {
        self.view()
    }
}

impl Clone for ProposedTransaction {
    fn clone(&self) -> (r: Self)
        ensures
            r@ == self@,
    {
        ProposedTransaction {
            id: self.id,
            to: self.to.clone(),
            token: self.token.clone(),
            network: self.network,
            amount: self.amount,
            transaction_type: self.transaction_type,
            signers: clone_principals(&self.signers),
            rejections: clone_principals(&self.rejections),
        }
    }
}

impl PartialEq for ProposedTransaction {
    fn eq(&self, other: &Self) -> (r: bool)
        ensures
            r == (self@ == other@),
    {
        let fields_eq = self.id == other.id && self.to == other.to && self.token == other.token
            && self.network == other.network && self.amount == other.amount
            && self.transaction_type == other.transaction_type;
        let r = fields_eq && principals_eq(&self.signers, &other.signers) && principals_eq(
            &self.rejections,
            &other.rejections,
        );
        proof {
            if r {
                assert(self@ == other@);
            } else {
                if self@ == other@ {
                    assert(self.to@ == other.to@);
                    assert(self.token@ == other.token@);
                }
            }
        }
        r
    }
}

impl vstd::std_specs::cmp::PartialEqSpecImpl for ProposedTransaction {
    open spec fn obeys_eq_spec() -> bool {
        true
    }

    open spec fn eq_spec(&self, other: &ProposedTransaction) -> bool {
        self@ == other@
    }
}

/// Whether two identity lists hold the same identities in the same
/// order.
pub fn principals_eq(a: &Vec<Principal>, b: &Vec<Principal>) -> (r: bool)
    ensures
        r == (a.deep_view() == b.deep_view()),
{
    if a.len() != b.len() {
        proof {
            assert(a.deep_view().len() != b.deep_view().len());
        }
        return false;
    }
    let mut i: usize = 0;
    while i < a.len()
        invariant
            i <= a.len(),
            a.deep_view().len() == b.deep_view().len(),
            a@.len() == b@.len(),
            forall|j: int| 0 <= j < i ==> a.deep_view()[j] == b.deep_view()[j],
        decreases a.len() - i,
    {
        if &a[i] != &b[i] {
            proof {
                assert(a.deep_view()[i as int] != b.deep_view()[i as int]);
            }
            return false;
        }
        i = i + 1;
    }
    proof {
        assert(a.deep_view() =~= b.deep_view());
    }
    true
}

/// An exact copy of a list of identities.
pub fn clone_principals(v: &Vec<Principal>) -> (r: Vec<Principal>)
    ensures
        r.deep_view() == v.deep_view(),
        r@.len() == v@.len(),
{
    let mut r: Vec<Principal> = Vec::new();
    let mut i: usize = 0;
    while i < v.len()
        invariant
            i <= v.len(),
            r.deep_view() == v.deep_view().subrange(0, i as int),
            r@.len() == i,
        decreases v.len() - i,
    {
        r.push(v[i].clone());
        i = i + 1;
        proof {
            assert(r.deep_view() =~= v.deep_view().subrange(0, i as int));
        }
    }
    proof {
        assert(r.deep_view() =~= v.deep_view());
    }
    r
}

/// The backend-agnostic form of an approved transfer, handed to the
/// adapter layer for dispatch.
#[derive(Debug)]
pub struct TransactionRequest {
    pub transaction_type: TransactionType,
    pub amount: u64,
    pub token: TokenPath,
    pub to: String,
    pub network: SupportedNetwork,
}

/// The mathematical form of a transfer request.
pub struct RequestView {
    pub transaction_type: TransactionType,
    pub amount: u64,
    pub token: Seq<char>,
    pub to: Seq<char>,
    pub network: SupportedNetwork,
}

impl View for TransactionRequest {
    type V = RequestView;

    open spec fn view(&self) -> RequestView {
        RequestView {
            transaction_type: self.transaction_type,
            amount: self.amount,
            token: self.token@,
            to: self.to@,
            network: self.network,
        }
    }
}

impl Clone for TransactionRequest {
    fn clone(&self) -> (r: Self)
        ensures
            r@ == self@,
    {
        TransactionRequest {
            transaction_type: self.transaction_type,
            amount: self.amount,
            token: self.token.clone(),
            to: self.to.clone(),
            network: self.network,
        }
    }
}

/// One immutable history record: the outcome of one execution attempt,
/// never changed after it is appended.
#[derive(Debug)]
pub struct Transaction {
    pub status: IntentStatus,
    pub to: String,
    pub token: TokenPath,
    pub network: SupportedNetwork,
    pub amount: u64,
    pub transaction_type: TransactionType,
}

/// The mathematical form of a history record.
pub struct TransactionView {
    pub status: StatusView,
    pub to: Seq<char>,
    pub token: Seq<char>,
    pub network: SupportedNetwork,
    pub amount: u64,
    pub transaction_type: TransactionType,
}

impl View for Transaction {
    type V = TransactionView;

    open spec fn view(&self) -> TransactionView {
        TransactionView {
            status: self.status@,
            to: self.to@,
            token: self.token@,
            network: self.network,
            amount: self.amount,
            transaction_type: self.transaction_type,
        }
    }
}

impl DeepView for Transaction {
    type V = TransactionView;

    open spec fn deep_view(&self) -> TransactionView {
        self.view()
    }
}

impl Clone for Transaction {
    fn clone(&self) -> (r: Self)
        ensures
            r@ == self@,
    {
        Transaction {
            status: self.status.clone(),
            to: self.to.clone(),
            token: self.token.clone(),
            network: self.network,
            amount: self.amount,
            transaction_type: self.transaction_type,
        }
    }
}

/// A fixed 32-byte value as persisted records carry it.
#[derive(Clone, Copy, Debug)]
pub struct Cbor32(pub [u8; 32]);

/// One metadata entry's value in a token-ledger configuration.
#[derive(Clone, Debug)]
pub enum MetadataValue {
    Int(i128),
    Nat(u128),
    Blob(Vec<u8>),
    Text(String),
}

/// Optional capabilities a token ledger may enable.
#[derive(Clone, Copy, PartialEq, Eq, Structural, Debug)]
pub struct FeatureFlags {
    pub icrc2: bool,
}

} // verus!
