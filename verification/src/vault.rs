//! The vault's state: the ordered signer set, the quorum threshold,
//! the proposal working set, the append-only transaction log and the
//! adapter registry, with every operation's effect stated exactly.

use vstd::prelude::*;
use crate::adapters::{
    AdapterKind, AdapterKindView, AdapterRegistry, ICPNativeTransferAdapter, ICRC1TransferAdapter,
    RegistryView,
};
use crate::types::{
    Error, Principal, ProposalView, ProposeTransactionArgs, ProposedTransaction, Transaction,
    TransactionView, VaultInitArgs, clone_principals,
};
use crate::util::{spec_decimal, u64_to_decimal};

verus! {

/// The input sequence with later repetitions removed: each identity
/// keeps its first position.
pub open spec fn spec_dedup(s: Seq<Seq<u8>>) -> Seq<Seq<u8>>
    decreases s.len(),
{
    if s.len() == 0 {
        s
    } else {
        let front = spec_dedup(s.drop_last());
        if front.contains(s.last()) {
            front
        } else {
            front.push(s.last())
        }
    }
}

/// Deduplication yields pairwise distinct elements, keeps only
/// elements of the input, and keeps every element of the input.
pub proof fn lemma_dedup(s: Seq<Seq<u8>>)
    ensures
        forall|i: int, j: int|
            0 <= i < j < spec_dedup(s).len() ==> spec_dedup(s)[i] != spec_dedup(s)[j],
        forall|x: Seq<u8>| #[trigger] spec_dedup(s).contains(x) <==> s.contains(x),
    decreases s.len(),
{
    if s.len() > 0 {
        let dl = s.drop_last();
        lemma_dedup(dl);
        let front = spec_dedup(dl);
        assert forall|x: Seq<u8>| #[trigger] spec_dedup(s).contains(x) <==> s.contains(x) by {
            if spec_dedup(s).contains(x) {
                if front.contains(x) {
                    assert(dl.contains(x));
                    let i = choose|i: int| 0 <= i < dl.len() && dl[i] == x;
                    assert(s[i] == x);
                    assert(s.contains(x));
                } else {
                    let k = choose|k: int| 0 <= k < spec_dedup(s).len() && spec_dedup(s)[k] == x;
                    assert(spec_dedup(s) == front.push(s.last()));
                    if k < front.len() {
                        assert(front[k] == x);
                        assert(front.contains(x));
                    }
                    assert(x == s.last());
                    assert(s[s.len() - 1] == x);
                    assert(s.contains(x));
                }
            }
            if s.contains(x) {
                let i = choose|i: int| 0 <= i < s.len() && s[i] == x;
                if i < s.len() - 1 {
                    assert(dl[i] == x);
                    assert(dl.contains(x));
                    assert(front.contains(x));
                    let k = choose|k: int| 0 <= k < front.len() && front[k] == x;
                    assert(spec_dedup(s)[k] == x);
                    assert(spec_dedup(s).contains(x));
                } else {
                    assert(x == s.last());
                    if front.contains(x) {
                        let k = choose|k: int| 0 <= k < front.len() && front[k] == x;
                        assert(spec_dedup(s)[k] == x);
                        assert(spec_dedup(s).contains(x));
                    } else {
                        assert(spec_dedup(s) == front.push(s.last()));
                        assert(spec_dedup(s)[front.len() as int] == x);
                        assert(spec_dedup(s).contains(x));
                    }
                }
            }
        }
    }
}

/// What adding a signer does: an identity already present is refused
/// and the state kept; a new identity is appended to the signer set.
pub open spec fn spec_add_signer(v: VaultView, p: Seq<u8>) -> (bool, VaultView) {
    if v.signers.contains(p) {
        (false, v)
    } else {
        (true, VaultView { signers: v.signers.push(p), ..v })
    }
}

/// Law: an identity that is not yet a signer is added by one call and
/// is then a signer; a second add of the same identity fails and
/// leaves the signer list — and all other state — unchanged.
pub proof fn lemma_add_signer_gate(v: VaultView, p: Seq<u8>)
    requires
        !v.signers.contains(p),
    ensures
        ({
            let (ok1, v1) = spec_add_signer(v, p);
            let (ok2, v2) = spec_add_signer(v1, p);
            &&& ok1
            &&& v1.signers.contains(p)
            &&& !ok2
            &&& v2 == v1
        }),
{
    let (ok1, v1) = spec_add_signer(v, p);
    assert(v1.signers[v1.signers.len() - 1] == p);
    assert(v1.signers.contains(p));
}

/// Whether an identity occurs in a list.
pub fn principal_in(v: &Vec<Principal>, p: &Principal) -> (r: bool)
    ensures
        r == v.deep_view().contains(p@),
{
    let mut i: usize = 0;
    while i < v.len()
        invariant
            i <= v.len(),
            forall|j: int| 0 <= j < i ==> v.deep_view()[j] != p@,
        decreases v.len() - i,
    {
        if &v[i] == p {
            proof {
                assert(v.deep_view()[i as int] == p@);
            }
            return true;
        }
        i = i + 1;
    }
    proof {
        if v.deep_view().contains(p@) {
            let j = choose|j: int| 0 <= j < v.deep_view().len() && v.deep_view()[j] == p@;
            assert(v.deep_view()[j] != p@);
        }
    }
    false
}

/// The mathematical form of the whole vault state.
pub struct VaultView {
    pub name: Seq<char>,
    pub signers: Seq<Seq<u8>>,
    pub threshold: u64,
    pub proposals: Seq<ProposalView>,
    pub transactions: Seq<TransactionView>,
    pub adapters: RegistryView,
}

/// The vault: a set of signers jointly controlling a fund-holding
/// identity, with a quorum threshold, the in-flight proposals, the
/// append-only history and the registered ledger adapters.
pub struct Vault {
    name: String,
    signers: Vec<Principal>,
    threshold: u64,
    proposals: Vec<ProposedTransaction>,
    transactions: Vec<Transaction>,
    adapters: AdapterRegistry,
}

impl View for Vault {
    type V = VaultView;

    closed spec fn view(&self) -> VaultView {
        VaultView {
            name: self.name@,
            signers: self.signers.deep_view(),
            threshold: self.threshold,
            proposals: self.proposals.deep_view(),
            transactions: self.transactions.deep_view(),
            adapters: self.adapters@,
        }
    }
}

impl Vault {
    /// The vault's structural invariant: no duplicate signers, each
    /// proposal stored at the index equal to its id, and a well-formed
    /// adapter registry.
    pub closed spec fn wf(self) -> bool {
        &&& forall|i: int, j: int|
            0 <= i < j < self.signers.deep_view().len() ==> self.signers.deep_view()[i]
                != self.signers.deep_view()[j]
        &&& forall|i: int|
            0 <= i < self.proposals.deep_view().len() ==> #[trigger] self.proposals.deep_view()[i].id
                == i
        &&& self.adapters.wf()
    }

    /// No identity appears twice among a well-formed vault's signers.
    pub proof fn lemma_signers_unique(&self)
        requires
            self.wf(),
        ensures
            forall|i: int, j: int|
                0 <= i < j < self@.signers.len() ==> self@.signers[i] != self@.signers[j],
    {
    }

    /// In a well-formed vault each proposal's id equals its position,
    /// so no id is ever repeated.
    pub proof fn lemma_proposal_ids_unique(&self)
        requires
            self.wf(),
        ensures
            forall|i: int|
                0 <= i < self@.proposals.len() ==> #[trigger] self@.proposals[i].id == i,
            forall|i: int, j: int|
                0 <= i < j < self@.proposals.len() ==> self@.proposals[i].id
                    != self@.proposals[j].id,
    {
        assert forall|i: int, j: int|
            0 <= i < j < self@.proposals.len() implies self@.proposals[i].id
            != self@.proposals[j].id by {
            assert(self@.proposals[i].id == i);
            assert(self@.proposals[j].id == j);
        }
    }

    /// Creates a vault: the given name, the given signers with
    /// repetitions dropped, a threshold of one, no proposals, an empty
    /// history, and the native-asset and token-contract adapters
    /// registered under their derived keys.
    pub fn new(args: VaultInitArgs) -> (r: Vault)
        ensures
            r.wf(),
            r@.name == args.name@,
            r@.signers == spec_dedup(args.signers.deep_view()),
            r@.threshold == 1,
            r@.proposals == Seq::<ProposalView>::empty(),
            r@.transactions == Seq::<TransactionView>::empty(),
            r@.adapters.keys == seq!["icp:native:transfer"@, "icp:icrc1:transfer"@],
            r@.adapters.map == Map::<Seq<char>, AdapterKindView>::empty().insert(
                "icp:native:transfer"@,
                AdapterKindView::IcpNative(ICPNativeTransferAdapter::spec_new()),
            ).insert(
                "icp:icrc1:transfer"@,
                AdapterKindView::Icrc1(ICRC1TransferAdapter::spec_new()),
            ),
    {
        let VaultInitArgs { name, signers } = args;
        let mut adapters = AdapterRegistry::new();
        proof {
            reveal_strlit("icp:native:transfer");
            reveal_strlit("icp:icrc1:transfer");
            assert("icp:native:transfer"@.len() == 19);
            assert("icp:icrc1:transfer"@.len() == 18);
        }
        adapters.register(
            String::from_str("icp:native:transfer"),
            AdapterKind::IcpNative(ICPNativeTransferAdapter::new()),
        );
        adapters.register(
            String::from_str("icp:icrc1:transfer"),
            AdapterKind::Icrc1(ICRC1TransferAdapter::new()),
        );
        let mut unique: Vec<Principal> = Vec::new();
        let mut i: usize = 0;
        proof {
            assert(signers.deep_view().take(0) =~= Seq::<Seq<u8>>::empty());
        }
        while i < signers.len()
            invariant
                i <= signers.deep_view().len(),
                signers.deep_view().len() == signers@.len(),
                unique.deep_view() == spec_dedup(signers.deep_view().take(i as int)),
                forall|a: int, b: int|
                    0 <= a < b < unique.deep_view().len() ==> unique.deep_view()[a]
                        != unique.deep_view()[b],
            decreases signers@.len() - i,
        {
            let s = signers[i].clone();
            let ghost prefix = signers.deep_view().take(i as int);
            proof {
                assert(signers.deep_view().take(i as int + 1).drop_last() =~= prefix);
                assert(signers.deep_view().take(i as int + 1).last() == signers.deep_view()[
                    i as int
                ]);
            }
            if !principal_in(&unique, &s) {
                let ghost prev = unique.deep_view();
                unique.push(s);
                proof {
                    assert(unique.deep_view() =~= prev.push(signers.deep_view()[i as int]));
                }
            }
            i = i + 1;
        }
        proof {
            assert(signers.deep_view().take(signers.deep_view().len() as int)
                =~= signers.deep_view());
        }
        Vault {
            name,
            signers: unique,
            threshold: 1,
            proposals: Vec::new(),
            transactions: Vec::new(),
            adapters,
        }
    }

    /// Whether an identity is an authorized signer.
    pub fn signer_exists(&self, signer: &Principal) -> (r: bool)
        ensures
            r == self@.signers.contains(signer@),
    {
        principal_in(&self.signers, signer)
    }

    /// Adds a signer: fails if the identity is already a signer, and
    /// the vault is unchanged; otherwise appends it to the signer set.
    pub fn add_signer(&mut self, signer: Principal) -> (r: Result<(), Error>)
        requires
            old(self).wf(),
        ensures
            final(self).wf(),
            (r is Ok) == spec_add_signer(old(self)@, signer@).0,
            final(self)@ == spec_add_signer(old(self)@, signer@).1,
            old(self)@.signers.contains(signer@) ==> (r matches Err(e) && e.message@
                == "Signer already exists"@ && final(self)@ == old(self)@),
            !old(self)@.signers.contains(signer@) ==> (r is Ok && final(self)@ == (VaultView {
                signers: old(self)@.signers.push(signer@),
                ..old(self)@
            })),
    {
        if self.signer_exists(&signer) {
            return Err(Error { message: String::from_str("Signer already exists") });
        }
        let ghost prev = self.signers.deep_view();
        self.signers.push(signer);
        proof {
            assert(self.signers.deep_view() =~= prev.push(signer@));
            assert(final(self)@ == (VaultView { signers: prev.push(signer@), ..old(self)@ }));
        }
        Ok(())
    }

    /// The current signers, in insertion order.
    pub fn get_signers(&self) -> (r: Vec<Principal>)
        ensures
            r.deep_view() == self@.signers,
    {
        clone_principals(&self.signers)
    }

    /// Overwrites the quorum threshold; no other state changes.
    pub fn set_threshold(&mut self, threshold: u64)
        requires
            old(self).wf(),
        ensures
            final(self).wf(),
            final(self)@ == (VaultView { threshold, ..old(self)@ }),
    {
        self.threshold = threshold;
    }

    /// The current quorum threshold.
    pub fn get_threshold(&self) -> (r: u64)
        ensures
            r == self@.threshold,
    {
        self.threshold
    }

    /// The registered adapter keys, in registration order.
    pub fn get_supported_blockchain_adapters(&self) -> (r: Vec<String>)
        ensures
            r.deep_view() == self@.adapters.keys,
    {
        self.adapters.keys()
    }

    /// The registered adapter keys, in registration order.
    pub fn get_adapters(&self) -> (r: Vec<String>)
        ensures
            r.deep_view() == self@.adapters.keys,
    {
        self.adapters.keys()
    }

    /// How many proposals the vault holds; the next proposal id.
    pub fn proposals_count(&self) -> (r: u64)
        ensures
            r == self@.proposals.len(),
    {
        self.proposals.len() as u64
    }

    /// A borrowed view of the adapter registry.
    pub fn adapters(&self) -> (r: &AdapterRegistry)
        ensures
            r@ == self@.adapters,
            self.wf() ==> r.wf(),
    {
        &self.adapters
    }

    /// Creates a proposal: the next id in order, the caller as its
    /// first signer, no rejections; appends it to the working set and
    /// returns it. Every earlier proposal has a strictly smaller id,
    /// so ids never repeat.
    pub fn propose_transaction(
        &mut self,
        caller: Principal,
        proposed_transaction: ProposeTransactionArgs,
    ) -> (r: ProposedTransaction)
        requires
            old(self).wf(),
            old(self)@.proposals.len() < u64::MAX,
        ensures
            final(self).wf(),
            r@ == (ProposalView {
                id: old(self)@.proposals.len() as u64,
                to: proposed_transaction.to@,
                token: proposed_transaction.token@,
                network: proposed_transaction.network,
                amount: proposed_transaction.amount,
                transaction_type: proposed_transaction.transaction_type,
                signers: seq![caller@],
                rejections: Seq::<Seq<u8>>::empty(),
            }),
            final(self)@ == (VaultView {
                proposals: old(self)@.proposals.push(r@),
                ..old(self)@
            }),
            forall|j: int|
                0 <= j < old(self)@.proposals.len() ==> old(self)@.proposals[j].id < r.id,
    {
        let id = self.proposals.len() as u64;
        let record = ProposedTransaction {
            id,
            to: proposed_transaction.to,
            token: proposed_transaction.token,
            network: proposed_transaction.network,
            amount: proposed_transaction.amount,
            transaction_type: proposed_transaction.transaction_type,
            signers: vec![caller],
            rejections: Vec::new(),
        };
        let copy = record.clone();
        let ghost prev = self.proposals.deep_view();
        self.proposals.push(record);
        proof {
            assert(copy@.signers =~= seq![caller@]);
            assert(copy@.rejections =~= Seq::<Seq<u8>>::empty());
            assert(self.proposals.deep_view() =~= prev.push(copy@));
            assert(final(self)@ == (VaultView { proposals: prev.push(copy@), ..old(self)@ }));
        }
        copy
    }

    /// Looks a proposal up by id: a copy of the stored record, or
    /// nothing when no proposal carries the id.
    pub fn get_proposed_transaction(&self, id: u64) -> (r: Option<ProposedTransaction>)
        requires
            self.wf(),
        ensures
            match r {
                Some(p) => id < self@.proposals.len() && p@ == self@.proposals[id as int],
                None => id >= self@.proposals.len(),
            },
    {
        let n = self.proposals.len() as u64;
        if id < n {
            let idx = id as usize;
            let p = self.proposals[idx].clone();
            proof {
                assert(self.proposals.deep_view()[id as int] == self.proposals@[id as int]@);
            }
            Some(p)
        } else {
            None
        }
    }

    /// All in-flight proposals, in insertion order.
    pub fn get_proposed_transactions(&self) -> (r: Vec<ProposedTransaction>)
        ensures
            r.deep_view() == self@.proposals,
    {
        let mut r: Vec<ProposedTransaction> = Vec::new();
        let mut i: usize = 0;
        proof {
            assert(r.deep_view() =~= self@.proposals.subrange(0, 0));
        }
        while i < self.proposals.len()
            invariant
                i <= self.proposals@.len(),
                r.deep_view() == self@.proposals.subrange(0, i as int),
            decreases self.proposals@.len() - i,
        {
            let ghost prev = r.deep_view();
            r.push(self.proposals[i].clone());
            proof {
                assert(r.deep_view() =~= prev.push(self@.proposals[i as int]));
                assert(r.deep_view() =~= self@.proposals.subrange(0, i as int + 1));
            }
            i = i + 1;
        }
        proof {
            assert(r.deep_view() =~= self@.proposals);
        }
        r
    }

    /// Records an approval: fails when the caller is not a signer or
    /// the id is unknown, leaving the vault unchanged; otherwise
    /// appends the caller to the proposal's approvals — repeated
    /// approvals append again — and returns the updated record.
    pub fn approve_transaction(&mut self, caller: Principal, id: u64) -> (r: Result<
        ProposedTransaction,
        Error,
    >)
        requires
            old(self).wf(),
        ensures
            final(self).wf(),
            !old(self)@.signers.contains(caller@) ==> (r matches Err(e) && e.message@
                == "Caller is not a signer"@ && final(self)@ == old(self)@),
            old(self)@.signers.contains(caller@) && id >= old(self)@.proposals.len() ==> (
            r matches Err(e) && e.message@ == "Proposed transaction with id "@ + spec_decimal(
                id as nat,
            ) + " not found"@ && final(self)@ == old(self)@),
            old(self)@.signers.contains(caller@) && id < old(self)@.proposals.len() ==> (
            r matches Ok(p) && p@ == (ProposalView {
                signers: old(self)@.proposals[id as int].signers.push(caller@),
                ..old(self)@.proposals[id as int]
            }) && final(self)@ == (VaultView {
                proposals: old(self)@.proposals.update(id as int, p@),
                ..old(self)@
            })),
    {
        if !self.signer_exists(&caller) {
            return Err(Error { message: String::from_str("Caller is not a signer") });
        }
        let n = self.proposals.len() as u64;
        if id >= n {
            let mut message = String::from_str("Proposed transaction with id ");
            message.append(u64_to_decimal(id).as_str());
            message.append(" not found");
            return Err(Error { message });
        }
        let idx = id as usize;
        let mut record = self.proposals[idx].clone();
        let ghost prev_signers = record.signers.deep_view();
        record.signers.push(caller);
        proof {
            assert(record.signers.deep_view() =~= prev_signers.push(caller@));
        }
        let copy = record.clone();
        let ghost updated = record@;
        let ghost prev = self.proposals.deep_view();
        self.proposals[idx] = record;
        proof {
            assert(updated.id == id);
            assert(self.proposals.deep_view() =~= prev.update(id as int, updated));
            assert forall|i: int|
                0 <= i < self.proposals.deep_view().len() implies #[trigger] self.proposals.deep_view()[i].id
                == i by {
                if i != id as int {
                    assert(self.proposals.deep_view()[i] == prev[i]);
                }
            }
            assert(final(self)@ == (VaultView {
                proposals: prev.update(id as int, updated),
                ..old(self)@
            }));
        }
        Ok(copy)
    }

    /// Records a rejection: fails when the caller is not a signer or
    /// the id is unknown, leaving the vault unchanged; otherwise
    /// appends the caller to the proposal's rejections — approvals are
    /// untouched — and returns the updated record.
    pub fn reject_transaction(&mut self, caller: Principal, id: u64) -> (r: Result<
        ProposedTransaction,
        Error,
    >)
        requires
            old(self).wf(),
        ensures
            final(self).wf(),
            !old(self)@.signers.contains(caller@) ==> (r matches Err(e) && e.message@
                == "Caller is not a signer"@ && final(self)@ == old(self)@),
            old(self)@.signers.contains(caller@) && id >= old(self)@.proposals.len() ==> (
            r matches Err(e) && e.message@ == "Proposed transaction with id "@ + spec_decimal(
                id as nat,
            ) + " not found"@ && final(self)@ == old(self)@),
            old(self)@.signers.contains(caller@) && id < old(self)@.proposals.len() ==> (
            r matches Ok(p) && p@ == (ProposalView {
                rejections: old(self)@.proposals[id as int].rejections.push(caller@),
                ..old(self)@.proposals[id as int]
            }) && final(self)@ == (VaultView {
                proposals: old(self)@.proposals.update(id as int, p@),
                ..old(self)@
            })),
    {
        if !self.signer_exists(&caller) {
            return Err(Error { message: String::from_str("Caller is not a signer") });
        }
        let n = self.proposals.len() as u64;
        if id >= n {
            let mut message = String::from_str("Proposed transaction with id ");
            message.append(u64_to_decimal(id).as_str());
            message.append(" not found");
            return Err(Error { message });
        }
        let idx = id as usize;
        let mut record = self.proposals[idx].clone();
        let ghost prev_rejections = record.rejections.deep_view();
        record.rejections.push(caller);
        proof {
            assert(record.rejections.deep_view() =~= prev_rejections.push(caller@));
        }
        let copy = record.clone();
        let ghost updated = record@;
        let ghost prev = self.proposals.deep_view();
        self.proposals[idx] = record;
        proof {
            assert(updated.id == id);
            assert(self.proposals.deep_view() =~= prev.update(id as int, updated));
            assert forall|i: int|
                0 <= i < self.proposals.deep_view().len() implies #[trigger] self.proposals.deep_view()[i].id
                == i by {
                if i != id as int {
                    assert(self.proposals.deep_view()[i] == prev[i]);
                }
            }
            assert(final(self)@ == (VaultView {
                proposals: prev.update(id as int, updated),
                ..old(self)@
            }));
        }
        Ok(copy)
    }

    /// The executed-transaction history, in append order.
    pub fn get_transactions(&self) -> (r: Vec<Transaction>)
        ensures
            r.deep_view() == self@.transactions,
    {
        let mut r: Vec<Transaction> = Vec::new();
        let mut i: usize = 0;
        proof {
            assert(r.deep_view() =~= self@.transactions.subrange(0, 0));
        }
        while i < self.transactions.len()
            invariant
                i <= self.transactions@.len(),
                r.deep_view() == self@.transactions.subrange(0, i as int),
            decreases self.transactions@.len() - i,
        {
            let ghost prev = r.deep_view();
            r.push(self.transactions[i].clone());
            proof {
                assert(r.deep_view() =~= prev.push(self@.transactions[i as int]));
                assert(r.deep_view() =~= self@.transactions.subrange(0, i as int + 1));
            }
            i = i + 1;
        }
        proof {
            assert(r.deep_view() =~= self@.transactions);
        }
        r
    }

    /// Appends one record to the history. The log is append-only:
    /// every earlier record is untouched.
    pub fn append_transaction(&mut self, record: Transaction)
        requires
            old(self).wf(),
        ensures
            final(self).wf(),
            final(self)@ == (VaultView {
                transactions: old(self)@.transactions.push(record@),
                ..old(self)@
            }),
    {
        let ghost rec = record@;
        let ghost prev = self.transactions.deep_view();
        self.transactions.push(record);
        proof {
            assert(self.transactions.deep_view() =~= prev.push(rec));
            assert(final(self)@ == (VaultView {
                transactions: prev.push(rec),
                ..old(self)@
            }));
        }
    }
}

} // verus!
