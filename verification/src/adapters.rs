//! The ledger-adapter layer: one adapter per (network, token-kind)
//! pair, a registry mapping derived keys to adapters, and the
//! construction of concrete outbound transfer calls from a
//! backend-agnostic transfer request.

use vstd::prelude::*;
use crate::ledger::{
    AccountIdentifier, Subaccount, spec_account_wf, spec_parse_account, spec_subaccount,
    to_subaccount,
};
use crate::token_path;
use crate::types::{Principal, SupportedNetwork, TokenPath, TransactionRequest, TransactionType};
use crate::util::spec_unhex;

verus! {

/// The fee, in base units, attached to a native-asset transfer.
pub const RECOMMENDED_ICP_TRANSACTION_FEE: u64 = 10000;

/// The fee, in base units, attached to a token-contract transfer.
pub const RECOMMENDED_ICRC1_TRANSACTION_FEE: u64 = 1000000;

/// The adapter for native-asset transfers on the home network.
pub struct ICPNativeTransferAdapter {
    pub network: SupportedNetwork,
    pub token: TokenPath,
    pub intent_type: TransactionType,
}

/// The adapter for token-contract transfers on the home network.
pub struct ICRC1TransferAdapter {
    pub network: SupportedNetwork,
    pub token: TokenPath,
    pub intent_type: TransactionType,
}

/// The mathematical form of an adapter's identity fields.
pub struct AdapterInfoView {
    pub network: SupportedNetwork,
    pub token: Seq<char>,
    pub intent_type: TransactionType,
}

impl View for ICPNativeTransferAdapter {
    type V = AdapterInfoView;

    open spec fn view(&self) -> AdapterInfoView {
        AdapterInfoView {
            network: self.network,
            token: self.token@,
            intent_type: self.intent_type,
        }
    }
}

impl View for ICRC1TransferAdapter {
    type V = AdapterInfoView;

    open spec fn view(&self) -> AdapterInfoView {
        AdapterInfoView {
            network: self.network,
            token: self.token@,
            intent_type: self.intent_type,
        }
    }
}

impl ICPNativeTransferAdapter {
    /// The identity of a freshly built native-asset adapter.
    pub open spec fn spec_new() -> AdapterInfoView {
        AdapterInfoView {
            network: SupportedNetwork::ICP,
            token: "icp:native"@,
            intent_type: TransactionType::Transfer,
        }
    }

    /// The native-asset adapter: home network, native token path,
    /// transfer operations.
    pub fn new() -> (r: ICPNativeTransferAdapter)
        ensures
            r@ == Self::spec_new(),
    {
        ICPNativeTransferAdapter {
            network: SupportedNetwork::ICP,
            token: String::from_str("icp:native"),
            intent_type: TransactionType::Transfer,
        }
    }

    /// The network this adapter serves.
    pub fn network(&self) -> (r: SupportedNetwork)
        ensures
            r == self.network,
    {
        self.network
    }

    /// The token path this adapter serves.
    pub fn token(&self) -> (r: TokenPath)
        ensures
            r@ == self.token@,
    {
        self.token.clone()
    }

    /// The operation kind this adapter serves.
    pub fn intent_type(&self) -> (r: TransactionType)
        ensures
            r == self.intent_type,
    {
        self.intent_type
    }

    /// Builds the concrete native-asset transfer call for a request:
    /// the destination parsed from hexadecimal text, the requested
    /// amount, the recommended fee, a zero memo and the default
    /// holding subaccount. Rejects a destination that is not a valid
    /// checksummed address.
    pub fn build_transfer(transaction: &TransactionRequest) -> (r: Result<IcpTransferArgs, String>)
        ensures
            match r {
                Ok(args) => {
                    &&& spec_icp_destination(transaction@.to) == Some(args.to@)
                    &&& args.memo == 0
                    &&& args.amount == transaction.amount
                    &&& args.fee == RECOMMENDED_ICP_TRANSACTION_FEE
                    &&& args.from_subaccount@ == spec_subaccount(0)
                    &&& spec_account_wf(args.to@)
                },
                Err(e) => spec_icp_destination(transaction@.to) is None && e@
                    == "Invalid ICP destination account"@,
            },
    {
        match AccountIdentifier::from_hex(transaction.to.as_str()) {
            Ok(to) => Ok(IcpTransferArgs {
                memo: 0,
                amount: transaction.amount,
                fee: RECOMMENDED_ICP_TRANSACTION_FEE,
                from_subaccount: to_subaccount(0),
                to,
            }),
            Err(_) => Err(String::from_str("Invalid ICP destination account")),
        }
    }
}

impl Clone for ICPNativeTransferAdapter {
    fn clone(&self) -> (r: Self)
        ensures
            r@ == self@,
    {
        ICPNativeTransferAdapter {
            network: self.network,
            token: self.token.clone(),
            intent_type: self.intent_type,
        }
    }
}

impl ICRC1TransferAdapter {
    /// The identity of a freshly built token-contract adapter.
    pub open spec fn spec_new() -> AdapterInfoView {
        AdapterInfoView {
            network: SupportedNetwork::ICP,
            token: "icp:icrc1"@,
            intent_type: TransactionType::Transfer,
        }
    }

    /// The token-contract adapter: home network, token-contract path
    /// prefix, transfer operations.
    pub fn new() -> (r: ICRC1TransferAdapter)
        ensures
            r@ == Self::spec_new(),
    {
        ICRC1TransferAdapter {
            network: SupportedNetwork::ICP,
            token: String::from_str("icp:icrc1"),
            intent_type: TransactionType::Transfer,
        }
    }

    /// The network this adapter serves.
    pub fn network(&self) -> (r: SupportedNetwork)
        ensures
            r == self.network,
    {
        self.network
    }

    /// The token path prefix this adapter serves.
    pub fn token(&self) -> (r: TokenPath)
        ensures
            r@ == self.token@,
    {
        self.token.clone()
    }

    /// The operation kind this adapter serves.
    pub fn intent_type(&self) -> (r: TransactionType)
        ensures
            r == self.intent_type,
    {
        self.intent_type
    }

    /// Extracts the contract identifier from a three-segment token
    /// path; any other shape is rejected as malformed.
    pub fn extract_token_identifier(token: TokenPath) -> (r: Result<String, String>)
        ensures
            match r {
                Ok(id) => token_path::spec_token_identifier(token@) == Some(id@),
                Err(e) => token_path::spec_token_identifier(token@) is None && e@
                    == "Invalid token format"@,
            },
    {
        token_path::extract_token_identifier(token.as_str())
    }

    /// Builds the concrete token-contract transfer call for a request:
    /// the contract taken from the token path's trailing segment, the
    /// recipient parsed from identity text, the requested amount, the
    /// recommended fee and the default holding subaccount. Rejects a
    /// malformed token path, contract identifier or recipient.
    pub fn build_transfer(transaction: &TransactionRequest) -> (r: Result<
        Icrc1TransferArgs,
        String,
    >)
        ensures
            match r {
                Ok(args) => {
                    &&& spec_icrc1_ledger(transaction@.token) == Some(args.ledger@)
                    &&& crate::types::principal_of_text(transaction@.to) == Some(args.to_owner@)
                    &&& args.amount == transaction.amount
                    &&& args.fee == RECOMMENDED_ICRC1_TRANSACTION_FEE
                    &&& args.from_subaccount@ == spec_subaccount(0)
                },
                Err(e) => {
                    ||| (token_path::spec_token_identifier(transaction@.token) is None && e@
                        == "Invalid token format"@)
                    ||| (token_path::spec_token_identifier(transaction@.token) matches Some(idt)
                        && crate::types::principal_of_text(idt) is None && e@
                        == "Invalid token contract principal"@)
                    ||| (spec_icrc1_ledger(transaction@.token) is Some
                        && crate::types::principal_of_text(transaction@.to) is None && e@
                        == "Invalid destination principal"@)
                },
            },
    {
        let token_identifier = match token_path::extract_token_identifier(
            transaction.token.as_str(),
        ) {
            Ok(id) => id,
            Err(e) => {
                return Err(e);
            },
        };
        let ledger = match Principal::from_text(token_identifier.as_str()) {
            Some(p) => p,
            None => {
                return Err(String::from_str("Invalid token contract principal"));
            },
        };
        let to_owner = match Principal::from_text(transaction.to.as_str()) {
            Some(p) => p,
            None => {
                return Err(String::from_str("Invalid destination principal"));
            },
        };
        Ok(Icrc1TransferArgs {
            ledger,
            to_owner,
            amount: transaction.amount,
            fee: RECOMMENDED_ICRC1_TRANSACTION_FEE,
            from_subaccount: get_default_icrc_subaccount(),
        })
    }
}

impl Clone for ICRC1TransferAdapter {
    fn clone(&self) -> (r: Self)
        ensures
            r@ == self@,
    {
        ICRC1TransferAdapter {
            network: self.network,
            token: self.token.clone(),
            intent_type: self.intent_type,
        }
    }
}

/// The holding subaccount used for token-contract transfers: the
/// default, all-zero selector.
pub fn get_default_icrc_subaccount() -> (r: Subaccount)
    ensures
        r@ == spec_subaccount(0),
{
    to_subaccount(0)
}

/// The destination account bytes denoted by hexadecimal address text,
/// if the text decodes and carries a valid checksum.
pub open spec fn spec_icp_destination(to: Seq<char>) -> Option<Seq<u8>> {
    match spec_unhex(to) {
        Some(b) => match spec_parse_account(b) {
            Ok(a) => Some(a),
            Err(_) => None,
        },
        None => None,
    }
}

/// The token-contract identity named by a token path, if its trailing
/// segment is well-formed identity text.
pub open spec fn spec_icrc1_ledger(token: Seq<char>) -> Option<Seq<u8>> {
    match token_path::spec_token_identifier(token) {
        Some(idt) => crate::types::principal_of_text(idt),
        None => None,
    }
}

/// A concrete native-asset transfer call, ready for the ledger
/// service.
pub struct IcpTransferArgs {
    pub memo: u64,
    pub amount: u64,
    pub fee: u64,
    pub from_subaccount: Subaccount,
    pub to: AccountIdentifier,
}

/// The mathematical form of a native-asset transfer call.
pub struct IcpTransferArgsView {
    pub memo: u64,
    pub amount: u64,
    pub fee: u64,
    pub from_subaccount: Seq<u8>,
    pub to: Seq<u8>,
}

impl View for IcpTransferArgs {
    type V = IcpTransferArgsView;

    open spec fn view(&self) -> IcpTransferArgsView {
        IcpTransferArgsView {
            memo: self.memo,
            amount: self.amount,
            fee: self.fee,
            from_subaccount: self.from_subaccount@,
            to: self.to@,
        }
    }
}

/// A concrete token-contract transfer call, ready for the contract
/// named by `ledger`.
pub struct Icrc1TransferArgs {
    pub ledger: Principal,
    pub to_owner: Principal,
    pub amount: u64,
    pub fee: u64,
    pub from_subaccount: Subaccount,
}

/// The mathematical form of a token-contract transfer call.
pub struct Icrc1TransferArgsView {
    pub ledger: Seq<u8>,
    pub to_owner: Seq<u8>,
    pub amount: u64,
    pub fee: u64,
    pub from_subaccount: Seq<u8>,
}

impl View for Icrc1TransferArgs {
    type V = Icrc1TransferArgsView;

    open spec fn view(&self) -> Icrc1TransferArgsView {
        Icrc1TransferArgsView {
            ledger: self.ledger@,
            to_owner: self.to_owner@,
            amount: self.amount,
            fee: self.fee,
            from_subaccount: self.from_subaccount@,
        }
    }
}

/// One registered adapter: the closed set of backends the vault can
/// route a transfer to.
pub enum AdapterKind {
    IcpNative(ICPNativeTransferAdapter),
    Icrc1(ICRC1TransferAdapter),
}

/// The mathematical form of a registered adapter.
pub enum AdapterKindView {
    IcpNative(AdapterInfoView),
    Icrc1(AdapterInfoView),
}

impl View for AdapterKind {
    type V = AdapterKindView;

    open spec fn view(&self) -> AdapterKindView {
        match self {
            AdapterKind::IcpNative(a) => AdapterKindView::IcpNative(a@),
            AdapterKind::Icrc1(a) => AdapterKindView::Icrc1(a@),
        }
    }
}

impl Clone for AdapterKind {
    fn clone(&self) -> (r: Self)
        ensures
            r@ == self@,
    {
        match self {
            AdapterKind::IcpNative(a) => AdapterKind::IcpNative(a.clone()),
            AdapterKind::Icrc1(a) => AdapterKind::Icrc1(a.clone()),
        }
    }
}

/// One concrete outbound call, the single dispatch of an execution
/// attempt.
pub enum AdapterCall {
    IcpTransfer(IcpTransferArgs),
    Icrc1Transfer(Icrc1TransferArgs),
}

/// The mathematical form of an outbound call.
pub enum CallView {
    IcpTransfer(IcpTransferArgsView),
    Icrc1Transfer(Icrc1TransferArgsView),
}

impl View for AdapterCall {
    type V = CallView;

    open spec fn view(&self) -> CallView {
        match self {
            AdapterCall::IcpTransfer(a) => CallView::IcpTransfer(a@),
            AdapterCall::Icrc1Transfer(a) => CallView::Icrc1Transfer(a@),
        }
    }
}

/// The registry of adapters, keyed by the text derived from a token
/// path and an operation kind.
pub struct AdapterRegistry {
    entries: Vec<(String, AdapterKind)>,
}

/// The mathematical form of the registry: the keys in registration
/// order, and the mapping from key to registered adapter.
pub struct RegistryView {
    pub keys: Seq<Seq<char>>,
    pub map: Map<Seq<char>, AdapterKindView>,
}

/// The mapping that a sequence of key/adapter entries denotes: later
/// entries overwrite earlier ones.
pub closed spec fn entries_map(s: Seq<(String, AdapterKind)>) -> Map<Seq<char>, AdapterKindView>
    decreases s.len(),
{
    if s.len() == 0 {
        Map::empty()
    } else {
        entries_map(s.drop_last()).insert(s.last().0@, s.last().1@)
    }
}

/// A key is in the denoted mapping exactly when some entry carries it,
/// and with unique keys each entry's key maps to that entry's adapter.
proof fn lemma_entries_map(s: Seq<(String, AdapterKind)>)
    ensures
        forall|k: Seq<char>|
            entries_map(s).contains_key(k) <==> (exists|i: int| 0 <= i < s.len() && s[i].0@ == k),
        forall|i: int|
            (0 <= i < s.len() && (forall|j: int| i < j < s.len() ==> s[j].0@ != s[i].0@))
                ==> #[trigger] entries_map(s)[s[i].0@] == s[i].1@,
    decreases s.len(),
{
    if s.len() > 0 {
        let dl = s.drop_last();
        lemma_entries_map(dl);
        assert forall|k: Seq<char>|
            entries_map(s).contains_key(k) <==> (exists|i: int| 0 <= i < s.len() && s[i].0@ == k)
        by {
            if entries_map(s).contains_key(k) {
                if k == s.last().0@ {
                    assert(s[s.len() - 1].0@ == k);
                } else {
                    assert(entries_map(dl).contains_key(k));
                    let i = choose|i: int| 0 <= i < dl.len() && dl[i].0@ == k;
                    assert(dl[i] == s[i]);
                    assert(s[i].0@ == k);
                }
            }
            if exists|i: int| 0 <= i < s.len() && s[i].0@ == k {
                let i = choose|i: int| 0 <= i < s.len() && s[i].0@ == k;
                if i < s.len() - 1 {
                    assert(dl[i] == s[i]);
                    assert(dl[i].0@ == k);
                    assert(entries_map(dl).contains_key(k));
                }
            }
        }
        assert forall|i: int|
            (0 <= i < s.len() && (forall|j: int| i < j < s.len() ==> s[j].0@ != s[i].0@))
                implies #[trigger] entries_map(s)[s[i].0@] == s[i].1@
        by {
            if i == s.len() - 1 {
            } else {
                assert(dl[i] == s[i]);
                assert forall|j: int| i < j < dl.len() implies dl[j].0@ != dl[i].0@ by {
                    assert(dl[j] == s[j]);
                }
                assert(entries_map(dl)[dl[i].0@] == dl[i].1@);
                assert(s[s.len() - 1].0@ != s[i].0@);
            }
        }
    }
}

/// Updating the entry that carries a key updates the denoted mapping
/// at that key, provided no later entry carries the same key.
proof fn lemma_entries_map_update(s: Seq<(String, AdapterKind)>, i: int, e: (String, AdapterKind))
    requires
        0 <= i < s.len(),
        e.0@ == s[i].0@,
        forall|j: int| i < j < s.len() ==> s[j].0@ != s[i].0@,
    ensures
        entries_map(s.update(i, e)) == entries_map(s).insert(e.0@, e.1@),
    decreases s.len(),
{
    let t = s.update(i, e);
    if i == s.len() - 1 {
        assert(t.drop_last() =~= s.drop_last());
        assert(entries_map(t) =~~= entries_map(s).insert(e.0@, e.1@));
    } else {
        assert(t.drop_last() =~= s.drop_last().update(i, e));
        lemma_entries_map_update(s.drop_last(), i, e);
        assert(t.last() == s.last());
        assert(entries_map(t) == entries_map(s.drop_last()).insert(e.0@, e.1@).insert(
            s.last().0@,
            s.last().1@,
        ));
        assert(s.last().0@ != e.0@);
        assert(entries_map(s.drop_last()).insert(e.0@, e.1@).insert(s.last().0@, s.last().1@)
            =~~= entries_map(s.drop_last()).insert(s.last().0@, s.last().1@).insert(e.0@, e.1@));
    }
}

impl View for AdapterRegistry {
    type V = RegistryView;

    closed spec fn view(&self) -> RegistryView {
        RegistryView {
            keys: Seq::new(self.entries@.len(), |i: int| self.entries@[i].0@),
            map: entries_map(self.entries@),
        }
    }
}

impl AdapterRegistry {
    /// The registry is well formed when no key is registered twice.
    pub closed spec fn wf(self) -> bool {
        forall|i: int, j: int|
            0 <= i < j < self.entries@.len() ==> self.entries@[i].0@ != self.entries@[j].0@
    }

    /// An empty registry: no keys, no adapters.
    pub fn new() -> (r: AdapterRegistry)
        ensures
            r@.keys == Seq::<Seq<char>>::empty(),
            r@.map == Map::<Seq<char>, AdapterKindView>::empty(),
            r.wf(),
    {
        AdapterRegistry { entries: Vec::new() }
    }

    /// The position of the entry carrying `key`, if any.
    fn position_of(&self, key: &str) -> (r: Option<usize>)
        ensures
            match r {
                Some(i) => i < self.entries@.len() && self.entries@[i as int].0@ == key@,
                None => forall|i: int| 0 <= i < self.entries@.len() ==> self.entries@[i].0@ != key@,
            },
    {
        let needle = key.to_owned();
        let mut i: usize = 0;
        while i < self.entries.len()
            invariant
                i <= self.entries@.len(),
                needle@ == key@,
                forall|j: int| 0 <= j < i ==> self.entries@[j].0@ != key@,
            decreases self.entries@.len() - i,
        {
            if self.entries[i].0 == needle {
                return Some(i);
            }
            i = i + 1;
        }
        None
    }

    /// Registers an adapter under a key, overwriting any adapter the
    /// key already carried; a fresh key is appended to the key order.
    pub fn register(&mut self, key: String, adapter: AdapterKind)
        requires
            old(self).wf(),
        ensures
            final(self).wf(),
            final(self)@.map == old(self)@.map.insert(key@, adapter@),
            old(self)@.map.contains_key(key@) ==> final(self)@.keys == old(self)@.keys,
            !old(self)@.map.contains_key(key@) ==> final(self)@.keys == old(self)@.keys.push(key@),
    {
        proof {
            lemma_entries_map(self.entries@);
        }
        let pos = self.position_of(key.as_str());
        match pos {
            Some(i) => {
                proof {
                    lemma_entries_map_update(self.entries@, i as int, (key, adapter));
                }
                self.entries[i] = (key, adapter);
                proof {
                    assert(final(self)@.keys =~= old(self)@.keys);
                }
            },
            None => {
                let ghost old_entries = self.entries@;
                self.entries.push((key, adapter));
                proof {
                    assert(self.entries@.drop_last() =~= old_entries);
                    assert(final(self)@.keys =~= old(self)@.keys.push(
                        self.entries@.last().0@,
                    ));
                }
            },
        }
    }

    /// Looks an adapter up by key: the registered adapter, or nothing
    /// when the key was never registered.
    pub fn resolve(&self, key: &str) -> (r: Option<AdapterKind>)
        requires
            self.wf(),
        ensures
            match r {
                Some(a) => self@.map.contains_key(key@) && a@ == self@.map[key@],
                None => !self@.map.contains_key(key@),
            },
    {
        proof {
            lemma_entries_map(self.entries@);
        }
        let pos = self.position_of(key);
        match pos {
            Some(i) => {
                let a = self.entries[i].1.clone();
                Some(a)
            },
            None => None,
        }
    }

    /// The registered keys, in registration order.
    pub fn keys(&self) -> (r: Vec<String>)
        ensures
            r.deep_view() == self@.keys,
    {
        let mut r: Vec<String> = Vec::new();
        let mut i: usize = 0;
        proof {
            assert(r.deep_view() =~= self@.keys.subrange(0, 0));
        }
        while i < self.entries.len()
            invariant
                i <= self.entries@.len(),
                r.deep_view() == self@.keys.subrange(0, i as int),
            decreases self.entries@.len() - i,
        {
            let ghost prev = r.deep_view();
            r.push(self.entries[i].0.clone());
            proof {
                assert(r.deep_view() =~= prev.push(self.entries@[i as int].0@));
                assert(r.deep_view() =~= self@.keys.subrange(0, i as int + 1));
            }
            i = i + 1;
        }
        proof {
            assert(r.deep_view() =~= self@.keys);
        }
        r
    }

    /// How many keys are registered.
    pub fn len(&self) -> (r: usize)
        ensures
            r == self@.keys.len(),
    {
        self.entries.len()
    }
}

} // verus!
