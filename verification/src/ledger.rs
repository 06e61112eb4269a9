//! Deterministic derivation of per-purpose holding addresses: a 32-byte
//! subaccount selector carrying a big-endian nonce, and the checksummed
//! external address format — a 4-byte big-endian CRC-32 over a 28-byte
//! hash of the owning identity and the selector.

use vstd::prelude::*;
use vstd::std_specs::cmp::PartialEqSpec;
use crate::types::Principal;
use crate::util::{copy_bytes, spec_hex, spec_unhex, bytes_to_hex, hex_to_bytes};

verus! {

/// A 32-byte selector distinguishing holding addresses under one owner.
#[derive(Debug)]
pub struct Subaccount {
    bytes: Vec<u8>,
}

/// The width of a subaccount selector in bytes.
pub const SUBACCOUNT_LEN: usize = 32;

impl View for Subaccount {
    type V = Seq<u8>;

    closed spec fn view(&self) -> Seq<u8> {
        self.bytes@
    }
}

impl Subaccount {
    #[verifier::type_invariant]
    spec fn fixed_width(self) -> bool {
        self.bytes@.len() == SUBACCOUNT_LEN
    }

    /// Builds a selector from raw bytes; rejects any width but 32.
    pub fn try_from_bytes(bytes: Vec<u8>) -> (r: Option<Subaccount>)
        ensures
            bytes@.len() == SUBACCOUNT_LEN ==> (r matches Some(s) && s@ == bytes@),
            bytes@.len() != SUBACCOUNT_LEN ==> r is None,
    {
        if bytes.len() == SUBACCOUNT_LEN {
            Some(Subaccount { bytes })
        } else {
            None
        }
    }

    /// The raw bytes of the selector.
    pub fn to_bytes(&self) -> (r: Vec<u8>)
        ensures
            r@ == self@,
    {
        copy_bytes(&self.bytes)
    }

    /// A borrowed view of the selector's bytes.
    pub fn as_slice(&self) -> (r: &[u8])
        ensures
            r@ == self@,
    {
        self.bytes.as_slice()
    }
}

/// One big-endian byte of a 32-bit nonce: position 0 is the most
/// significant byte, position 3 the least.
pub open spec fn nonce_be_byte(nonce: u32, j: int) -> u8 {
    if j == 0 {
        (nonce >> 24) as u8
    } else if j == 1 {
        ((nonce >> 16) & 0xff) as u8
    } else if j == 2 {
        ((nonce >> 8) & 0xff) as u8
    } else {
        (nonce & 0xff) as u8
    }
}

/// The selector derived from a nonce: 28 zero bytes followed by the
/// nonce in big-endian order.
pub open spec fn spec_subaccount(nonce: u32) -> Seq<u8> {
    Seq::new(32, |i: int| if i < 28 { 0u8 } else { nonce_be_byte(nonce, i - 28) })
}

/// Derives the selector for a nonce: all leading bytes zero, the nonce
/// big-endian in the last four.
pub fn to_subaccount(nonce: u32) -> (r: Subaccount)
    ensures
        r@ == spec_subaccount(nonce),
{
    let mut bytes: Vec<u8> = Vec::new();
    let mut i: usize = 0;
    while i < 28
        invariant
            i <= 28,
            bytes@.len() == i,
            forall|k: int| 0 <= k < i ==> bytes@[k] == 0u8,
        decreases 28 - i,
    {
        bytes.push(0u8);
        i = i + 1;
    }
    let b0 = (nonce >> 24) as u8;
    let b1 = ((nonce >> 16) & 0xff) as u8;
    let b2 = ((nonce >> 8) & 0xff) as u8;
    let b3 = (nonce & 0xff) as u8;
    bytes.push(b0);
    bytes.push(b1);
    bytes.push(b2);
    bytes.push(b3);
    proof {
        assert(bytes@ =~= spec_subaccount(nonce));
    }
    Subaccount { bytes }
}

/// The zero nonce derives the all-zero selector.
pub proof fn lemma_subaccount_zero()
    ensures
        spec_subaccount(0) == Seq::new(32, |i: int| 0u8),
{
    assert((0u32 >> 24) as u8 == 0u8) by (bit_vector);
    assert(((0u32 >> 16) & 0xff) as u8 == 0u8) by (bit_vector);
    assert(((0u32 >> 8) & 0xff) as u8 == 0u8) by (bit_vector);
    assert((0u32 & 0xff) as u8 == 0u8) by (bit_vector);
    assert(spec_subaccount(0) =~= Seq::new(32, |i: int| 0u8));
}

/// Distinct nonces derive distinct selectors.
pub proof fn lemma_subaccount_injective(n: u32, m: u32)
    requires
        n != m,
    ensures
        spec_subaccount(n) != spec_subaccount(m),
{
    assert(!(
        (n >> 24) as u8 == (m >> 24) as u8
        && ((n >> 16) & 0xff) as u8 == ((m >> 16) & 0xff) as u8
        && ((n >> 8) & 0xff) as u8 == ((m >> 8) & 0xff) as u8
        && (n & 0xff) as u8 == (m & 0xff) as u8
    )) by (bit_vector)
        requires
            n != m,
    ;
    if spec_subaccount(n) == spec_subaccount(m) {
        assert(spec_subaccount(n)[28] == spec_subaccount(m)[28]);
        assert(spec_subaccount(n)[29] == spec_subaccount(m)[29]);
        assert(spec_subaccount(n)[30] == spec_subaccount(m)[30]);
        assert(spec_subaccount(n)[31] == spec_subaccount(m)[31]);
    }
}

/// The 28-byte hash at the core of the external address format,
/// computed by the ledger library from the owner identity and the
/// subaccount selector alone.
pub uninterp spec fn account_hash(owner: Seq<u8>, sub: Seq<u8>) -> Seq<u8>;

/// The CRC-32 checksum of a byte string, as the ledger library
/// computes it.
pub uninterp spec fn crc32_of(data: Seq<u8>) -> u32;

/// The four big-endian bytes of a 32-bit checksum.
pub open spec fn crc_be_bytes(c: u32) -> Seq<u8> {
    seq![
        (c >> 24) as u8,
        ((c >> 16) & 0xff) as u8,
        ((c >> 8) & 0xff) as u8,
        (c & 0xff) as u8,
    ]
}

/// The full 32-byte external address for an owner and selector:
/// checksum first, hash after.
pub open spec fn spec_account_id(owner: Seq<u8>, sub: Seq<u8>) -> Seq<u8> {
    crc_be_bytes(crc32_of(account_hash(owner, sub))) + account_hash(owner, sub)
}

/// A 32-byte address is well formed when its leading four bytes are the
/// big-endian CRC-32 of its trailing 28.
pub open spec fn spec_account_wf(bytes: Seq<u8>) -> bool {
    &&& bytes.len() == 32
    &&& bytes.subrange(0, 4) == crc_be_bytes(crc32_of(bytes.subrange(4, 32)))
}

/// Relies on ic_ledger_types::AccountIdentifier::new: the 32-byte
/// external address is the big-endian CRC-32 of a 28-byte hash,
/// followed by that hash; the hash depends on the owner identity and
/// subaccount selector alone. The owner's bytes always form a valid
/// identity, so the conversion in the body cannot fail.
#[verifier::external_body]
fn derive_account_bytes(owner: &Principal, sub: &Subaccount) -> (r: Vec<u8>)
    requires
        sub@.len() == SUBACCOUNT_LEN,
    ensures
        r@.len() == 32,
        r@.subrange(4, 32) == account_hash(owner@, sub@),
        r@.subrange(0, 4) == crc_be_bytes(crc32_of(account_hash(owner@, sub@))),
{
    let p = candid::Principal::from_slice(owner.as_slice());
    let mut raw = [0u8; 32];
    raw.copy_from_slice(sub.as_slice());
    let aid = ic_ledger_types::AccountIdentifier::new(&p, &ic_ledger_types::Subaccount(raw));
    aid.as_bytes().to_vec()
}

/// Relies on ic_ledger_types::AccountIdentifier::generate_checksum (the
/// four big-endian CRC-32 bytes over the trailing 28 bytes), reached by
/// rebuilding the identifier from the bare hash with from_slice, which
/// always accepts a 28-byte input.
#[verifier::external_body]
fn checksum_bytes(hash: &Vec<u8>) -> (r: Vec<u8>)
    requires
        hash@.len() == 28,
    ensures
        r@ == crc_be_bytes(crc32_of(hash@)),
{
    match ic_ledger_types::AccountIdentifier::from_slice(hash.as_slice()) {
        Ok(aid) => aid.generate_checksum().to_vec(),
        Err(_) => Vec::new(),
    }
}

/// Why parsing an external address failed.
#[derive(Clone, Copy, PartialEq, Eq, Structural, Debug)]
pub enum AccountIdParseError {
    /// A 32-byte input whose leading checksum does not match its hash.
    InvalidChecksum,
    /// An input that is neither 32 nor 28 bytes long.
    InvalidLength,
}

/// A validated external address: 32 bytes, checksum first.
#[derive(Debug)]
pub struct AccountIdentifier {
    bytes: Vec<u8>,
}

impl View for AccountIdentifier {
    type V = Seq<u8>;

    closed spec fn view(&self) -> Seq<u8> {
        self.bytes@
    }
}

/// What parsing a byte string as an external address yields: a 32-byte
/// input is accepted exactly when its checksum matches; a 28-byte input
/// is taken as a bare hash and given its checksum; any other length is
/// rejected.
pub open spec fn spec_parse_account(v: Seq<u8>) -> Result<Seq<u8>, AccountIdParseError> {
    if v.len() == 32 {
        if v.subrange(0, 4) == crc_be_bytes(crc32_of(v.subrange(4, 32))) {
            Ok(v)
        } else {
            Err(AccountIdParseError::InvalidChecksum)
        }
    } else if v.len() == 28 {
        Ok(crc_be_bytes(crc32_of(v)) + v)
    } else {
        Err(AccountIdParseError::InvalidLength)
    }
}

impl AccountIdentifier {
    #[verifier::type_invariant]
    spec fn checksummed(self) -> bool {
        spec_account_wf(self.bytes@)
    }

    /// Derives the address for an owner identity and a subaccount
    /// selector.
    pub fn new(owner: &Principal, subaccount: &Subaccount) -> (r: AccountIdentifier)
        ensures
            r@ == spec_account_id(owner@, subaccount@),
            spec_account_wf(r@),
            account_hash(owner@, subaccount@).len() == 28,
    {
        proof {
            use_type_invariant(subaccount);
        }
        let bytes = derive_account_bytes(owner, subaccount);
        proof {
            assert(bytes@ =~= bytes@.subrange(0, 4) + bytes@.subrange(4, 32));
            assert(bytes@.subrange(4, 32) =~= bytes@.subrange(4, 32));
        }
        AccountIdentifier { bytes }
    }

    /// The 32 raw bytes of the address.
    pub fn to_vec(&self) -> (r: Vec<u8>)
        ensures
            r@ == self@,
    {
        copy_bytes(&self.bytes)
    }

    /// Parses an external address from raw bytes: the checksummed
    /// 32-byte form (validated) or the bare 28-byte hash form.
    pub fn from_slice(v: &Vec<u8>) -> (r: Result<AccountIdentifier, AccountIdParseError>)
        ensures
            match r {
                Ok(a) => spec_parse_account(v@) == Ok::<Seq<u8>, AccountIdParseError>(a@)
                    && spec_account_wf(a@),
                Err(e) => spec_parse_account(v@) == Err::<Seq<u8>, AccountIdParseError>(e),
            },
    {
        if v.len() == 32 {
            let mut hash: Vec<u8> = Vec::new();
            let mut i: usize = 4;
            while i < 32
                invariant
                    4 <= i <= 32,
                    v@.len() == 32,
                    hash@ == v@.subrange(4, i as int),
                decreases 32 - i,
            {
                hash.push(v[i]);
                i = i + 1;
                proof {
                    assert(hash@ =~= v@.subrange(4, i as int));
                }
            }
            let expected = checksum_bytes(&hash);
            let mut ok = true;
            let mut j: usize = 0;
            while j < 4
                invariant
                    j <= 4,
                    v@.len() == 32,
                    expected@.len() == 4,
                    ok == (v@.subrange(0, j as int) =~= expected@.subrange(0, j as int)),
                decreases 4 - j,
            {
                if v[j] != expected[j] {
                    ok = false;
                }
                proof {
                    if v@[j as int] == expected@[j as int] {
                        assert(v@.subrange(0, j + 1) =~= v@.subrange(0, j as int).push(v@[j as int]));
                        assert(expected@.subrange(0, j + 1) =~= expected@.subrange(0, j as int).push(
                            expected@[j as int],
                        ));
                    } else {
                        assert(v@.subrange(0, j + 1)[j as int] == v@[j as int]);
                        assert(expected@.subrange(0, j + 1)[j as int] == expected@[j as int]);
                    }
                }
                j = j + 1;
            }
            if ok {
                proof {
                    assert(v@.subrange(0, 4) =~= expected@.subrange(0, 4));
                    assert(expected@.subrange(0, 4) =~= expected@);
                }
                Ok(AccountIdentifier { bytes: copy_bytes(v) })
            } else {
                proof {
                    if v@.subrange(0, 4) == crc_be_bytes(crc32_of(v@.subrange(4, 32))) {
                        assert(v@.subrange(0, 4) =~= expected@.subrange(0, 4));
                    }
                }
                Err(AccountIdParseError::InvalidChecksum)
            }
        } else if v.len() == 28 {
            let prefix = checksum_bytes(v);
            let mut bytes = prefix;
            let mut i: usize = 0;
            let ghost cs = crc_be_bytes(crc32_of(v@));
            while i < 28
                invariant
                    i <= 28,
                    v@.len() == 28,
                    bytes@ == cs + v@.subrange(0, i as int),
                decreases 28 - i,
            {
                bytes.push(v[i]);
                i = i + 1;
                proof {
                    assert(bytes@ =~= cs + v@.subrange(0, i as int));
                }
            }
            proof {
                assert(v@.subrange(0, 28) =~= v@);
                assert(bytes@.subrange(4, 32) =~= v@);
                assert(bytes@.subrange(0, 4) =~= cs);
            }
            Ok(AccountIdentifier { bytes })
        } else {
            Err(AccountIdParseError::InvalidLength)
        }
    }

    /// The address rendered as lower-case hexadecimal text.
    pub fn to_hex(&self) -> (r: String)
        ensures
            r@ == spec_hex(self@),
    {
        bytes_to_hex(&self.bytes)
    }

    /// Parses an address from hexadecimal text: 64 digits for the
    /// checksummed form, 56 for the bare hash form.
    pub fn from_hex(s: &str) -> (r: Result<AccountIdentifier, AccountIdParseError>)
        ensures
            match r {
                Ok(a) => spec_unhex(s@) matches Some(v) && spec_parse_account(v) == Ok::<
                    Seq<u8>,
                    AccountIdParseError,
                >(a@) && spec_account_wf(a@),
                Err(e) => match spec_unhex(s@) {
                    Some(v) => spec_parse_account(v) == Err::<Seq<u8>, AccountIdParseError>(e),
                    None => e == AccountIdParseError::InvalidLength,
                },
            },
    {
        match hex_to_bytes(s) {
            Some(v) => AccountIdentifier::from_slice(&v),
            None => Err(AccountIdParseError::InvalidLength),
        }
    }
}

impl Clone for AccountIdentifier {
    fn clone(&self) -> (r: Self)
        ensures
            r@ == self@,
    {
        proof {
            use_type_invariant(self);
        }
        AccountIdentifier { bytes: copy_bytes(&self.bytes) }
    }
}

impl PartialEq for AccountIdentifier {
    fn eq(&self, other: &Self) -> (r: bool)
        ensures
            r == (self@ == other@),
    {
        let r = self.bytes == other.bytes;
        proof {
            if r {
                assert(self.bytes@ =~= other.bytes@);
            } else {
                if self.bytes@ == other.bytes@ {
                    assert(self.bytes.eq_spec(&other.bytes));
                }
            }
        }
        r
    }
}

impl vstd::std_specs::cmp::PartialEqSpecImpl for AccountIdentifier {
    open spec fn obeys_eq_spec() -> bool {
        true
    }

    open spec fn eq_spec(&self, other: &AccountIdentifier) -> bool {
        self@ == other@
    }
}

/// Derives the external address for an owner identity and a selector.
pub fn to_subaccount_id_from_principal(principal_id: &Principal, subaccount: &Subaccount) -> (r:
    AccountIdentifier)
    ensures
        r@ == spec_account_id(principal_id@, subaccount@),
{
    AccountIdentifier::new(principal_id, subaccount)
}

/// The default holding address of an owner, rendered as hexadecimal
/// text: the address of the zero-nonce subaccount.
pub fn get_icp_account(owner: &Principal) -> (r: String)
    ensures
        r@ == spec_hex(spec_account_id(owner@, spec_subaccount(0))),
{
    let sub = to_subaccount(0);
    let id = AccountIdentifier::new(owner, &sub);
    id.to_hex()
}

/// The owner's account in the token-ledger text form: with the default
/// (all-zero) subaccount this is the owner identity's canonical text.
pub fn get_icrc_account(owner: &Principal) -> (r: String)
    ensures
        r@ == crate::types::principal_text(owner@),
{
    owner.to_text()
}

/// A well-formed 32-byte address parses back to exactly itself: the
/// round trip from encoding to parsing is the identity.
pub proof fn lemma_account_round_trip_32(bytes: Seq<u8>)
    requires
        spec_account_wf(bytes),
    ensures
        spec_parse_account(bytes) == Ok::<Seq<u8>, AccountIdParseError>(bytes),
{
}

/// A bare 28-byte hash parses to the well-formed address that carries
/// it, so parsing after encoding recovers the hash.
pub proof fn lemma_account_round_trip_28(hash: Seq<u8>)
    requires
        hash.len() == 28,
    ensures
        spec_parse_account(hash) matches Ok(full) && full.subrange(4, 32) == hash
            && spec_account_wf(full),
{
    let full = crc_be_bytes(crc32_of(hash)) + hash;
    assert(full.subrange(4, 32) =~= hash);
    assert(full.subrange(0, 4) =~= crc_be_bytes(crc32_of(hash)));
}

/// A 32-byte input whose leading four bytes are not the CRC-32 of its
/// trailing 28 is rejected with a checksum error.
pub proof fn lemma_account_rejects_bad_checksum(bytes: Seq<u8>)
    requires
        bytes.len() == 32,
        bytes.subrange(0, 4) != crc_be_bytes(crc32_of(bytes.subrange(4, 32))),
    ensures
        spec_parse_account(bytes) == Err::<Seq<u8>, AccountIdParseError>(
            AccountIdParseError::InvalidChecksum,
        ),
{
}

/// A well-formed address rendered as hexadecimal text decodes and
/// parses back to exactly itself: the round trip through the external
/// text form is the identity.
pub proof fn lemma_account_hex_round_trip(bytes: Seq<u8>)
    requires
        spec_account_wf(bytes),
    ensures
        spec_unhex(spec_hex(bytes)) == Some(bytes),
        spec_parse_account(bytes) == Ok::<Seq<u8>, AccountIdParseError>(bytes),
{
    crate::util::lemma_hex_round_trip(bytes);
}

/// The derived address of any owner and selector is well formed, and
/// therefore survives the parse round trip.
pub proof fn lemma_derived_address_wf(owner: Seq<u8>, sub: Seq<u8>)
    requires
        account_hash(owner, sub).len() == 28,
    ensures
        spec_account_wf(spec_account_id(owner, sub)),
        spec_parse_account(spec_account_id(owner, sub)) == Ok::<Seq<u8>, AccountIdParseError>(
            spec_account_id(owner, sub),
        ),
{
    let id = spec_account_id(owner, sub);
    assert(id.subrange(4, 32) =~= account_hash(owner, sub));
    assert(id.subrange(0, 4) =~= crc_be_bytes(crc32_of(account_hash(owner, sub))));
}

} // verus!
