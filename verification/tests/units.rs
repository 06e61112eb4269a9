//! Unit checks of the building blocks: address derivation and the
//! checksummed format, hexadecimal and decimal text, token-path keys,
//! the adapter registry, execution planning edge cases and the
//! external-chain decisions.

use keygate_vault::adapters::{
    AdapterKind, AdapterRegistry, ICPNativeTransferAdapter, ICRC1TransferAdapter,
};
use keygate_vault::evm::{
    chain_id_of, eth_to_wei, evm_submission_result, is_supported_chain, next_nonce,
    unsupported_chain_result,
};
use keygate_vault::executor::{settle_dispatch, ExecutionPlan};
use keygate_vault::ledger::{to_subaccount, AccountIdParseError, AccountIdentifier};
use keygate_vault::ledger_data::{StoredTransactions, SweepStatus, Timestamp, Transaction};
use keygate_vault::token_path::{derive_adapter_key, join_parts, split_path};
use keygate_vault::types::{
    IntentStatus, Principal, ProposeTransactionArgs, SupportedNetwork, TransactionType,
    VaultInitArgs,
};
use keygate_vault::util::{bytes_to_hex, hex_to_bytes, u64_to_decimal};
use keygate_vault::vault::Vault;

fn principal_of(bytes: &[u8]) -> Principal {
    Principal::try_from_bytes(bytes.to_vec()).unwrap()
}

fn sample_candid_principal(tag: u8) -> candid::Principal {
    candid::Principal::self_authenticating([tag; 32])
}

fn sample_principal(tag: u8) -> Principal {
    principal_of(sample_candid_principal(tag).as_slice())
}

fn plain_vault(caller: &Principal) -> Vault {
    Vault::new(VaultInitArgs {
        name: "unit".to_string(),
        signers: vec![caller.clone()],
    })
}

#[test]
fn subaccount_of_nonce_zero_is_all_zero_bytes() {
    assert_eq!(to_subaccount(0).to_bytes(), vec![0u8; 32]);
}

#[test]
fn subaccounts_of_distinct_nonces_differ() {
    let a = to_subaccount(1).to_bytes();
    let b = to_subaccount(2).to_bytes();
    assert_ne!(a, b);

    let c = to_subaccount(0x01020304).to_bytes();
    assert_eq!(&c[..28], &[0u8; 28]);
    assert_eq!(&c[28..], &[1, 2, 3, 4]);
}

#[test]
fn account_identifier_round_trips_from_32_bytes() {
    let owner = sample_principal(7);
    let id = AccountIdentifier::new(&owner, &to_subaccount(0));
    let bytes = id.to_vec();
    assert_eq!(bytes.len(), 32);

    let parsed = AccountIdentifier::from_slice(&bytes).unwrap();
    assert_eq!(parsed.to_vec(), bytes);
    assert_eq!(parsed, id);
}

#[test]
fn account_identifier_round_trips_from_28_byte_hash() {
    let owner = sample_principal(9);
    let id = AccountIdentifier::new(&owner, &to_subaccount(3));
    let bytes = id.to_vec();

    let hash = bytes[4..].to_vec();
    let parsed = AccountIdentifier::from_slice(&hash).unwrap();
    assert_eq!(parsed.to_vec(), bytes);
}

#[test]
fn account_identifier_rejects_bad_checksum() {
    let owner = sample_principal(11);
    let mut bytes = AccountIdentifier::new(&owner, &to_subaccount(0)).to_vec();
    bytes[0] ^= 1;
    assert_eq!(
        AccountIdentifier::from_slice(&bytes),
        Err(AccountIdParseError::InvalidChecksum)
    );
}

#[test]
fn account_identifier_rejects_bad_length() {
    assert_eq!(
        AccountIdentifier::from_slice(&vec![0u8; 30]),
        Err(AccountIdParseError::InvalidLength)
    );
    assert_eq!(
        AccountIdentifier::from_hex("0f1"),
        Err(AccountIdParseError::InvalidLength)
    );
}

#[test]
fn account_hex_matches_ledger_library() {
    let owner = sample_candid_principal(13);
    let lib_owner = principal_of(owner.as_slice());

    let sub_bytes = to_subaccount(5).to_bytes();
    let mut raw = [0u8; 32];
    raw.copy_from_slice(&sub_bytes);
    let reference =
        ic_ledger_types::AccountIdentifier::new(&owner, &ic_ledger_types::Subaccount(raw));

    let ours = AccountIdentifier::new(&lib_owner, &to_subaccount(5));
    assert_eq!(ours.to_hex(), reference.to_hex());

    let reparsed = AccountIdentifier::from_hex(&ours.to_hex()).unwrap();
    assert_eq!(reparsed.to_vec(), ours.to_vec());
}

#[test]
fn hex_encoding_is_exact() {
    assert_eq!(bytes_to_hex(&vec![0x00, 0xff, 0x1a]), "00ff1a");
    assert_eq!(hex_to_bytes("00FF1a"), Some(vec![0, 255, 26]));
    assert_eq!(hex_to_bytes(""), Some(vec![]));
    assert_eq!(hex_to_bytes("0f1"), None);
    assert_eq!(hex_to_bytes("zz"), None);
}

#[test]
fn decimal_rendering_is_exact() {
    assert_eq!(u64_to_decimal(0), "0");
    assert_eq!(u64_to_decimal(42), "42");
    assert_eq!(u64_to_decimal(10_000), "10000");
    assert_eq!(u64_to_decimal(u64::MAX), "18446744073709551615");
}

#[test]
fn adapter_key_drops_contract_identifier_for_token_contracts() {
    assert_eq!(
        derive_adapter_key("icp:icrc1:ryjl3-tyaaa-aaaaa-aaaba-cai", TransactionType::Transfer),
        "icp:icrc1:transfer"
    );
    assert_eq!(
        derive_adapter_key("icp:icrc1:x", TransactionType::Swap),
        "icp:icrc1:swap"
    );
}

#[test]
fn adapter_key_keeps_other_paths_whole() {
    assert_eq!(
        derive_adapter_key("icp:native", TransactionType::Transfer),
        "icp:native:transfer"
    );
    assert_eq!(
        derive_adapter_key("eth:erc20:0xabc", TransactionType::Transfer),
        "eth:erc20:0xabc:transfer"
    );
    assert_eq!(derive_adapter_key("test", TransactionType::Transfer), "test:transfer");
}

#[test]
fn split_and_join_are_exact() {
    assert_eq!(split_path("a:b:c", ':'), vec!["a", "b", "c"]);
    assert_eq!(split_path("", ':'), vec![""]);
    assert_eq!(split_path(":x", ':'), vec!["", "x"]);
    let parts = split_path("a:b:c", ':');
    assert_eq!(join_parts(&parts, ':', 2), "a:b");
    assert_eq!(join_parts(&parts, ':', 3), "a:b:c");
    assert_eq!(join_parts(&parts, ':', 0), "");
}

#[test]
fn extract_token_identifier_takes_third_segment() {
    assert_eq!(
        ICRC1TransferAdapter::extract_token_identifier("icp:icrc1:abc".to_string()),
        Ok("abc".to_string())
    );
    assert_eq!(
        ICRC1TransferAdapter::extract_token_identifier("icp:native".to_string()),
        Err("Invalid token format".to_string())
    );
}

#[test]
fn adapters_carry_their_identity() {
    let icp = ICPNativeTransferAdapter::new();
    assert_eq!(icp.token(), "icp:native");
    assert_eq!(icp.network(), SupportedNetwork::ICP);
    assert_eq!(icp.intent_type(), TransactionType::Transfer);

    let icrc = ICRC1TransferAdapter::new();
    assert_eq!(icrc.token(), "icp:icrc1");
    assert_eq!(icrc.intent_type(), TransactionType::Transfer);
}

#[test]
fn registry_resolves_registered_keys_only() {
    let mut registry = AdapterRegistry::new();
    assert!(registry.resolve("icp:native:transfer").is_none());

    registry.register(
        "icp:native:transfer".to_string(),
        AdapterKind::IcpNative(ICPNativeTransferAdapter::new()),
    );
    registry.register(
        "icp:icrc1:transfer".to_string(),
        AdapterKind::Icrc1(ICRC1TransferAdapter::new()),
    );

    assert!(matches!(
        registry.resolve("icp:native:transfer"),
        Some(AdapterKind::IcpNative(_))
    ));
    assert!(matches!(
        registry.resolve("icp:icrc1:transfer"),
        Some(AdapterKind::Icrc1(_))
    ));
    assert!(registry.resolve("eth:native:transfer").is_none());
    assert_eq!(
        registry.keys(),
        vec!["icp:native:transfer".to_string(), "icp:icrc1:transfer".to_string()]
    );

    // Overwriting a key keeps the key order and replaces the adapter.
    registry.register(
        "icp:native:transfer".to_string(),
        AdapterKind::Icrc1(ICRC1TransferAdapter::new()),
    );
    assert_eq!(registry.len(), 2);
    assert!(matches!(
        registry.resolve("icp:native:transfer"),
        Some(AdapterKind::Icrc1(_))
    ));
}

#[test]
fn principal_text_round_trips() {
    let reference = sample_candid_principal(21);
    let ours = principal_of(reference.as_slice());
    assert_eq!(ours.to_text(), reference.to_text());

    let parsed = Principal::from_text(&reference.to_text()).unwrap();
    assert_eq!(parsed.to_bytes(), reference.as_slice().to_vec());

    assert!(Principal::from_text("not a principal").is_none());
}

#[test]
fn principal_rejects_overlong_bytes() {
    assert!(Principal::try_from_bytes(vec![1u8; 30]).is_none());
    assert!(Principal::try_from_bytes(vec![1u8; 29]).is_some());
}

#[test]
fn settle_dispatch_maps_errors_to_failed() {
    let caller = sample_principal(1);
    let mut vault = plain_vault(&caller);
    let proposed = vault.propose_transaction(
        caller,
        ProposeTransactionArgs {
            to: "irrelevant".to_string(),
            token: "icp:native".to_string(),
            network: SupportedNetwork::ICP,
            amount: 5,
            transaction_type: TransactionType::Transfer,
        },
    );
    match vault.begin_execution(proposed.id) {
        ExecutionPlan::RejectLogged(_, status) => {
            assert_eq!(
                status,
                IntentStatus::Failed("Invalid ICP destination account".to_string())
            );
        },
        ExecutionPlan::Dispatch(_, call) => {
            let status = settle_dispatch(&call, Err("boom".to_string()));
            assert_eq!(status, IntentStatus::Failed("boom".to_string()));
        },
        ExecutionPlan::Reject(_) => panic!("Unexpected plain rejection"),
    }
}

#[test]
fn execution_rejects_unknown_proposal() {
    let caller = sample_principal(2);
    let vault = plain_vault(&caller);
    match vault.begin_execution(5) {
        ExecutionPlan::Reject(IntentStatus::Failed(msg)) => {
            assert_eq!(msg, "Proposal not found: 5");
        },
        _ => panic!("Expected a rejection for an unknown id"),
    }
}

#[test]
fn execution_rejects_unregistered_adapter_key() {
    let caller = sample_principal(3);
    let mut vault = plain_vault(&caller);
    let proposed = vault.propose_transaction(
        caller,
        ProposeTransactionArgs {
            to: "test".to_string(),
            token: "test".to_string(),
            network: SupportedNetwork::ICP,
            amount: 1,
            transaction_type: TransactionType::Transfer,
        },
    );
    match vault.begin_execution(proposed.id) {
        ExecutionPlan::Reject(IntentStatus::Failed(msg)) => {
            assert_eq!(msg, "Adapter not found for test:transfer");
        },
        _ => panic!("Expected a rejection for an unregistered key"),
    }
    assert!(vault.get_transactions().is_empty());
}

#[test]
fn execution_logs_validation_failures() {
    let caller = sample_principal(4);
    let mut vault = plain_vault(&caller);
    let proposed = vault.propose_transaction(
        caller,
        ProposeTransactionArgs {
            to: "not hex at all".to_string(),
            token: "icp:native".to_string(),
            network: SupportedNetwork::ICP,
            amount: 1,
            transaction_type: TransactionType::Transfer,
        },
    );
    match vault.begin_execution(proposed.id) {
        ExecutionPlan::RejectLogged(request, status) => {
            assert_eq!(
                status,
                IntentStatus::Failed("Invalid ICP destination account".to_string())
            );
            vault.record_outcome(&request, status);
        },
        _ => panic!("Expected a logged validation failure"),
    }
    let log = vault.get_transactions();
    assert_eq!(log.len(), 1);
    assert_eq!(
        log[0].status,
        IntentStatus::Failed("Invalid ICP destination account".to_string())
    );
}

#[test]
fn execution_rejects_malformed_token_contract() {
    let caller = sample_principal(5);
    let mut vault = plain_vault(&caller);

    let bad_contract = vault.propose_transaction(
        caller.clone(),
        ProposeTransactionArgs {
            to: sample_candid_principal(6).to_text(),
            token: "icp:icrc1:???".to_string(),
            network: SupportedNetwork::ICP,
            amount: 1,
            transaction_type: TransactionType::Transfer,
        },
    );
    match vault.begin_execution(bad_contract.id) {
        ExecutionPlan::RejectLogged(_, status) => {
            assert_eq!(
                status,
                IntentStatus::Failed("Invalid token contract principal".to_string())
            );
        },
        _ => panic!("Expected a logged validation failure"),
    }

    let bad_recipient = vault.propose_transaction(
        caller,
        ProposeTransactionArgs {
            to: "not-an-identity".to_string(),
            token: format!("icp:icrc1:{}", sample_candid_principal(8).to_text()),
            network: SupportedNetwork::ICP,
            amount: 1,
            transaction_type: TransactionType::Transfer,
        },
    );
    match vault.begin_execution(bad_recipient.id) {
        ExecutionPlan::RejectLogged(_, status) => {
            assert_eq!(
                status,
                IntentStatus::Failed("Invalid destination principal".to_string())
            );
        },
        _ => panic!("Expected a logged validation failure"),
    }
}

#[test]
fn proposal_ids_increase_one_by_one() {
    let caller = sample_principal(10);
    let mut vault = plain_vault(&caller);
    for expected in 0..3u64 {
        let proposed = vault.propose_transaction(
            caller.clone(),
            ProposeTransactionArgs {
                to: "test".to_string(),
                token: "test".to_string(),
                network: SupportedNetwork::ICP,
                amount: 1,
                transaction_type: TransactionType::Transfer,
            },
        );
        assert_eq!(proposed.id, expected);
    }
}

#[test]
fn vault_init_drops_repeated_signers() {
    let a = sample_principal(31);
    let b = sample_principal(32);
    let vault = Vault::new(VaultInitArgs {
        name: "unit".to_string(),
        signers: vec![a.clone(), a.clone(), b.clone()],
    });
    assert_eq!(vault.get_signers(), vec![a, b]);
}

#[test]
fn approval_requires_known_signer_and_proposal() {
    let caller = sample_principal(40);
    let mut vault = plain_vault(&caller);
    let outsider = sample_principal(41);

    match vault.approve_transaction(outsider, 0) {
        Err(e) => assert_eq!(e.message, "Caller is not a signer"),
        Ok(_) => panic!("An outsider must not approve"),
    }
    match vault.approve_transaction(caller, 7) {
        Err(e) => assert_eq!(e.message, "Proposed transaction with id 7 not found"),
        Ok(_) => panic!("An unknown id must not be approved"),
    }
}

#[test]
fn status_message_is_accessible() {
    let status = IntentStatus::Failed("broken".to_string());
    assert_eq!(status.message(), "broken");
}

#[test]
fn eth_to_wei_scales_in_integer_arithmetic() {
    assert_eq!(eth_to_wei(0), 0);
    assert_eq!(eth_to_wei(1), 1_000_000_000_000);
    assert_eq!(eth_to_wei(1_000_000), 1_000_000_000_000_000_000);
    assert_eq!(
        eth_to_wei(u64::MAX),
        (u64::MAX as u128) * 1_000_000_000_000u128
    );
}

#[test]
fn chain_ids_follow_the_chain_name() {
    assert_eq!(chain_id_of("eth"), 11155111);
    assert_eq!(chain_id_of("base"), 84532);
    assert_eq!(chain_id_of("polygon"), 80002);
    assert_eq!(chain_id_of("dogecoin"), 0);
    assert!(is_supported_chain("eth"));
    assert!(!is_supported_chain("dogecoin"));
}

#[test]
fn nonce_policy_prefers_the_cached_value() {
    assert_eq!(next_nonce(Some(5), 99), 6);
    assert_eq!(next_nonce(None, 99), 99);
}

#[test]
fn evm_results_report_hash_and_status() {
    let ok = evm_submission_result(Some("0xabc".to_string()));
    assert_eq!(ok.hash, "0xabc");
    assert_eq!(ok.status, "Success");

    let lost = evm_submission_result(None);
    assert_eq!(lost.hash, "");
    assert_eq!(lost.status, "Failed: Could not get transaction.");

    let unsupported = unsupported_chain_result();
    assert_eq!(unsupported.hash, "");
    assert_eq!(unsupported.status, "Failed: Unsupported chain.");
}

#[test]
fn stored_transactions_start_not_swept() {
    let tx = Transaction {
        memo: 9,
        icrc1_memo: None,
        operation: None,
        created_at_time: Timestamp::from_nanos(1234),
    };
    let stored = StoredTransactions::new(3, tx, "hash".to_string());
    assert_eq!(stored.index, 3);
    assert_eq!(stored.memo, 9);
    assert_eq!(stored.created_at_time, Timestamp::from_nanos(1234));
    assert!(matches!(stored.sweep_status, SweepStatus::NotSwept));
    assert_eq!(stored.tx_hash, "hash");
}
