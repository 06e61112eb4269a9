//! The vault's end-to-end operations: initialization, signer
//! management, proposal lifecycle, threshold gating and execution.

use keygate_vault::adapters::{AdapterCall, RECOMMENDED_ICP_TRANSACTION_FEE};
use keygate_vault::executor::{settle_dispatch, ExecutionPlan};
use keygate_vault::ledger::to_subaccount;
use keygate_vault::types::{
    IntentStatus, Principal, ProposeTransactionArgs, SupportedNetwork, TransactionType,
    VaultInitArgs,
};
use keygate_vault::vault::Vault;
use ed25519_dalek::SigningKey;

fn generate_candid_principal() -> candid::Principal {
    let seed: [u8; 32] = rand::random();
    let signing_key = SigningKey::from_bytes(&seed);
    let verifying_key = signing_key.verifying_key();
    candid::Principal::self_authenticating(verifying_key.as_bytes())
}

fn generate_principal() -> Principal {
    let p = generate_candid_principal();
    Principal::try_from_bytes(p.as_slice().to_vec()).unwrap()
}

fn new_vault(caller: &Principal) -> Vault {
    Vault::new(VaultInitArgs {
        name: "Test Vault".to_string(),
        signers: vec![caller.clone()],
    })
}

fn transfer_args(to: String, token: String, amount: u64) -> ProposeTransactionArgs {
    ProposeTransactionArgs {
        to,
        token,
        network: SupportedNetwork::ICP,
        amount,
        transaction_type: TransactionType::Transfer,
    }
}

fn check_initialize_with_default_values() {
    let caller = generate_principal();
    let vault = new_vault(&caller);

    let signers = vault.get_signers();
    assert_eq!(signers, vec![caller]);

    let adapters = vault.get_supported_blockchain_adapters();
    assert!(adapters.contains(&"icp:native:transfer".to_string()));
}

#[test]
fn tests_should_initialize_with_default_values() {
    check_initialize_with_default_values();
}

#[test]
fn account_tests_should_initialize_with_default_values() {
    check_initialize_with_default_values();
}

fn check_add_signer() {
    let caller = generate_principal();
    let mut vault = new_vault(&caller);

    let signer = generate_principal();
    vault.add_signer(signer.clone()).unwrap();

    let signers = vault.get_signers();
    assert_eq!(signers, vec![caller, signer]);
}

#[test]
fn tests_should_add_signer() {
    check_add_signer();
}

#[test]
fn account_tests_should_add_signer() {
    check_add_signer();
}

fn check_propose_transaction() {
    let caller = generate_principal();
    let mut vault = new_vault(&caller);

    let proposed = vault.propose_transaction(
        caller.clone(),
        transfer_args("test".to_string(), "test".to_string(), 100_000_000),
    );

    assert_eq!(proposed.id, 0);
    assert_eq!(proposed.to, "test");
    assert_eq!(proposed.token, "test");
    assert_eq!(proposed.network, SupportedNetwork::ICP);
    assert_eq!(proposed.amount, 100_000_000);
    assert_eq!(proposed.transaction_type, TransactionType::Transfer);
    assert_eq!(proposed.signers, vec![caller]);
}

#[test]
fn tests_should_propose_transaction() {
    check_propose_transaction();
}

#[test]
fn account_tests_should_propose_transaction() {
    check_propose_transaction();
}

fn check_get_proposed_transaction() {
    let caller = generate_principal();
    let mut vault = new_vault(&caller);

    let proposed = vault.propose_transaction(
        caller.clone(),
        transfer_args("test".to_string(), "test".to_string(), 100_000_000),
    );

    match vault.get_proposed_transaction(proposed.id) {
        Some(tx) => assert_eq!(proposed, tx),
        None => panic!("Proposed transaction not found"),
    }
}

#[test]
fn tests_should_get_proposed_transaction() {
    check_get_proposed_transaction();
}

#[test]
fn account_tests_should_get_proposed_transaction() {
    check_get_proposed_transaction();
}

fn check_get_proposed_transactions() {
    let caller = generate_principal();
    let mut vault = new_vault(&caller);

    let proposed = vault.propose_transaction(
        caller.clone(),
        transfer_args("test".to_string(), "test".to_string(), 100_000_000),
    );

    let all = vault.get_proposed_transactions();
    assert_eq!(all.len(), 1, "Expected exactly one transaction");
    assert_eq!(
        all[0], proposed,
        "Retrieved transaction should match proposed transaction"
    );
}

#[test]
fn tests_should_get_proposed_transactions() {
    check_get_proposed_transactions();
}

#[test]
fn account_tests_should_get_proposed_transactions() {
    check_get_proposed_transactions();
}

fn check_approve_transaction() {
    let caller = generate_principal();
    let mut vault = new_vault(&caller);

    let proposed = vault.propose_transaction(
        caller.clone(),
        transfer_args("test".to_string(), "test".to_string(), 100_000_000),
    );

    let signer_2 = generate_principal();
    let signer_3 = generate_principal();
    vault.add_signer(signer_2.clone()).unwrap();
    vault.add_signer(signer_3.clone()).unwrap();

    vault.approve_transaction(signer_2.clone(), proposed.id).unwrap();
    match vault.get_proposed_transaction(proposed.id) {
        Some(tx) => assert_eq!(
            tx.signers,
            vec![caller.clone(), signer_2.clone()],
            "Incorrect signers after first approval"
        ),
        None => panic!("Proposed transaction not found after first approval"),
    }

    vault.approve_transaction(signer_3.clone(), proposed.id).unwrap();
    match vault.get_proposed_transaction(proposed.id) {
        Some(tx) => assert_eq!(
            tx.signers,
            vec![caller, signer_2, signer_3],
            "Incorrect signers after second approval"
        ),
        None => panic!("Proposed transaction not found after second approval"),
    }
}

#[test]
fn tests_should_approve_transaction() {
    check_approve_transaction();
}

#[test]
fn account_tests_should_approve_transaction() {
    check_approve_transaction();
}

fn check_reject_transaction() {
    let caller = generate_principal();
    let mut vault = new_vault(&caller);

    let proposed = vault.propose_transaction(
        caller.clone(),
        transfer_args("test".to_string(), "test".to_string(), 100_000_000),
    );

    let signer_2 = generate_principal();
    let signer_3 = generate_principal();
    vault.add_signer(signer_2.clone()).unwrap();
    vault.add_signer(signer_3.clone()).unwrap();

    vault.reject_transaction(signer_2.clone(), proposed.id).unwrap();
    match vault.get_proposed_transaction(proposed.id) {
        Some(tx) => assert_eq!(
            tx.rejections,
            vec![signer_2.clone()],
            "Incorrect rejections after first rejection"
        ),
        None => panic!("Proposed transaction not found after first rejection"),
    }

    vault.reject_transaction(signer_3.clone(), proposed.id).unwrap();
    match vault.get_proposed_transaction(proposed.id) {
        Some(tx) => {
            assert_eq!(
                tx.rejections,
                vec![signer_2, signer_3],
                "Incorrect rejections after second rejection"
            );
            assert_eq!(tx.signers, vec![caller], "Signers should be unaffected");
        },
        None => panic!("Proposed transaction not found after second rejection"),
    }
}

#[test]
fn tests_should_reject_transaction() {
    check_reject_transaction();
}

#[test]
fn account_tests_should_reject_transaction() {
    check_reject_transaction();
}

fn check_set_threshold() {
    let caller = generate_principal();
    let mut vault = new_vault(&caller);

    vault.set_threshold(100_000_000);
    assert_eq!(
        vault.get_threshold(),
        100_000_000,
        "Threshold value does not match expected value"
    );
}

#[test]
fn tests_should_set_threshold() {
    check_set_threshold();
}

#[test]
fn account_tests_should_set_threshold() {
    check_set_threshold();
}

fn check_not_allow_tx_if_threshold_not_met() {
    let caller = generate_principal();
    let mut vault = new_vault(&caller);

    let signer_2 = generate_principal();
    let signer_3 = generate_principal();
    vault.add_signer(signer_2.clone()).unwrap();
    vault.add_signer(signer_3.clone()).unwrap();

    vault.set_threshold(2);

    let receiver = generate_candid_principal();
    let icrc_ledger = generate_candid_principal();
    let proposed = vault.propose_transaction(
        caller.clone(),
        transfer_args(
            receiver.to_text(),
            format!("icp:icrc1:{}", icrc_ledger.to_text()),
            100_000_000_000,
        ),
    );

    // Execution before any approval must fail the quorum gate and
    // plan no outbound transfer.
    match vault.begin_execution(proposed.id) {
        ExecutionPlan::Reject(IntentStatus::Failed(msg)) => {
            assert!(
                msg.contains("Threshold not met"),
                "Expected failure due to threshold not met"
            );
        },
        _ => panic!("Expected failure due to threshold not met"),
    }

    vault.approve_transaction(signer_2, proposed.id).unwrap();

    // With the quorum met the plan is exactly one token-contract call.
    match vault.begin_execution(proposed.id) {
        ExecutionPlan::Dispatch(request, call) => {
            let status = settle_dispatch(&call, Ok(()));
            assert!(
                matches!(status, IntentStatus::Completed(_)),
                "Expected successful completion after meeting threshold"
            );
            vault.record_outcome(&request, status);
        },
        _ => panic!("Expected a dispatch once the threshold is met"),
    }

    let log = vault.get_transactions();
    assert_eq!(log.len(), 1);
    assert!(matches!(log[0].status, IntentStatus::Completed(_)));
}

#[test]
fn tests_should_not_allow_tx_if_threshold_not_met() {
    check_not_allow_tx_if_threshold_not_met();
}

#[test]
fn account_tests_should_not_allow_tx_if_threshold_not_met() {
    check_not_allow_tx_if_threshold_not_met();
}

fn check_not_add_signer_if_exists() {
    let caller = generate_principal();
    let mut vault = new_vault(&caller);

    let signer = generate_principal();
    vault.add_signer(signer.clone()).unwrap();

    let before = vault.get_signers();
    let result = vault.add_signer(signer);
    match result {
        Err(e) => assert_eq!(e.message, "Signer already exists"),
        Ok(()) => panic!("Adding an existing signer should fail"),
    }
    assert_eq!(vault.get_signers(), before, "Signer list should be unchanged");
}

#[test]
fn tests_should_not_add_signer_if_exists() {
    check_not_add_signer_if_exists();
}

#[test]
fn account_tests_should_not_add_signer_if_exists() {
    check_not_add_signer_if_exists();
}

fn check_get_default_account_for_icp() {
    let account = generate_candid_principal();
    let lib_account = Principal::try_from_bytes(account.as_slice().to_vec()).unwrap();

    let sub_bytes = to_subaccount(0).to_bytes();
    let mut raw = [0u8; 32];
    raw.copy_from_slice(&sub_bytes);
    let expected =
        ic_ledger_types::AccountIdentifier::new(&account, &ic_ledger_types::Subaccount(raw))
            .to_hex();

    let actual = keygate_vault::ledger::get_icp_account(&lib_account);
    assert_eq!(actual, expected);
}

#[test]
fn tests_should_get_default_account_for_icp() {
    check_get_default_account_for_icp();
}

#[test]
fn account_tests_should_get_default_account_for_icp() {
    check_get_default_account_for_icp();
}

fn check_get_default_account_for_icrc() {
    let account = generate_candid_principal();
    let lib_account = Principal::try_from_bytes(account.as_slice().to_vec()).unwrap();

    let expected = account.to_text();
    let actual = keygate_vault::ledger::get_icrc_account(&lib_account);
    assert_eq!(actual, expected);
}

#[test]
fn tests_should_get_default_account_for_icrc() {
    check_get_default_account_for_icrc();
}

#[test]
fn account_tests_should_get_default_account_for_icrc() {
    check_get_default_account_for_icrc();
}

fn check_transfer_icrc1() {
    let caller = generate_principal();
    let mut vault = new_vault(&caller);

    let receiver = generate_candid_principal();
    let icrc_ledger = generate_candid_principal();
    let transfer_amount = 100_000_000_000;

    let proposed = vault.propose_transaction(
        caller,
        transfer_args(
            receiver.to_text(),
            format!("icp:icrc1:{}", icrc_ledger.to_text()),
            transfer_amount,
        ),
    );

    let status = match vault.begin_execution(proposed.id) {
        ExecutionPlan::Dispatch(request, call) => {
            match &call {
                AdapterCall::Icrc1Transfer(args) => {
                    assert_eq!(args.ledger.as_slice(), icrc_ledger.as_slice());
                    assert_eq!(args.to_owner.as_slice(), receiver.as_slice());
                    assert_eq!(args.amount, transfer_amount);
                },
                _ => panic!("Expected a token-contract transfer call"),
            }
            let status = settle_dispatch(&call, Ok(()));
            vault.record_outcome(&request, status.clone());
            status
        },
        _ => panic!("Expected a dispatch"),
    };

    assert_eq!(
        status,
        IntentStatus::Completed("Successfully transferred an ICRC-1 token.".to_string())
    );
}

#[test]
fn tests_should_transfer_icrc1() {
    check_transfer_icrc1();
}

#[test]
fn account_tests_should_transfer_icrc1() {
    check_transfer_icrc1();
}

fn check_transfer_icp() {
    let caller = generate_principal();
    let mut vault = new_vault(&caller);

    let receiver = generate_candid_principal();
    let transfer_amount = 100_000_000;
    let receiver_account =
        ic_ledger_types::AccountIdentifier::new(&receiver, &ic_ledger_types::DEFAULT_SUBACCOUNT);

    let proposed = vault.propose_transaction(
        caller,
        transfer_args(
            receiver_account.to_hex(),
            "icp:native".to_string(),
            transfer_amount,
        ),
    );

    let status = match vault.begin_execution(proposed.id) {
        ExecutionPlan::Dispatch(request, call) => {
            match &call {
                AdapterCall::IcpTransfer(args) => {
                    assert_eq!(args.to.to_vec(), receiver_account.as_bytes().to_vec());
                    assert_eq!(args.amount, transfer_amount);
                    assert_eq!(args.fee, RECOMMENDED_ICP_TRANSACTION_FEE);
                },
                _ => panic!("Expected a native-asset transfer call"),
            }
            let status = settle_dispatch(&call, Ok(()));
            vault.record_outcome(&request, status.clone());
            status
        },
        _ => panic!("Expected a dispatch"),
    };

    assert_eq!(
        status,
        IntentStatus::Completed("Successfully transferred native ICP.".to_string())
    );

    let log = vault.get_transactions();
    assert_eq!(log.len(), 1);
    assert_eq!(log[0].amount, transfer_amount);
    assert_eq!(log[0].to, receiver_account.to_hex());
    assert_eq!(log[0].token, "icp:native");
    assert_eq!(log[0].transaction_type, TransactionType::Transfer);
}

#[test]
fn tests_should_transfer_icp() {
    check_transfer_icp();
}

#[test]
fn account_tests_should_transfer_icp() {
    check_transfer_icp();
}
