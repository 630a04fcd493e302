use propchain::BridgeOperationStatus;
use propchain::BridgingStatus;
use propchain::Error;
use propchain::PropertyMetadata;
use propchain::PropertyToken;
use propchain::RecoveryAction;
use propchain::TxHash;
use propchain::derive_bridge_hash;

const ADMIN: u64 = 1;
const OP2: u64 = 2;
const OP3: u64 = 3;
const OP4: u64 = 4;
const ALICE: u64 = 10;
const BOB: u64 = 20;

fn sample_metadata() -> PropertyMetadata {
    PropertyMetadata {
        location: String::from("123 Main St"),
        size: 1000,
        legal_description: String::from("Sample property"),
        valuation: 500000,
        documents_url: String::from("ipfs://sample-docs"),
    }
}

/// A ledger with one verified token held by Alice and three operators.
fn setup_with_token() -> (PropertyToken, u64) {
    let mut ledger = PropertyToken::new(ADMIN);
    ledger.add_bridge_operator(ADMIN, OP2).unwrap();
    ledger.add_bridge_operator(ADMIN, OP3).unwrap();
    ledger.add_bridge_operator(ADMIN, OP4).unwrap();
    let token_id = ledger.register_property_with_token(ALICE, 50, sample_metadata()).unwrap();
    ledger.verify_compliance(ADMIN, 60, token_id, true).unwrap();
    (ledger, token_id)
}

#[test]
fn test_initiate_bridge_invalid_chain() {
    let (mut ledger, token_id) = setup_with_token();
    let result = ledger.initiate_bridge_multisig(ALICE, 100, token_id, 999, BOB, 2, None);
    assert_eq!(result, Err(Error::InvalidChain));
}

#[test]
fn test_initiate_bridge_nonexistent_token() {
    let (mut ledger, _token_id) = setup_with_token();
    let result = ledger.initiate_bridge_multisig(ALICE, 100, 999, 2, BOB, 2, None);
    assert_eq!(result, Err(Error::TokenNotFound));
}

#[test]
fn test_initiate_bridge_unauthorized() {
    let (mut ledger, token_id) = setup_with_token();
    let result = ledger.initiate_bridge_multisig(BOB, 100, token_id, 2, BOB, 2, None);
    assert_eq!(result, Err(Error::Unauthorized));
}

#[test]
fn test_initiate_bridge_paused() {
    let (mut ledger, token_id) = setup_with_token();
    ledger.set_emergency_pause(ADMIN, true).unwrap();
    let result = ledger.initiate_bridge_multisig(ALICE, 100, token_id, 2, BOB, 2, None);
    assert_eq!(result, Err(Error::BridgePaused));
}

#[test]
fn test_initiate_bridge_compliance_failed() {
    let mut ledger = PropertyToken::new(ADMIN);
    let token_id = ledger.register_property_with_token(ALICE, 50, sample_metadata()).unwrap();
    let result = ledger.initiate_bridge_multisig(ALICE, 100, token_id, 2, BOB, 2, None);
    assert_eq!(result, Err(Error::ComplianceFailed));
}

#[test]
fn test_initiate_bridge_signature_bounds() {
    let (mut ledger, token_id) = setup_with_token();
    assert_eq!(
        ledger.initiate_bridge_multisig(ALICE, 100, token_id, 2, BOB, 1, None),
        Err(Error::InsufficientSignatures)
    );
    assert_eq!(
        ledger.initiate_bridge_multisig(ALICE, 100, token_id, 2, BOB, 6, None),
        Err(Error::InsufficientSignatures)
    );
}

#[test]
fn test_duplicate_bridge_request_rejected() {
    let (mut ledger, token_id) = setup_with_token();
    let first = ledger.initiate_bridge_multisig(ALICE, 100, token_id, 2, BOB, 2, None);
    assert_eq!(first, Ok(1));
    let second = ledger.initiate_bridge_multisig(ALICE, 101, token_id, 3, BOB, 2, None);
    assert_eq!(second, Err(Error::DuplicateBridgeRequest));
}

#[test]
fn test_sign_bridge_request_nonexistent() {
    let (mut ledger, _token_id) = setup_with_token();
    let result = ledger.sign_bridge_request(ADMIN, 100, 999, true);
    assert_eq!(result, Err(Error::InvalidRequest));
}

#[test]
fn test_sign_requires_operator() {
    let (mut ledger, token_id) = setup_with_token();
    let id = ledger.initiate_bridge_multisig(ALICE, 100, token_id, 2, BOB, 2, None).unwrap();
    assert_eq!(ledger.sign_bridge_request(ALICE, 101, id, true), Err(Error::Unauthorized));
}

#[test]
fn test_second_signature_rejected() {
    let (mut ledger, token_id) = setup_with_token();
    let id = ledger.initiate_bridge_multisig(ALICE, 100, token_id, 2, BOB, 3, None).unwrap();
    assert_eq!(ledger.sign_bridge_request(OP2, 101, id, true), Ok(()));
    assert_eq!(ledger.sign_bridge_request(OP2, 102, id, true), Err(Error::AlreadySigned));
    assert_eq!(ledger.sign_bridge_request(OP2, 102, id, false), Err(Error::AlreadySigned));
}

#[test]
fn test_threshold_locks_and_freezes() {
    let (mut ledger, token_id) = setup_with_token();
    let id = ledger.initiate_bridge_multisig(ALICE, 100, token_id, 2, BOB, 2, None).unwrap();
    // First approval: still pending.
    assert_eq!(ledger.sign_bridge_request(OP2, 101, id, true), Ok(()));
    let status = ledger.monitor_bridge_status(id).unwrap();
    assert_eq!(status.status, BridgeOperationStatus::Pending);
    assert_eq!(status.signatures_collected, 1);
    assert_eq!(status.signatures_required, 2);
    // Second distinct approval: locked, holder forced to the sentinel and
    // the transferable balance zeroed.
    assert_eq!(ledger.sign_bridge_request(OP3, 102, id, true), Ok(()));
    let status = ledger.monitor_bridge_status(id).unwrap();
    assert_eq!(status.status, BridgeOperationStatus::Locked);
    assert_eq!(ledger.owner_of(token_id), Some(propchain::SENTINEL));
    assert_eq!(ledger.share_balance_of(ALICE, token_id), 0);
}

#[test]
fn test_rejection_vetoes_request() {
    let (mut ledger, token_id) = setup_with_token();
    let id = ledger.initiate_bridge_multisig(ALICE, 100, token_id, 2, BOB, 3, None).unwrap();
    assert_eq!(ledger.sign_bridge_request(OP2, 101, id, true), Ok(()));
    assert_eq!(ledger.sign_bridge_request(OP3, 102, id, true), Ok(()));
    // A single rejection fails the request despite two collected approvals.
    assert_eq!(ledger.sign_bridge_request(OP4, 103, id, false), Ok(()));
    let status = ledger.monitor_bridge_status(id).unwrap();
    assert_eq!(status.status, BridgeOperationStatus::Failed);
}

#[test]
fn test_locked_token_cannot_transfer() {
    let (mut ledger, token_id) = setup_with_token();
    let id = ledger.initiate_bridge_multisig(ALICE, 100, token_id, 2, BOB, 2, None).unwrap();
    ledger.sign_bridge_request(OP2, 101, id, true).unwrap();
    ledger.sign_bridge_request(OP3, 102, id, true).unwrap();
    // The frozen token cannot move, whoever asks.
    assert_eq!(ledger.transfer_from(ALICE, 103, ALICE, BOB, token_id), Err(Error::Unauthorized));
    assert_eq!(
        ledger.transfer_from(BOB, 103, propchain::SENTINEL, BOB, token_id),
        Err(Error::Unauthorized)
    );
    assert_eq!(ledger.approve(ALICE, BOB, token_id), Err(Error::Unauthorized));
}

#[test]
fn test_expiry_is_discovered_on_sign() {
    let (mut ledger, token_id) = setup_with_token();
    // Deadline is creation block plus the timeout.
    let id = ledger.initiate_bridge_multisig(ALICE, 100, token_id, 2, BOB, 2, Some(100)).unwrap();
    let status = ledger.monitor_bridge_status(id).unwrap();
    assert_eq!(status.expires_at, Some(200));
    // A signature after the deadline reports the expiry and flips the status.
    assert_eq!(ledger.sign_bridge_request(OP2, 201, id, true), Err(Error::RequestExpired));
    let status = ledger.monitor_bridge_status(id).unwrap();
    assert_eq!(status.status, BridgeOperationStatus::Expired);
    assert_eq!(status.signatures_collected, 0);
}

#[test]
fn test_sign_at_deadline_still_counts() {
    let (mut ledger, token_id) = setup_with_token();
    let id = ledger.initiate_bridge_multisig(ALICE, 100, token_id, 2, BOB, 2, Some(100)).unwrap();
    // Exactly at the deadline the request has not expired yet.
    assert_eq!(ledger.sign_bridge_request(OP2, 200, id, true), Ok(()));
    let status = ledger.monitor_bridge_status(id).unwrap();
    assert_eq!(status.status, BridgeOperationStatus::Pending);
    assert_eq!(status.signatures_collected, 1);
}

#[test]
fn test_execute_requires_locked() {
    let (mut ledger, token_id) = setup_with_token();
    let id = ledger.initiate_bridge_multisig(ALICE, 100, token_id, 2, BOB, 2, None).unwrap();
    assert_eq!(ledger.execute_bridge(OP2, 1000, id), Err(Error::InvalidRequest));
    assert_eq!(ledger.execute_bridge(OP2, 1000, 999), Err(Error::InvalidRequest));
    assert_eq!(ledger.execute_bridge(ALICE, 1000, id), Err(Error::Unauthorized));
}

#[test]
fn test_execute_records_hash_and_history() {
    let (mut ledger, token_id) = setup_with_token();
    let id = ledger.initiate_bridge_multisig(ALICE, 100, token_id, 2, BOB, 2, None).unwrap();
    ledger.sign_bridge_request(OP2, 101, id, true).unwrap();
    ledger.sign_bridge_request(OP3, 102, id, true).unwrap();
    assert_eq!(ledger.execute_bridge(OP2, 1000, id), Ok(()));
    let status = ledger.monitor_bridge_status(id).unwrap();
    assert_eq!(status.status, BridgeOperationStatus::Completed);
    // The recorded hash is the derived one, recoverable from the request.
    let expected = derive_bridge_hash(id, token_id, 1, 2, ALICE, BOB, 1000);
    assert_eq!(expected, TxHash { w0: id, w1: token_id, w2: 1, w3: 2 });
    assert!(ledger.verify_bridge_transaction(token_id, expected, 1));
    assert!(!ledger.verify_bridge_transaction(token_id, TxHash { w0: 9, w1: 9, w2: 9, w3: 9 }, 1));
    // The audit history of the sender holds the execution.
    let history = ledger.get_bridge_history(ALICE);
    assert_eq!(history.len(), 1);
    assert_eq!(history[0].transaction_hash, expected);
    assert_eq!(history[0].token_id, token_id);
    assert_eq!(history[0].sender, ALICE);
    assert_eq!(history[0].recipient, BOB);
    assert_eq!(history[0].timestamp, 1000);
    // Base charge, one hundred per character of the description, five
    // thousand per required signature.
    assert_eq!(history[0].gas_used, 100000 + 15 * 100 + 2 * 5000);
    assert_eq!(ledger.get_bridge_history(BOB).len(), 0);
}

#[test]
fn test_receive_unknown_hash_rejected() {
    let (mut ledger, _token_id) = setup_with_token();
    let bogus = TxHash { w0: 1, w1: 1, w2: 1, w3: 2 };
    let result = ledger.receive_bridged_token(OP2, 2000, 2, 1, BOB, sample_metadata(), bogus);
    assert_eq!(result, Err(Error::InvalidRequest));
}

#[test]
fn test_round_trip_execute_then_receive() {
    let (mut ledger, token_id) = setup_with_token();
    let id = ledger.initiate_bridge_multisig(ALICE, 100, token_id, 2, BOB, 2, None).unwrap();
    ledger.sign_bridge_request(OP2, 101, id, true).unwrap();
    ledger.sign_bridge_request(OP3, 102, id, true).unwrap();
    ledger.execute_bridge(OP2, 1000, id).unwrap();
    let hash = derive_bridge_hash(id, token_id, 1, 2, ALICE, BOB, 1000);
    // Receiving with the matching hash mints a fresh token for the recipient.
    let minted = ledger.receive_bridged_token(OP3, 2000, 2, token_id, BOB, sample_metadata(), hash);
    assert_eq!(minted, Ok(2));
    let minted = minted.unwrap();
    assert_eq!(ledger.owner_of(minted), Some(BOB));
    assert_eq!(ledger.share_balance_of(BOB, minted), 1);
    // The bridged-token record learns the minted id and turns Completed.
    let status = ledger.get_bridge_status(token_id).unwrap();
    assert_eq!(status.status, BridgeOperationStatus::Completed);
    assert!(!status.is_locked);
    // The same hash can never mint again.
    let again = ledger.receive_bridged_token(OP3, 2001, 2, token_id, BOB, sample_metadata(), hash);
    assert_eq!(again, Err(Error::InvalidRequest));
    // Membership in the registry is permanent.
    assert!(ledger.verify_bridge_transaction(token_id, hash, 1));
}

#[test]
fn test_burn_bridged_token_round_trip() {
    let (mut ledger, token_id) = setup_with_token();
    let id = ledger.initiate_bridge_multisig(ALICE, 100, token_id, 2, BOB, 2, None).unwrap();
    ledger.sign_bridge_request(OP2, 101, id, true).unwrap();
    ledger.sign_bridge_request(OP3, 102, id, true).unwrap();
    ledger.execute_bridge(OP2, 1000, id).unwrap();
    let hash = derive_bridge_hash(id, token_id, 1, 2, ALICE, BOB, 1000);
    let minted =
        ledger.receive_bridged_token(OP3, 2000, 2, token_id, BOB, sample_metadata(), hash).unwrap();
    // Burning needs a Completed bridged record under (chain, token id): the
    // record sits under the origin token id, not the minted one.
    assert_eq!(ledger.burn_bridged_token(BOB, minted, 2, ALICE), Err(Error::BridgeNotSupported));
    // The origin token is held by the sentinel, so nobody can burn it.
    assert_eq!(ledger.burn_bridged_token(ALICE, token_id, 2, ALICE), Err(Error::Unauthorized));
}

#[test]
fn test_recover_unlock_restores_holder() {
    let (mut ledger, token_id) = setup_with_token();
    let id = ledger.initiate_bridge_multisig(ALICE, 100, token_id, 2, BOB, 2, None).unwrap();
    ledger.sign_bridge_request(OP2, 101, id, true).unwrap();
    ledger.sign_bridge_request(OP3, 102, id, true).unwrap();
    // Locked and frozen; a late veto fails the request, leaving it frozen.
    assert_eq!(ledger.sign_bridge_request(OP4, 103, id, false), Ok(()));
    assert_eq!(ledger.owner_of(token_id), Some(propchain::SENTINEL));
    // Only the administrator may recover.
    assert_eq!(
        ledger.recover_failed_bridge(OP2, id, RecoveryAction::UnlockToken),
        Err(Error::Unauthorized)
    );
    assert_eq!(ledger.recover_failed_bridge(ADMIN, id, RecoveryAction::UnlockToken), Ok(()));
    assert_eq!(ledger.owner_of(token_id), Some(ALICE));
    assert_eq!(ledger.share_balance_of(ALICE, token_id), 1);
}

#[test]
fn test_recover_unlock_on_expired_request() {
    let (mut ledger, token_id) = setup_with_token();
    let id = ledger.initiate_bridge_multisig(ALICE, 100, token_id, 2, BOB, 2, Some(100)).unwrap();
    assert_eq!(ledger.sign_bridge_request(OP2, 201, id, true), Err(Error::RequestExpired));
    // The expired request never froze the token; recovery leaves the sender
    // as holder with balance one.
    assert_eq!(ledger.recover_failed_bridge(ADMIN, id, RecoveryAction::UnlockToken), Ok(()));
    assert_eq!(ledger.owner_of(token_id), Some(ALICE));
    assert_eq!(ledger.share_balance_of(ALICE, token_id), 1);
}

#[test]
fn test_recover_requires_terminal_failure() {
    let (mut ledger, token_id) = setup_with_token();
    let id = ledger.initiate_bridge_multisig(ALICE, 100, token_id, 2, BOB, 2, None).unwrap();
    assert_eq!(
        ledger.recover_failed_bridge(ADMIN, id, RecoveryAction::UnlockToken),
        Err(Error::InvalidRequest)
    );
}

#[test]
fn test_recover_retry_reopens_request() {
    let (mut ledger, token_id) = setup_with_token();
    let id = ledger.initiate_bridge_multisig(ALICE, 100, token_id, 2, BOB, 2, None).unwrap();
    assert_eq!(ledger.sign_bridge_request(OP2, 101, id, false), Ok(()));
    assert_eq!(ledger.recover_failed_bridge(ADMIN, id, RecoveryAction::RetryBridge), Ok(()));
    let status = ledger.monitor_bridge_status(id).unwrap();
    assert_eq!(status.status, BridgeOperationStatus::Pending);
    assert_eq!(status.signatures_collected, 0);
    // The operator who rejected earlier may decide again after the retry.
    assert_eq!(ledger.sign_bridge_request(OP2, 102, id, true), Ok(()));
}

#[test]
fn test_recover_retry_respects_single_active_request() {
    let (mut ledger, token_id) = setup_with_token();
    let id = ledger.initiate_bridge_multisig(ALICE, 100, token_id, 2, BOB, 2, None).unwrap();
    assert_eq!(ledger.sign_bridge_request(OP2, 101, id, false), Ok(()));
    // A second request for the token is possible once the first failed.
    let id2 = ledger.initiate_bridge_multisig(ALICE, 102, token_id, 2, BOB, 2, None).unwrap();
    assert_eq!(id2, 2);
    // Reopening the failed request would give the token two live requests.
    assert_eq!(
        ledger.recover_failed_bridge(ADMIN, id, RecoveryAction::RetryBridge),
        Err(Error::DuplicateBridgeRequest)
    );
}

#[test]
fn test_recover_refund_gas_changes_nothing() {
    let (mut ledger, token_id) = setup_with_token();
    let id = ledger.initiate_bridge_multisig(ALICE, 100, token_id, 2, BOB, 2, None).unwrap();
    ledger.sign_bridge_request(OP2, 101, id, false).unwrap();
    assert_eq!(ledger.recover_failed_bridge(ADMIN, id, RecoveryAction::RefundGas), Ok(()));
    assert_eq!(ledger.owner_of(token_id), Some(ALICE));
    let status = ledger.monitor_bridge_status(id).unwrap();
    assert_eq!(status.status, BridgeOperationStatus::Failed);
}

#[test]
fn test_recover_cancel_restores_and_fails() {
    let (mut ledger, token_id) = setup_with_token();
    let id = ledger.initiate_bridge_multisig(ALICE, 100, token_id, 2, BOB, 2, None).unwrap();
    ledger.sign_bridge_request(OP2, 101, id, true).unwrap();
    ledger.sign_bridge_request(OP3, 102, id, true).unwrap();
    ledger.sign_bridge_request(OP4, 103, id, false).unwrap();
    assert_eq!(ledger.recover_failed_bridge(ADMIN, id, RecoveryAction::CancelBridge), Ok(()));
    assert_eq!(ledger.owner_of(token_id), Some(ALICE));
    assert_eq!(ledger.share_balance_of(ALICE, token_id), 1);
    let status = ledger.monitor_bridge_status(id).unwrap();
    assert_eq!(status.status, BridgeOperationStatus::Failed);
}

#[test]
fn test_operator_management_is_idempotent() {
    let mut ledger = PropertyToken::new(ADMIN);
    assert!(ledger.is_bridge_operator(ADMIN));
    assert!(!ledger.is_bridge_operator(OP2));
    ledger.add_bridge_operator(ADMIN, OP2).unwrap();
    ledger.add_bridge_operator(ADMIN, OP2).unwrap();
    assert_eq!(ledger.get_bridge_operators(), vec![ADMIN, OP2]);
    ledger.remove_bridge_operator(ADMIN, OP2).unwrap();
    ledger.remove_bridge_operator(ADMIN, OP2).unwrap();
    assert_eq!(ledger.get_bridge_operators(), vec![ADMIN]);
    assert_eq!(ledger.add_bridge_operator(OP2, OP3), Err(Error::Unauthorized));
    assert_eq!(ledger.remove_bridge_operator(OP2, ADMIN), Err(Error::Unauthorized));
}

#[test]
fn test_estimate_bridge_gas() {
    let (ledger, token_id) = setup_with_token();
    // Configured budget plus one hundred per character of the description.
    assert_eq!(ledger.estimate_bridge_gas(token_id, 2), Ok(500000 + 15 * 100));
    assert_eq!(ledger.estimate_bridge_gas(token_id, 999), Err(Error::InvalidChain));
    assert_eq!(ledger.estimate_bridge_gas(999, 2), Err(Error::TokenNotFound));
}
