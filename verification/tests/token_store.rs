use propchain::Error;
use propchain::PropertyMetadata;
use propchain::PropertyToken;
use propchain::TxHash;

const ADMIN: u64 = 1;
const ALICE: u64 = 10;
const BOB: u64 = 20;
const CHARLIE: u64 = 30;

fn sample_metadata() -> PropertyMetadata {
    PropertyMetadata {
        location: String::from("123 Main St"),
        size: 1000,
        legal_description: String::from("Sample property"),
        valuation: 500000,
        documents_url: String::from("ipfs://sample-docs"),
    }
}

#[test]
fn test_constructor_works() {
    let ledger = PropertyToken::new(ADMIN);
    assert_eq!(ledger.total_supply(), 0);
    assert_eq!(ledger.current_token_id(), 0);
    assert_eq!(ledger.admin(), ADMIN);
}

#[test]
fn test_register_property_with_token() {
    let mut ledger = PropertyToken::new(ADMIN);
    let result = ledger.register_property_with_token(ALICE, 100, sample_metadata());
    assert!(result.is_ok());
    let token_id = result.unwrap();
    assert_eq!(token_id, 1);
    assert_eq!(ledger.total_supply(), 1);
    assert_eq!(ledger.owner_of(token_id), Some(ALICE));
    assert_eq!(ledger.share_balance_of(ALICE, token_id), 1);
}

#[test]
fn test_balance_of() {
    let mut ledger = PropertyToken::new(ADMIN);
    ledger.register_property_with_token(ALICE, 100, sample_metadata()).unwrap();
    assert_eq!(ledger.balance_of(ALICE), 1);
    assert_eq!(ledger.balance_of(BOB), 0);
}

#[test]
fn test_balance_of_nonexistent_account() {
    let ledger = PropertyToken::new(ADMIN);
    assert_eq!(ledger.balance_of(0xFF), 0);
}

#[test]
fn test_owner_of_nonexistent_token() {
    let ledger = PropertyToken::new(ADMIN);
    assert_eq!(ledger.owner_of(0), None);
    assert_eq!(ledger.owner_of(1), None);
    assert_eq!(ledger.owner_of(u64::MAX), None);
}

#[test]
fn test_register_multiple_properties_increments_ids() {
    let mut ledger = PropertyToken::new(ADMIN);
    for i in 1..=10u64 {
        let metadata = PropertyMetadata {
            location: format!("Property {}", i),
            size: 1000 + i,
            legal_description: format!("Description {}", i),
            valuation: 100_000 + (i as u128 * 1000),
            documents_url: format!("ipfs://prop{}", i),
        };
        let token_id = ledger.register_property_with_token(ALICE, 100, metadata).unwrap();
        assert_eq!(token_id, i);
        assert_eq!(ledger.total_supply(), i);
    }
}

#[test]
fn test_transfer_from_nonexistent_token() {
    let mut ledger = PropertyToken::new(ADMIN);
    let result = ledger.transfer_from(ALICE, 100, ALICE, BOB, 999);
    assert_eq!(result, Err(Error::TokenNotFound));
}

#[test]
fn test_transfer_from_unauthorized_caller() {
    let mut ledger = PropertyToken::new(ADMIN);
    let token_id = ledger.register_property_with_token(ALICE, 100, sample_metadata()).unwrap();
    // Bob tries to move Alice's token without approval.
    let result = ledger.transfer_from(BOB, 101, ALICE, BOB, token_id);
    assert_eq!(result, Err(Error::Unauthorized));
}

#[test]
fn test_transfer_preserves_total_supply() {
    let mut ledger = PropertyToken::new(ADMIN);
    let token_id = ledger.register_property_with_token(ALICE, 100, sample_metadata()).unwrap();
    let initial_supply = ledger.total_supply();
    ledger.transfer_from(ALICE, 101, ALICE, BOB, token_id).unwrap();
    assert_eq!(ledger.total_supply(), initial_supply);
    assert_eq!(ledger.owner_of(token_id), Some(BOB));
    assert_eq!(ledger.balance_of(ALICE), 0);
    assert_eq!(ledger.balance_of(BOB), 1);
}

#[test]
fn test_transfer_records_history() {
    let mut ledger = PropertyToken::new(ADMIN);
    let token_id = ledger.register_property_with_token(ALICE, 100, sample_metadata()).unwrap();
    ledger.transfer_from(ALICE, 150, ALICE, BOB, token_id).unwrap();
    let history = ledger.get_ownership_history(token_id).unwrap();
    assert_eq!(history.len(), 2);
    assert_eq!(history[0].from, propchain::SENTINEL);
    assert_eq!(history[0].to, ALICE);
    assert_eq!(history[0].timestamp, 100);
    assert_eq!(history[1].from, ALICE);
    assert_eq!(history[1].to, BOB);
    assert_eq!(history[1].timestamp, 150);
    assert_eq!(ledger.get_ownership_history(999), None);
}

#[test]
fn test_transfer_by_approved_account() {
    let mut ledger = PropertyToken::new(ADMIN);
    let token_id = ledger.register_property_with_token(ALICE, 100, sample_metadata()).unwrap();
    ledger.approve(ALICE, BOB, token_id).unwrap();
    assert_eq!(ledger.get_approved(token_id), Some(BOB));
    ledger.transfer_from(BOB, 101, ALICE, CHARLIE, token_id).unwrap();
    assert_eq!(ledger.owner_of(token_id), Some(CHARLIE));
    // Approvals are cleared by the transfer.
    assert_eq!(ledger.get_approved(token_id), None);
}

#[test]
fn test_transfer_by_operator_for_all() {
    let mut ledger = PropertyToken::new(ADMIN);
    let token_id = ledger.register_property_with_token(ALICE, 100, sample_metadata()).unwrap();
    ledger.set_approval_for_all(ALICE, BOB, true).unwrap();
    assert!(ledger.is_approved_for_all(ALICE, BOB));
    ledger.transfer_from(BOB, 101, ALICE, BOB, token_id).unwrap();
    assert_eq!(ledger.owner_of(token_id), Some(BOB));
    ledger.set_approval_for_all(ALICE, BOB, false).unwrap();
    assert!(!ledger.is_approved_for_all(ALICE, BOB));
}

#[test]
fn test_approve_nonexistent_token() {
    let mut ledger = PropertyToken::new(ADMIN);
    assert_eq!(ledger.approve(ALICE, BOB, 999), Err(Error::TokenNotFound));
}

#[test]
fn test_approve_unauthorized_caller() {
    let mut ledger = PropertyToken::new(ADMIN);
    let token_id = ledger.register_property_with_token(ALICE, 100, sample_metadata()).unwrap();
    assert_eq!(ledger.approve(BOB, CHARLIE, token_id), Err(Error::Unauthorized));
}

#[test]
fn test_attach_legal_document() {
    let mut ledger = PropertyToken::new(ADMIN);
    let token_id = ledger.register_property_with_token(ALICE, 100, sample_metadata()).unwrap();
    let doc_hash = TxHash { w0: 1, w1: 1, w2: 1, w3: 1 };
    let result = ledger.attach_legal_document(ALICE, 120, token_id, doc_hash, String::from("Deed"));
    assert!(result.is_ok());
}

#[test]
fn test_attach_document_to_nonexistent_token() {
    let mut ledger = PropertyToken::new(ADMIN);
    let doc_hash = TxHash { w0: 1, w1: 1, w2: 1, w3: 1 };
    let result = ledger.attach_legal_document(ALICE, 120, 999, doc_hash, String::from("Deed"));
    assert_eq!(result, Err(Error::TokenNotFound));
}

#[test]
fn test_attach_document_unauthorized() {
    let mut ledger = PropertyToken::new(ADMIN);
    let token_id = ledger.register_property_with_token(ALICE, 100, sample_metadata()).unwrap();
    let doc_hash = TxHash { w0: 1, w1: 1, w2: 1, w3: 1 };
    let result = ledger.attach_legal_document(BOB, 120, token_id, doc_hash, String::from("Deed"));
    assert_eq!(result, Err(Error::Unauthorized));
}

#[test]
fn test_verify_compliance() {
    let mut ledger = PropertyToken::new(ADMIN);
    let token_id = ledger.register_property_with_token(ALICE, 100, sample_metadata()).unwrap();
    let result = ledger.verify_compliance(ADMIN, 130, token_id, true);
    assert!(result.is_ok());
}

#[test]
fn test_verify_compliance_nonexistent_token() {
    let mut ledger = PropertyToken::new(ADMIN);
    assert_eq!(ledger.verify_compliance(ADMIN, 130, 999, true), Err(Error::TokenNotFound));
}

#[test]
fn test_verify_compliance_unauthorized() {
    let mut ledger = PropertyToken::new(ADMIN);
    let token_id = ledger.register_property_with_token(ALICE, 100, sample_metadata()).unwrap();
    assert_eq!(ledger.verify_compliance(BOB, 130, token_id, true), Err(Error::Unauthorized));
}

#[test]
fn test_balance_of_batch_empty_vectors() {
    let ledger = PropertyToken::new(ADMIN);
    let result = ledger.balance_of_batch(Vec::new(), Vec::new());
    assert_eq!(result, Vec::<u128>::new());
}

#[test]
fn test_balance_of_batch_pads_missing_ids() {
    let mut ledger = PropertyToken::new(ADMIN);
    let token_id = ledger.register_property_with_token(ALICE, 100, sample_metadata()).unwrap();
    let result = ledger.balance_of_batch(vec![ALICE, BOB, ALICE], vec![token_id, token_id]);
    assert_eq!(result, vec![1, 0, 0]);
}

#[test]
fn test_safe_batch_transfer() {
    let mut ledger = PropertyToken::new(ADMIN);
    let t1 = ledger.register_property_with_token(ALICE, 100, sample_metadata()).unwrap();
    let t2 = ledger.register_property_with_token(ALICE, 101, sample_metadata()).unwrap();
    ledger.issue_shares(ALICE, t1, ALICE, 9).unwrap();
    ledger.issue_shares(ALICE, t2, ALICE, 4).unwrap();
    // Mismatched lists are rejected.
    assert_eq!(
        ledger.safe_batch_transfer_from(ALICE, ALICE, BOB, vec![t1, t2], vec![5], Vec::new()),
        Err(Error::Unauthorized)
    );
    // Only the holder or an operator may move the batch.
    assert_eq!(
        ledger.safe_batch_transfer_from(BOB, ALICE, BOB, vec![t1], vec![1], Vec::new()),
        Err(Error::Unauthorized)
    );
    assert_eq!(
        ledger.safe_batch_transfer_from(ALICE, ALICE, BOB, vec![t1, t2], vec![4, 5], Vec::new()),
        Ok(())
    );
    assert_eq!(ledger.share_balance_of(BOB, t1), 4);
    assert_eq!(ledger.share_balance_of(BOB, t2), 5);
    assert_eq!(ledger.share_balance_of(ALICE, t1), 6);
    assert_eq!(ledger.share_balance_of(ALICE, t2), 0);
}

#[test]
fn test_safe_batch_transfer_is_atomic() {
    let mut ledger = PropertyToken::new(ADMIN);
    let t1 = ledger.register_property_with_token(ALICE, 100, sample_metadata()).unwrap();
    ledger.issue_shares(ALICE, t1, ALICE, 9).unwrap();
    // The second step of the batch finds the balance short, so nothing moves.
    assert_eq!(
        ledger.safe_batch_transfer_from(ALICE, ALICE, BOB, vec![t1, t1], vec![6, 6], Vec::new()),
        Err(Error::Unauthorized)
    );
    assert_eq!(ledger.share_balance_of(ALICE, t1), 10);
    assert_eq!(ledger.share_balance_of(BOB, t1), 0);
    // Within its limits the batch drains sequentially.
    assert_eq!(
        ledger.safe_batch_transfer_from(ALICE, ALICE, BOB, vec![t1, t1], vec![6, 4], Vec::new()),
        Ok(())
    );
    assert_eq!(ledger.share_balance_of(ALICE, t1), 0);
    assert_eq!(ledger.share_balance_of(BOB, t1), 10);
}
