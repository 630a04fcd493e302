use propchain::Error;
use propchain::PropertyMetadata;
use propchain::PropertyToken;
use propchain::TxHash;

const ADMIN: u64 = 1;
const ALICE: u64 = 10;
const BOB: u64 = 20;
const CHARLIE: u64 = 30;

fn sample_metadata() -> PropertyMetadata {
    PropertyMetadata {
        location: String::from("123 Main St"),
        size: 1000,
        legal_description: String::from("Sample property"),
        valuation: 500000,
        documents_url: String::from("ipfs://sample-docs"),
    }
}

fn setup() -> (PropertyToken, u64) {
    let mut ledger = PropertyToken::new(ADMIN);
    let token_id = ledger.register_property_with_token(ALICE, 100, sample_metadata()).unwrap();
    (ledger, token_id)
}

#[test]
fn test_issue_and_redeem_shares() {
    let (mut ledger, token_id) = setup();
    assert_eq!(ledger.issue_shares(ALICE, token_id, BOB, 0), Err(Error::InvalidAmount));
    assert_eq!(ledger.issue_shares(BOB, token_id, BOB, 100), Err(Error::Unauthorized));
    assert_eq!(ledger.issue_shares(ALICE, 999, BOB, 100), Err(Error::TokenNotFound));
    assert_eq!(ledger.issue_shares(ALICE, token_id, BOB, 100), Ok(()));
    assert_eq!(ledger.share_balance_of(BOB, token_id), 100);
    assert_eq!(ledger.total_shares(token_id), 100);
    assert_eq!(ledger.redeem_shares(BOB, token_id, BOB, 40), Ok(()));
    assert_eq!(ledger.share_balance_of(BOB, token_id), 60);
    assert_eq!(ledger.total_shares(token_id), 60);
    assert_eq!(ledger.redeem_shares(BOB, token_id, BOB, 100), Err(Error::InsufficientBalance));
    assert_eq!(ledger.redeem_shares(CHARLIE, token_id, BOB, 10), Err(Error::Unauthorized));
}

#[test]
fn test_transfer_shares() {
    let (mut ledger, token_id) = setup();
    ledger.issue_shares(ALICE, token_id, BOB, 100).unwrap();
    assert_eq!(
        ledger.transfer_shares(BOB, BOB, CHARLIE, token_id, 30, true, true),
        Ok(())
    );
    assert_eq!(ledger.share_balance_of(BOB, token_id), 70);
    assert_eq!(ledger.share_balance_of(CHARLIE, token_id), 30);
    assert_eq!(
        ledger.transfer_shares(CHARLIE, BOB, CHARLIE, token_id, 1, true, true),
        Err(Error::Unauthorized)
    );
    assert_eq!(
        ledger.transfer_shares(BOB, BOB, CHARLIE, token_id, 1000, true, true),
        Err(Error::InsufficientBalance)
    );
}

#[test]
fn test_transfer_shares_compliance_gate() {
    let (mut ledger, token_id) = setup();
    ledger.issue_shares(ALICE, token_id, BOB, 100).unwrap();
    // Without a registry the compliance flags are ignored.
    assert_eq!(
        ledger.transfer_shares(BOB, BOB, CHARLIE, token_id, 10, false, false),
        Ok(())
    );
    // With a registry, a failing compliance flag blocks the move.
    ledger.set_compliance_registry(ADMIN, 77).unwrap();
    assert_eq!(
        ledger.transfer_shares(BOB, BOB, CHARLIE, token_id, 10, false, true),
        Err(Error::ComplianceFailed)
    );
    assert_eq!(
        ledger.transfer_shares(BOB, BOB, CHARLIE, token_id, 10, true, true),
        Ok(())
    );
    assert_eq!(ledger.set_compliance_registry(BOB, 77), Err(Error::Unauthorized));
}

#[test]
fn test_dividends_accrue_and_withdraw() {
    let (mut ledger, token_id) = setup();
    ledger.issue_shares(ALICE, token_id, BOB, 75).unwrap();
    ledger.issue_shares(ALICE, token_id, CHARLIE, 25).unwrap();
    // Alice still holds the single whole-token balance unit.
    assert_eq!(ledger.total_shares(token_id), 100);
    assert_eq!(ledger.deposit_dividends(token_id, 0), Err(Error::InvalidAmount));
    assert_eq!(ledger.deposit_dividends(999, 10), Err(Error::InvalidRequest));
    // One thousand spread over one hundred shares: ten per share.
    assert_eq!(ledger.deposit_dividends(token_id, 1000), Ok(()));
    assert_eq!(ledger.withdraw_dividends(BOB, token_id), Ok(750));
    assert_eq!(ledger.withdraw_dividends(CHARLIE, token_id), Ok(250));
    // A second withdrawal finds nothing new.
    assert_eq!(ledger.withdraw_dividends(BOB, token_id), Ok(0));
    let tax = ledger.get_tax_record(BOB, token_id);
    assert_eq!(tax.dividends_received, 750);
}

#[test]
fn test_proposals_and_voting() {
    let (mut ledger, token_id) = setup();
    ledger.issue_shares(ALICE, token_id, BOB, 60).unwrap();
    ledger.issue_shares(ALICE, token_id, CHARLIE, 40).unwrap();
    let hash = TxHash { w0: 5, w1: 6, w2: 7, w3: 8 };
    assert_eq!(ledger.create_proposal(BOB, 200, token_id, 50, hash), Err(Error::Unauthorized));
    assert_eq!(ledger.create_proposal(ALICE, 200, 999, 50, hash), Err(Error::TokenNotFound));
    let pid = ledger.create_proposal(ALICE, 200, token_id, 50, hash).unwrap();
    assert_eq!(pid, 1);
    assert_eq!(ledger.vote(BOB, token_id, 999, true), Err(Error::ProposalNotFound));
    assert_eq!(ledger.vote(BOB, token_id, pid, true), Ok(()));
    // Voting twice is rejected.
    assert_eq!(ledger.vote(BOB, token_id, pid, true), Err(Error::Unauthorized));
    assert_eq!(ledger.vote(CHARLIE, token_id, pid, false), Ok(()));
    // Sixty for, forty against, quorum fifty: passed.
    assert_eq!(ledger.execute_proposal(token_id, pid), Ok(true));
    // A closed proposal takes no more votes and no second execution.
    assert_eq!(ledger.vote(ALICE, token_id, pid, true), Err(Error::ProposalClosed));
    assert_eq!(ledger.execute_proposal(token_id, pid), Err(Error::ProposalClosed));
}

#[test]
fn test_proposal_fails_below_quorum() {
    let (mut ledger, token_id) = setup();
    ledger.issue_shares(ALICE, token_id, BOB, 10).unwrap();
    let hash = TxHash { w0: 5, w1: 6, w2: 7, w3: 8 };
    let pid = ledger.create_proposal(ALICE, 200, token_id, 50, hash).unwrap();
    ledger.vote(BOB, token_id, pid, true).unwrap();
    assert_eq!(ledger.execute_proposal(token_id, pid), Ok(false));
}

#[test]
fn test_ask_lifecycle() {
    let (mut ledger, token_id) = setup();
    ledger.issue_shares(ALICE, token_id, BOB, 100).unwrap();
    assert_eq!(ledger.place_ask(BOB, 300, token_id, 0, 10), Err(Error::InvalidAmount));
    assert_eq!(ledger.place_ask(BOB, 300, token_id, 5, 0), Err(Error::InvalidAmount));
    assert_eq!(ledger.place_ask(BOB, 300, token_id, 5, 1000), Err(Error::InsufficientBalance));
    assert_eq!(ledger.place_ask(BOB, 300, token_id, 5, 40), Ok(()));
    // The offered shares sit in escrow, off the balance.
    assert_eq!(ledger.share_balance_of(BOB, token_id), 60);
    assert_eq!(ledger.cancel_ask(CHARLIE, token_id), Err(Error::AskNotFound));
    assert_eq!(ledger.cancel_ask(BOB, token_id), Ok(()));
    assert_eq!(ledger.share_balance_of(BOB, token_id), 100);
}

#[test]
fn test_buy_shares() {
    let (mut ledger, token_id) = setup();
    ledger.issue_shares(ALICE, token_id, BOB, 100).unwrap();
    ledger.place_ask(BOB, 300, token_id, 5, 40).unwrap();
    assert_eq!(
        ledger.buy_shares(CHARLIE, token_id, BOB, 0, 0, true, true),
        Err(Error::InvalidAmount)
    );
    assert_eq!(
        ledger.buy_shares(CHARLIE, token_id, CHARLIE, 10, 50, true, true),
        Err(Error::AskNotFound)
    );
    assert_eq!(
        ledger.buy_shares(CHARLIE, token_id, BOB, 50, 250, true, true),
        Err(Error::InvalidAmount)
    );
    // Paying anything but the asked total is rejected.
    assert_eq!(
        ledger.buy_shares(CHARLIE, token_id, BOB, 10, 49, true, true),
        Err(Error::InvalidAmount)
    );
    assert_eq!(ledger.buy_shares(CHARLIE, token_id, BOB, 10, 50, true, true), Ok(()));
    assert_eq!(ledger.share_balance_of(CHARLIE, token_id), 10);
    assert_eq!(ledger.get_last_trade_price(token_id), Some(5));
    let tax = ledger.get_tax_record(BOB, token_id);
    assert_eq!(tax.shares_sold, 10);
    assert_eq!(tax.proceeds, 50);
    // Buying the rest closes the ask.
    assert_eq!(ledger.buy_shares(CHARLIE, token_id, BOB, 30, 150, true, true), Ok(()));
    assert_eq!(
        ledger.buy_shares(CHARLIE, token_id, BOB, 1, 5, true, true),
        Err(Error::AskNotFound)
    );
}

#[test]
fn test_get_portfolio() {
    let (mut ledger, token_id) = setup();
    ledger.issue_shares(ALICE, token_id, BOB, 100).unwrap();
    let portfolio = ledger.get_portfolio(BOB, vec![token_id, 999]);
    assert_eq!(portfolio, vec![(token_id, 100, 0), (999, 0, 0)]);
    assert_eq!(ledger.get_last_trade_price(token_id), None);
}
