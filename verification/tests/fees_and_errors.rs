use propchain::ErrorCategory;
use propchain::ErrorInfo;
use propchain::ErrorRate;
use propchain::ErrorSeverity;
use propchain::FeeConfig;
use propchain::compute_dynamic_fee;
use propchain::safe_expect;
use propchain::safe_unwrap;
use propchain::system_error;
use propchain::user_error;
use propchain::validation_error;

fn default_config(base_fee: u128, min_fee: u128, max_fee: u128) -> FeeConfig {
    FeeConfig {
        base_fee,
        min_fee,
        max_fee,
        congestion_sensitivity: 80,
        demand_factor_bp: 500,
        last_updated: 0,
    }
}

#[test]
fn test_dynamic_fee_calculation() {
    let config = default_config(1000, 100, 100_000);
    let fee = compute_dynamic_fee(&config, 0, 0);
    assert!(fee >= 100 && fee <= 100_000);
    // No congestion, no demand: exactly the base fee.
    assert_eq!(fee, 1000);
}

#[test]
fn test_dynamic_fee_congestion_and_demand() {
    let config = default_config(1000, 100, 100_000);
    // Full congestion at sensitivity 80 adds 160 basis points; demand adds
    // its own 500: 1000 * 10660 / 10000.
    assert_eq!(compute_dynamic_fee(&config, 100, 500), 1066);
    // Demand is capped at 5000 basis points.
    assert_eq!(compute_dynamic_fee(&config, 0, 9999), 1500);
}

#[test]
fn test_dynamic_fee_clamped() {
    let low_ceiling = default_config(1000, 100, 1010);
    assert_eq!(compute_dynamic_fee(&low_ceiling, 100, 500), 1010);
    let high_floor = default_config(10, 500, 1000);
    assert_eq!(compute_dynamic_fee(&high_floor, 0, 0), 500);
}

#[test]
fn test_error_rate_window() {
    let mut rate = ErrorRate::new(1000);
    assert_eq!(rate.count, 0);
    assert_eq!(rate.window_start, 0);
    assert_eq!(rate.window_duration, 1000);
    // Inside the first window the count grows.
    rate.increment(500);
    assert_eq!(rate.count, 1);
    assert_eq!(rate.window_start, 0);
    rate.increment(600);
    assert_eq!(rate.count, 2);
    // A time at the window's end starts a fresh window.
    rate.increment(1000);
    assert_eq!(rate.count, 1);
    assert_eq!(rate.window_start, 1000);
}

#[test]
fn test_error_info_builders() {
    let info = ErrorInfo::new(
        String::from("E100"),
        String::from("broken"),
        ErrorCategory::UserError,
        ErrorSeverity::Low,
    );
    assert_eq!(info.code, "E100");
    assert_eq!(info.message, "broken");
    assert_eq!(info.timestamp, 0);
    let info = info
        .with_suggestion(String::from("try again"))
        .with_context(String::from("field"), String::from("name"))
        .with_timestamp(42);
    assert_eq!(info.recovery_suggestions, vec![String::from("try again")]);
    assert_eq!(info.context, vec![(String::from("field"), String::from("name"))]);
    assert_eq!(info.timestamp, 42);
}

#[test]
fn test_error_constructors() {
    let e = user_error(
        String::from("U1"),
        String::from("bad input"),
        vec![String::from("fix it")],
    );
    assert_eq!(e.category, ErrorCategory::UserError);
    assert_eq!(e.severity, ErrorSeverity::Medium);
    assert_eq!(e.recovery_suggestions.len(), 1);
    let e = system_error(String::from("S1"), String::from("broken"));
    assert_eq!(e.category, ErrorCategory::SystemError);
    assert_eq!(e.severity, ErrorSeverity::High);
    assert_eq!(e.recovery_suggestions.len(), 1);
    let e = validation_error(String::from("V1"), String::from("bad"), String::from("size"));
    assert_eq!(e.category, ErrorCategory::ValidationError);
    assert_eq!(e.context, vec![(String::from("field"), String::from("size"))]);
}

#[test]
fn test_safe_unwrap() {
    let ok: Result<u32, ErrorInfo> =
        safe_unwrap(Some(7), String::from("E1"), String::from("missing"));
    assert_eq!(ok.unwrap(), 7);
    let err: Result<u32, ErrorInfo> =
        safe_unwrap(None, String::from("E1"), String::from("missing"));
    let e = err.unwrap_err();
    assert_eq!(e.code, "E1");
    assert_eq!(e.category, ErrorCategory::SystemError);
}

#[test]
fn test_safe_expect_records_context() {
    let err: Result<u32, ErrorInfo> = safe_expect(
        None,
        String::from("E2"),
        String::from("missing"),
        vec![(String::from("token"), String::from("7"))],
    );
    let e = err.unwrap_err();
    assert_eq!(e.context, vec![(String::from("token"), String::from("7"))]);
    let ok: Result<u32, ErrorInfo> =
        safe_expect(Some(3), String::from("E2"), String::from("missing"), Vec::new());
    assert_eq!(ok.unwrap(), 3);
}

#[test]
fn test_premium_auction_flow() {
    let mut manager = propchain::FeeManager::new(1, 0, 100, 10, 10_000);
    let auction_id = manager.create_premium_auction(5, 0, 1, 500, 3600).expect("create auction");
    assert_eq!(auction_id, 1);
    let auction = manager.get_auction(auction_id).unwrap();
    assert_eq!(auction.property_id, 1);
    assert_eq!(auction.min_bid, 500);
    assert!(!auction.settled);
    assert_eq!(auction.end_time, 3600);

    assert!(manager.place_bid(6, 10, auction_id, 600).is_ok());
    let auction = manager.get_auction(auction_id).unwrap();
    assert_eq!(auction.current_bid, 600);
    assert_eq!(auction.current_bidder, Some(6));
    // A bid below the standing one is refused.
    assert_eq!(
        manager.place_bid(7, 11, auction_id, 600),
        Err(propchain::FeeError::BidTooLow)
    );
    // Settling before the end is refused; after it the bidder wins.
    assert_eq!(
        manager.settle_auction(100, auction_id),
        Err(propchain::FeeError::AuctionNotEnded)
    );
    assert!(manager.settle_auction(3600, auction_id).is_ok());
    assert!(manager.get_auction(auction_id).unwrap().settled);
    assert_eq!(
        manager.place_bid(7, 3601, auction_id, 700),
        Err(propchain::FeeError::AlreadySettled)
    );
}

#[test]
fn test_fee_report() {
    let manager = propchain::FeeManager::new(1, 0, 1000, 100, 50_000);
    let report = manager.get_fee_report(5);
    assert_eq!(report.total_fees_collected, 0);
    assert!(report.recommended_fee >= 100);
    assert_eq!(report.congestion_index, 0);
    assert_eq!(report.premium_auctions_active, 0);
}

#[test]
fn test_fee_estimate_recommendation() {
    let manager = propchain::FeeManager::new(1, 0, 1000, 100, 50_000);
    let est = manager.get_fee_estimate(5, propchain::FeeOperation::TransferProperty);
    assert!(!est.recommendation.is_empty());
    assert_eq!(est.congestion_level, "low");
    assert_eq!(est.estimated_fee, 1000);
}

#[test]
fn test_fee_collection_and_distribution() {
    let mut manager = propchain::FeeManager::new(1, 0, 1000, 100, 50_000);
    manager.add_validator(1, 8).unwrap();
    manager.add_validator(1, 9).unwrap();
    manager
        .record_fee_collected(10, propchain::FeeOperation::RegisterProperty, 1000, 5)
        .unwrap();
    assert_eq!(manager.fee_treasury(), 1000);
    assert_eq!(
        manager.distribute_fees(2, 20),
        Err(propchain::FeeError::Unauthorized)
    );
    manager.distribute_fees(1, 20).unwrap();
    assert_eq!(manager.fee_treasury(), 0);
    // Half of the treasury goes to the validators, split evenly.
    assert_eq!(manager.pending_reward(8), 250);
    assert_eq!(manager.pending_reward(9), 250);
    assert_eq!(manager.claim_rewards(8), Ok(250));
    assert_eq!(manager.pending_reward(8), 0);
}

#[test]
fn test_error_logger_counts_and_recent() {
    let mut logger = propchain::ErrorLogger::new(2);
    assert_eq!(logger.get_error_count(5, "E1"), 0);
    let e1 = ErrorInfo::new(
        String::from("E1"),
        String::from("first"),
        ErrorCategory::UserError,
        ErrorSeverity::Low,
    );
    logger.log_error(5, e1, 100);
    assert_eq!(logger.get_error_count(5, "E1"), 1);
    assert_eq!(logger.get_error_count(6, "E1"), 0);
    assert_eq!(logger.get_error_count(5, "E2"), 0);
    let e2 = ErrorInfo::new(
        String::from("E1"),
        String::from("second"),
        ErrorCategory::UserError,
        ErrorSeverity::Low,
    );
    logger.log_error(5, e2, 200);
    assert_eq!(logger.get_error_count(5, "E1"), 2);
    let e3 = ErrorInfo::new(
        String::from("E2"),
        String::from("third"),
        ErrorCategory::SystemError,
        ErrorSeverity::High,
    );
    logger.log_error(6, e3, 300);
    assert_eq!(logger.get_error_count(6, "E2"), 1);
    // Only the last two records are kept, stamped with their times.
    let recent = logger.get_recent_errors(10);
    assert_eq!(recent.len(), 2);
    assert_eq!(recent[0].message, "second");
    assert_eq!(recent[0].timestamp, 200);
    assert_eq!(recent[1].message, "third");
    assert_eq!(recent[1].timestamp, 300);
    // A smaller limit keeps the newest.
    let recent = logger.get_recent_errors(1);
    assert_eq!(recent.len(), 1);
    assert_eq!(recent[0].message, "third");
}
