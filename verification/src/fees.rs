use vstd::prelude::*;

use crate::account::AccountId;

verus! {

/// Basis-points denominator: 10000 equals 100%.
pub const BASIS_POINTS: u128 = 10000;

/// Number of recent operations a full congestion window holds.
pub const CONGESTION_WINDOW: u32 = 100;

/// Largest fee multiplier congestion can reach, in percent of the base fee.
pub const MAX_CONGESTION_MULTIPLIER: u32 = 300;

/// A chargeable operation kind.
#[derive(Debug, Clone, Copy, PartialEq, Eq, Structural)]
pub enum FeeOperation {
    RegisterProperty,
    TransferProperty,
    PremiumListingBid,
}

/// Fee parameters for one operation kind.
#[derive(Debug, Clone, Copy, PartialEq, Eq, Structural)]
pub struct FeeConfig {
    /// Base fee per operation, in the smallest unit.
    pub base_fee: u128,
    /// Fee floor.
    pub min_fee: u128,
    /// Fee ceiling.
    pub max_fee: u128,
    /// Congestion sensitivity, 0 to 100.
    pub congestion_sensitivity: u32,
    /// Demand factor from recent volume, in basis points of the base fee.
    pub demand_factor_bp: u32,
    /// When the configuration last changed.
    pub last_updated: u64,
}

/// One data point of congestion history.
#[derive(Debug, Clone, Copy, PartialEq, Eq, Structural)]
pub struct FeeHistoryEntry {
    pub timestamp: u64,
    pub operation_count: u32,
    pub total_fees_collected: u128,
}

/// A premium listing auction.
#[derive(Debug, Clone, Copy, PartialEq, Eq, Structural)]
pub struct PremiumAuction {
    pub property_id: u64,
    pub seller: AccountId,
    pub min_bid: u128,
    pub current_bid: u128,
    pub current_bidder: Option<AccountId>,
    pub end_time: u64,
    pub settled: bool,
    pub fee_paid: u128,
}

/// One bid in a premium auction.
#[derive(Debug, Clone, Copy, PartialEq, Eq, Structural)]
pub struct AuctionBid {
    pub bidder: AccountId,
    pub amount: u128,
    pub timestamp: u64,
}

/// Why a reward was granted.
#[derive(Debug, Clone, Copy, PartialEq, Eq, Structural)]
pub enum RewardReason {
    ValidatorReward,
    LiquidityProvider,
    PremiumListingFee,
    ParticipationIncentive,
}

/// A reward granted to a validator or participant.
#[derive(Debug, Clone, Copy, PartialEq, Eq, Structural)]
pub struct RewardRecord {
    pub account: AccountId,
    pub amount: u128,
    pub reason: RewardReason,
    pub timestamp: u64,
}

/// A transparency report over the fee mechanism.
#[derive(Debug, Clone, Copy, PartialEq, Eq, Structural)]
pub struct FeeReport {
    pub config: FeeConfig,
    /// Congestion index, 0 to 100.
    pub congestion_index: u32,
    pub recommended_fee: u128,
    pub total_fees_collected: u128,
    pub total_distributed: u128,
    pub operation_count_24h: u64,
    pub premium_auctions_active: u32,
    pub timestamp: u64,
}

/// A fee estimate with an optimization hint for users.
#[derive(Debug, PartialEq)]
pub struct FeeEstimate {
    pub operation: FeeOperation,
    pub estimated_fee: u128,
    pub min_fee: u128,
    pub max_fee: u128,
    /// "low", "medium" or "high".
    pub congestion_level: String,
    pub recommendation: String,
}

/// Errors of the fee mechanism.
#[derive(Debug, Clone, Copy, PartialEq, Eq, Structural)]
pub enum FeeError {
    Unauthorized,
    AuctionNotFound,
    AuctionEnded,
    AuctionNotEnded,
    BidTooLow,
    AlreadySettled,
    InvalidConfig,
    InvalidProperty,
}

/// Notice of a created premium auction.
#[derive(Debug, Clone, Copy, PartialEq, Eq, Structural)]
pub struct PremiumAuctionCreated {
    pub auction_id: u64,
    pub property_id: u64,
    pub seller: AccountId,
    pub min_bid: u128,
    pub end_time: u64,
    pub fee_paid: u128,
}

/// Notice of a bid placed in a premium auction.
#[derive(Debug, Clone, Copy, PartialEq, Eq, Structural)]
pub struct PremiumAuctionBid {
    pub auction_id: u64,
    pub bidder: AccountId,
    pub amount: u128,
    pub outbid_previous: u128,
}

/// Notice of a settled premium auction.
#[derive(Debug, Clone, Copy, PartialEq, Eq, Structural)]
pub struct PremiumAuctionSettled {
    pub auction_id: u64,
    pub property_id: u64,
    pub winner: AccountId,
    pub amount: u128,
    pub timestamp: u64,
}

/// Notice of a distributed reward.
#[derive(Debug, Clone, Copy, PartialEq, Eq, Structural)]
pub struct RewardsDistributed {
    pub recipient: AccountId,
    pub amount: u128,
    pub reason: RewardReason,
    pub timestamp: u64,
}

/// The congestion surcharge in basis points: the index scaled by the
/// configured sensitivity and the headroom above 100%.
pub open spec fn spec_congestion_bp(config: FeeConfig, congestion_index: u32) -> int {
    congestion_index * config.congestion_sensitivity * (MAX_CONGESTION_MULTIPLIER - 100) / 10000
}

/// The full multiplier in basis points: 100% plus the congestion surcharge
/// plus the demand factor, the latter capped at 50%.
pub open spec fn spec_total_multiplier_bp(
    config: FeeConfig,
    congestion_index: u32,
    demand_factor_bp: u32,
) -> int {
    10000 + spec_congestion_bp(config, congestion_index) + (if demand_factor_bp > 5000 {
        5000int
    } else {
        demand_factor_bp as int
    })
}

/// The dynamic fee before the floor and ceiling are applied: the base fee
/// times the multiplier, saturating at the largest representable value.
pub open spec fn spec_raw_fee(config: FeeConfig, congestion_index: u32, demand_factor_bp: u32)
    -> int {
    let m = spec_total_multiplier_bp(config, congestion_index, demand_factor_bp);
    if config.base_fee * m > u128::MAX {
        (u128::MAX as int) / (BASIS_POINTS as int)
    } else {
        config.base_fee * m / (BASIS_POINTS as int)
    }
}

/// The dynamic fee: the raw fee clamped between the configured floor and
/// ceiling.
pub open spec fn spec_dynamic_fee(config: FeeConfig, congestion_index: u32, demand_factor_bp: u32)
    -> int {
    let fee = spec_raw_fee(config, congestion_index, demand_factor_bp);
    if fee < config.min_fee {
        config.min_fee as int
    } else if fee > config.max_fee {
        config.max_fee as int
    } else {
        fee
    }
}

/// Computes the dynamic fee for an operation: the base fee scaled by
/// congestion and demand, then clamped to the configured floor and ceiling.
pub fn compute_dynamic_fee(config: &FeeConfig, congestion_index: u32, demand_factor_bp: u32) -> (r:
    u128)
    requires
        config.min_fee <= config.max_fee,
    ensures
        r == spec_dynamic_fee(*config, congestion_index, demand_factor_bp),
{
    proof {
        assert((congestion_index as int) * (config.congestion_sensitivity as int) <= 0xffff_ffff
            * 0xffff_ffff) by (nonlinear_arith)
            requires
                0 <= congestion_index <= 0xffff_ffff,
                0 <= config.congestion_sensitivity <= 0xffff_ffff,
        ;
    }
    let product: u128 = (congestion_index as u128) * (config.congestion_sensitivity as u128);
    proof {
        assert(product * ((MAX_CONGESTION_MULTIPLIER - 100) as u128) <= u128::MAX)
            by (nonlinear_arith)
            requires
                0 <= product <= 0xffff_ffff * 0xffff_ffff,
        ;
    }
    let congestion_bp: u128 = product * ((MAX_CONGESTION_MULTIPLIER - 100) as u128) / 10000;
    let demand_bp: u32 = if demand_factor_bp > 5000 {
        5000
    } else {
        demand_factor_bp
    };
    let total_multiplier_bp: u128 = 10000 + congestion_bp + (demand_bp as u128);
    proof {
        assert(congestion_bp == spec_congestion_bp(*config, congestion_index));
        assert(total_multiplier_bp == spec_total_multiplier_bp(
            *config,
            congestion_index,
            demand_factor_bp,
        ));
    }
    let fee = match config.base_fee.checked_mul(total_multiplier_bp) {
        Some(p) => p / BASIS_POINTS,
        None => u128::MAX / BASIS_POINTS,
    };
    if fee < config.min_fee {
        config.min_fee
    } else if fee > config.max_fee {
        config.max_fee
    } else {
        fee
    }
}

} // verus!
