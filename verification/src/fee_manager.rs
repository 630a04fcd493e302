use vstd::prelude::*;
use vstd::hash_map::HashMapWithView;

use crate::account::AccountId;
use crate::bridge::pack_key;
use crate::bridge::spec_key;
use crate::fees::AuctionBid;
use crate::fees::FeeConfig;
use crate::fees::FeeError;
use crate::fees::FeeOperation;
use crate::fees::FeeReport;
use crate::fees::PremiumAuction;
use crate::fees::RewardReason;
use crate::fees::RewardRecord;
use crate::fees::compute_dynamic_fee;
use crate::fees::spec_dynamic_fee;
use crate::shares::spec_sat_add;
use crate::shares::spec_sat_add_u64;
use crate::shares::spec_sat_mul;
use crate::shares::sat_mul;

verus! {

broadcast use vstd::std_specs::hash::group_hash_axioms;

/// The map key of an operation kind.
pub open spec fn spec_op_code(op: FeeOperation) -> u64 {
    match op {
        FeeOperation::RegisterProperty => 0,
        FeeOperation::TransferProperty => 1,
        FeeOperation::PremiumListingBid => 2,
    }
}

/// Packs an operation kind into its map key.
fn op_code(op: FeeOperation) -> (r: u64)
    ensures
        r == spec_op_code(op),
{
    match op {
        FeeOperation::RegisterProperty => 0,
        FeeOperation::TransferProperty => 1,
        FeeOperation::PremiumListingBid => 2,
    }
}

/// The dynamic fee and market mechanism: congestion-based fees, premium
/// listing auctions and validator incentives, as one explicit state machine.
/// Each operation takes the calling account and the current time as plain
/// arguments.
pub struct FeeManager {
    /// The administrator account.
    pub admin: AccountId,
    /// Fee parameters per operation kind, overriding the default.
    pub operation_config: HashMapWithView<u64, FeeConfig>,
    /// The fallback fee parameters.
    pub default_config: FeeConfig,
    /// Operations counted towards the current congestion window.
    pub recent_ops_count: u32,
    /// When the congestion window was last reset.
    pub last_congestion_reset: u64,
    /// Premium listing auctions by id, ids counted from one.
    pub auctions: HashMapWithView<u64, PremiumAuction>,
    /// The latest bid of each bidder, keyed by packed (auction id, bidder).
    pub auction_bids: HashMapWithView<u128, AuctionBid>,
    /// How many auctions have been created.
    pub auction_count: u64,
    /// Fees collected and not yet distributed.
    pub fee_treasury: u128,
    /// Rewards each account may claim.
    pub pending_rewards: HashMapWithView<u64, u128>,
    /// Granted rewards by record id, ids counted from one.
    pub reward_records: HashMapWithView<u64, RewardRecord>,
    /// How many rewards have been recorded.
    pub reward_record_count: u64,
    /// All fees ever collected.
    pub total_fees_collected: u128,
    /// All rewards ever distributed.
    pub total_distributed: u128,
    /// The accounts receiving the validator share, each at most once.
    pub validators: Vec<AccountId>,
    /// The validators' share of distributed fees, in basis points.
    pub validator_share_bp: u32,
    /// The treasury's share of distributed fees, in basis points.
    pub treasury_share_bp: u32,
}

impl FeeManager {
    /// The stored override for an operation kind, or the default.
    pub open spec fn spec_config_for(self, op: FeeOperation) -> FeeConfig {
        if self.operation_config@.contains_key(spec_op_code(op)) {
            self.operation_config@[spec_op_code(op)]
        } else {
            self.default_config
        }
    }

    /// The congestion index at a time: zero once the window has lapsed, else
    /// the recent operation count scaled so that a full window reads one
    /// hundred, capped there.
    pub open spec fn spec_congestion_index(self, now: u64) -> u32 {
        if now - self.last_congestion_reset > 3600 {
            0
        } else if self.recent_ops_count * 100 / (crate::fees::CONGESTION_WINDOW as int) > 100 {
            100
        } else {
            (self.recent_ops_count * 100 / (crate::fees::CONGESTION_WINDOW as int)) as u32
        }
    }

    /// The demand factor at a time: the configured factor scaled by the
    /// congestion index.
    pub open spec fn spec_demand_factor_bp(self, now: u64) -> u32 {
        (self.default_config.demand_factor_bp * self.spec_congestion_index(now) / 100) as u32
    }

    /// The fee owed for an operation at a time.
    pub open spec fn spec_fee(self, now: u64, op: FeeOperation) -> int {
        spec_dynamic_fee(
            self.spec_config_for(op),
            self.spec_congestion_index(now),
            self.spec_demand_factor_bp(now),
        )
    }

    /// The rewards an account may claim.
    pub open spec fn spec_pending_reward(self, account: AccountId) -> u128 {
        if self.pending_rewards@.contains_key(account) {
            self.pending_rewards@[account]
        } else {
            0
        }
    }

    /// True when the account receives the validator share.
    pub open spec fn spec_is_validator(self, account: AccountId) -> bool {
        self.validators@.contains(account)
    }

    /// The validator list holds each account at most once.
    pub open spec fn validators_unique(self) -> bool {
        forall|i: int, j: int|
            0 <= i < j < self.validators@.len() ==> self.validators@[i] != self.validators@[j]
    }

    /// Well-formedness: every fee configuration keeps its floor at or below
    /// its ceiling, and the validator list is duplicate-free.
    pub open spec fn wf(self) -> bool {
        &&& self.default_config.min_fee <= self.default_config.max_fee
        &&& forall|code: u64|
            self.operation_config@.contains_key(code)
                ==> (#[trigger] self.operation_config@[code]).min_fee
                <= self.operation_config@[code].max_fee
        &&& self.validators_unique()
    }

    /// Creates a fee manager with the given default fees, even validator and
    /// treasury shares, and an empty treasury. The creating account becomes
    /// administrator.
    pub fn new(caller: AccountId, timestamp: u64, base_fee: u128, min_fee: u128, max_fee: u128)
        -> (r: Self)
        requires
            min_fee <= max_fee,
        ensures
            r.wf(),
            r.admin == caller,
            r.default_config == (FeeConfig {
                base_fee,
                min_fee,
                max_fee,
                congestion_sensitivity: 80,
                demand_factor_bp: 500,
                last_updated: timestamp,
            }),
            r.recent_ops_count == 0,
            r.last_congestion_reset == timestamp,
            r.auction_count == 0,
            r.fee_treasury == 0,
            r.reward_record_count == 0,
            r.total_fees_collected == 0,
            r.total_distributed == 0,
            r.validators@.len() == 0,
            r.validator_share_bp == 5000,
            r.treasury_share_bp == 5000,
            r.operation_config@ == Map::<u64, FeeConfig>::empty(),
            r.auctions@ == Map::<u64, PremiumAuction>::empty(),
            r.auction_bids@ == Map::<u128, AuctionBid>::empty(),
            r.pending_rewards@ == Map::<u64, u128>::empty(),
            r.reward_records@ == Map::<u64, RewardRecord>::empty(),
    {
        FeeManager {
            admin: caller,
            operation_config: HashMapWithView::new(),
            default_config: FeeConfig {
                base_fee,
                min_fee,
                max_fee,
                congestion_sensitivity: 80,
                demand_factor_bp: 500,
                last_updated: timestamp,
            },
            recent_ops_count: 0,
            last_congestion_reset: timestamp,
            auctions: HashMapWithView::new(),
            auction_bids: HashMapWithView::new(),
            auction_count: 0,
            fee_treasury: 0,
            pending_rewards: HashMapWithView::new(),
            reward_records: HashMapWithView::new(),
            reward_record_count: 0,
            total_fees_collected: 0,
            total_distributed: 0,
            validators: Vec::new(),
            validator_share_bp: 5000,
            treasury_share_bp: 5000,
        }
    }

    /// Computes the congestion index at a time.
    fn congestion_index(&self, now: u64) -> (r: u32)
        requires
            self.last_congestion_reset <= now,
        ensures
            r == self.spec_congestion_index(now),
    {
        if now - self.last_congestion_reset > 3600 {
            return 0;
        }
        let scaled: u64 = (self.recent_ops_count as u64) * 100 / (crate::fees::CONGESTION_WINDOW
            as u64);
        if scaled > 100 {
            100
        } else {
            scaled as u32
        }
    }

    /// Computes the demand factor at a time.
    fn demand_factor_bp(&self, now: u64) -> (r: u32)
        requires
            self.last_congestion_reset <= now,
        ensures
            r == self.spec_demand_factor_bp(now),
    {
        let ci = self.congestion_index(now);
        proof {
            assert((self.default_config.demand_factor_bp as int) * (ci as int)
                <= (self.default_config.demand_factor_bp as int) * 100) by (nonlinear_arith)
                requires
                    0 <= ci <= 100,
                    0 <= self.default_config.demand_factor_bp,
            ;
        }
        ((self.default_config.demand_factor_bp as u64) * (ci as u64) / 100) as u32
    }

    /// Calculates the dynamic fee owed for an operation at a time.
    pub fn calculate_fee(&self, now: u64, operation: FeeOperation) -> (r: u128)
        requires
            self.wf(),
            self.last_congestion_reset <= now,
        ensures
            r == self.spec_fee(now, operation),
    {
        let code = op_code(operation);
        let config = match self.operation_config.get(&code) {
            Some(c) => *c,
            None => self.default_config,
        };
        let congestion = self.congestion_index(now);
        let demand_bp = self.demand_factor_bp(now);
        compute_dynamic_fee(&config, congestion, demand_bp)
    }

    /// The recommended fee: the dynamic fee itself.
    pub fn get_recommended_fee(&self, now: u64, operation: FeeOperation) -> (r: u128)
        requires
            self.wf(),
            self.last_congestion_reset <= now,
        ensures
            r == self.spec_fee(now, operation),
    {
        self.calculate_fee(now, operation)
    }

    /// Counts one charged operation towards congestion, capped at the window
    /// size, resetting the window once it lapses, and banks the fee.
    pub fn record_fee_collected(
        &mut self,
        now: u64,
        operation: FeeOperation,
        amount: u128,
        from: AccountId,
    ) -> (r: Result<(), FeeError>)
        requires
            old(self).wf(),
            old(self).last_congestion_reset <= now,
        ensures
            final(self).wf(),
            r == Ok::<(), FeeError>(()),
            now - old(self).last_congestion_reset > 3600 ==> final(self).recent_ops_count == 1
                && final(self).last_congestion_reset == now,
            now - old(self).last_congestion_reset <= 3600 ==> final(self).last_congestion_reset
                == old(self).last_congestion_reset && final(self).recent_ops_count == if old(self).recent_ops_count + 1 > crate::fees::CONGESTION_WINDOW {
                crate::fees::CONGESTION_WINDOW
            } else {
                (old(self).recent_ops_count + 1) as u32
            },
            final(self).fee_treasury == spec_sat_add(old(self).fee_treasury, amount),
            final(self).total_fees_collected == spec_sat_add(
                old(self).total_fees_collected,
                amount,
            ),
            final(self).admin == old(self).admin,
            final(self).operation_config == old(self).operation_config,
            final(self).default_config == old(self).default_config,
            final(self).auctions == old(self).auctions,
            final(self).auction_bids == old(self).auction_bids,
            final(self).auction_count == old(self).auction_count,
            final(self).pending_rewards == old(self).pending_rewards,
            final(self).reward_records == old(self).reward_records,
            final(self).reward_record_count == old(self).reward_record_count,
            final(self).total_distributed == old(self).total_distributed,
            final(self).validators == old(self).validators,
            final(self).validator_share_bp == old(self).validator_share_bp,
            final(self).treasury_share_bp == old(self).treasury_share_bp,
    {
        let capped = if self.recent_ops_count >= crate::fees::CONGESTION_WINDOW {
            crate::fees::CONGESTION_WINDOW
        } else {
            self.recent_ops_count + 1
        };
        self.recent_ops_count = capped;
        if now - self.last_congestion_reset > 3600 {
            self.last_congestion_reset = now;
            self.recent_ops_count = 1;
        }
        self.fee_treasury = self.fee_treasury.saturating_add(amount);
        self.total_fees_collected = self.total_fees_collected.saturating_add(amount);
        Ok(())
    }

    /// Adjusts the default base fee towards the congestion level: five
    /// percent up above seventy, five percent down below thirty, clamped to
    /// the floor and ceiling. Administrator only.
    pub fn update_fee_params(&mut self, caller: AccountId, now: u64) -> (r: Result<(), FeeError>)
        requires
            old(self).wf(),
            old(self).last_congestion_reset <= now,
        ensures
            final(self).wf(),
            r == if caller != old(self).admin {
                Err::<(), FeeError>(FeeError::Unauthorized)
            } else {
                Ok::<(), FeeError>(())
            },
            caller != old(self).admin ==> *final(self) == *old(self),
            caller == old(self).admin ==> {
                let c = old(self).spec_congestion_index(now);
                let base = old(self).default_config.base_fee;
                let adjusted: u128 = if c > 70 {
                    if spec_sat_mul(base, 105) / 100 > old(self).default_config.max_fee {
                        old(self).default_config.max_fee
                    } else {
                        (spec_sat_mul(base, 105) / 100) as u128
                    }
                } else if c < 30 {
                    if spec_sat_mul(base, 95) / 100 < old(self).default_config.min_fee {
                        old(self).default_config.min_fee
                    } else {
                        (spec_sat_mul(base, 95) / 100) as u128
                    }
                } else {
                    base
                };
                final(self).default_config == (FeeConfig {
                    base_fee: adjusted,
                    last_updated: now,
                    ..old(self).default_config
                })
            },
            final(self).admin == old(self).admin,
            final(self).operation_config == old(self).operation_config,
            final(self).recent_ops_count == old(self).recent_ops_count,
            final(self).last_congestion_reset == old(self).last_congestion_reset,
            final(self).auctions == old(self).auctions,
            final(self).auction_bids == old(self).auction_bids,
            final(self).auction_count == old(self).auction_count,
            final(self).fee_treasury == old(self).fee_treasury,
            final(self).pending_rewards == old(self).pending_rewards,
            final(self).reward_records == old(self).reward_records,
            final(self).reward_record_count == old(self).reward_record_count,
            final(self).total_fees_collected == old(self).total_fees_collected,
            final(self).total_distributed == old(self).total_distributed,
            final(self).validators == old(self).validators,
            final(self).validator_share_bp == old(self).validator_share_bp,
            final(self).treasury_share_bp == old(self).treasury_share_bp,
    {
        if caller != self.admin {
            return Err(FeeError::Unauthorized);
        }
        let congestion = self.congestion_index(now);
        let mut config = self.default_config;
        if congestion > 70 {
            let raised = sat_mul(config.base_fee, 105) / 100;
            config.base_fee = if raised > config.max_fee {
                config.max_fee
            } else {
                raised
            };
        } else if congestion < 30 {
            let lowered = sat_mul(config.base_fee, 95) / 100;
            config.base_fee = if lowered < config.min_fee {
                config.min_fee
            } else {
                lowered
            };
        }
        config.last_updated = now;
        self.default_config = config;
        Ok(())
    }

    /// Stores an override fee configuration for one operation kind.
    /// Administrator only; a floor above the ceiling or a base below the
    /// floor is refused.
    pub fn set_operation_config(
        &mut self,
        caller: AccountId,
        operation: FeeOperation,
        config: FeeConfig,
    ) -> (r: Result<(), FeeError>)
        requires
            old(self).wf(),
        ensures
            final(self).wf(),
            r == if caller != old(self).admin {
                Err::<(), FeeError>(FeeError::Unauthorized)
            } else if config.min_fee > config.max_fee || config.base_fee < config.min_fee {
                Err::<(), FeeError>(FeeError::InvalidConfig)
            } else {
                Ok::<(), FeeError>(())
            },
            r is Err ==> *final(self) == *old(self),
            r is Ok ==> final(self).operation_config@ == old(self).operation_config@.insert(
                spec_op_code(operation),
                config,
            ),
            final(self).admin == old(self).admin,
            final(self).default_config == old(self).default_config,
            final(self).auctions == old(self).auctions,
            final(self).fee_treasury == old(self).fee_treasury,
            final(self).validators == old(self).validators,
    {
        if caller != self.admin {
            return Err(FeeError::Unauthorized);
        }
        if config.min_fee > config.max_fee || config.base_fee < config.min_fee {
            return Err(FeeError::InvalidConfig);
        }
        let code = op_code(operation);
        self.operation_config.insert(code, config);
        Ok(())
    }

    /// Stores one granted reward under the next record id.
    fn record_reward(&mut self, account: AccountId, amount: u128, reason: RewardReason, now: u64)
        requires
            old(self).reward_record_count < u64::MAX,
        ensures
            final(self).reward_record_count == old(self).reward_record_count + 1,
            final(self).reward_records@ == old(self).reward_records@.insert(
                (old(self).reward_record_count + 1) as u64,
                (RewardRecord { account, amount, reason, timestamp: now }),
            ),
            final(self).admin == old(self).admin,
            final(self).operation_config == old(self).operation_config,
            final(self).default_config == old(self).default_config,
            final(self).recent_ops_count == old(self).recent_ops_count,
            final(self).last_congestion_reset == old(self).last_congestion_reset,
            final(self).auctions == old(self).auctions,
            final(self).auction_bids == old(self).auction_bids,
            final(self).auction_count == old(self).auction_count,
            final(self).fee_treasury == old(self).fee_treasury,
            final(self).pending_rewards == old(self).pending_rewards,
            final(self).total_fees_collected == old(self).total_fees_collected,
            final(self).total_distributed == old(self).total_distributed,
            final(self).validators == old(self).validators,
            final(self).validator_share_bp == old(self).validator_share_bp,
            final(self).treasury_share_bp == old(self).treasury_share_bp,
    {
        self.reward_record_count = self.reward_record_count + 1;
        self.reward_records.insert(
            self.reward_record_count,
            RewardRecord { account, amount, reason, timestamp: now },
        );
    }

    /// The outcome `create_premium_auction` owes: creation always succeeds
    /// and returns the next auction id; the listing fee at the time of the
    /// call goes to the treasury.
    pub open spec fn create_auction_outcome(s: FeeManager) -> Result<u64, FeeError> {
        Ok((s.auction_count + 1) as u64)
    }

    /// Opens a premium listing auction. The caller pays the current listing
    /// fee into the treasury; the auction runs until `now + duration`.
    pub fn create_premium_auction(
        &mut self,
        caller: AccountId,
        now: u64,
        property_id: u64,
        min_bid: u128,
        duration_seconds: u64,
    ) -> (r: Result<u64, FeeError>)
        requires
            old(self).wf(),
            old(self).last_congestion_reset <= now,
            old(self).auction_count < u64::MAX,
        ensures
            final(self).wf(),
            r == Self::create_auction_outcome(*old(self)),
            ({
                let fee = old(self).spec_fee(now, FeeOperation::PremiumListingBid) as u128;
                let id = (old(self).auction_count + 1) as u64;
                &&& final(self).auction_count == id
                &&& final(self).fee_treasury == spec_sat_add(old(self).fee_treasury, fee)
                &&& final(self).total_fees_collected == spec_sat_add(
                    old(self).total_fees_collected,
                    fee,
                )
                &&& final(self).auctions@ == old(self).auctions@.insert(
                    id,
                    (PremiumAuction {
                        property_id,
                        seller: caller,
                        min_bid,
                        current_bid: 0,
                        current_bidder: None,
                        end_time: spec_sat_add_u64(now, duration_seconds),
                        settled: false,
                        fee_paid: fee,
                    }),
                )
            }),
            final(self).admin == old(self).admin,
            final(self).operation_config == old(self).operation_config,
            final(self).default_config == old(self).default_config,
            final(self).recent_ops_count == old(self).recent_ops_count,
            final(self).last_congestion_reset == old(self).last_congestion_reset,
            final(self).auction_bids == old(self).auction_bids,
            final(self).pending_rewards == old(self).pending_rewards,
            final(self).reward_records == old(self).reward_records,
            final(self).reward_record_count == old(self).reward_record_count,
            final(self).total_distributed == old(self).total_distributed,
            final(self).validators == old(self).validators,
            final(self).validator_share_bp == old(self).validator_share_bp,
            final(self).treasury_share_bp == old(self).treasury_share_bp,
    {
        let fee = self.calculate_fee(now, FeeOperation::PremiumListingBid);
        if fee > 0 {
            self.fee_treasury = self.fee_treasury.saturating_add(fee);
            self.total_fees_collected = self.total_fees_collected.saturating_add(fee);
        }
        self.auction_count = self.auction_count + 1;
        let auction_id = self.auction_count;
        let auction = PremiumAuction {
            property_id,
            seller: caller,
            min_bid,
            current_bid: 0,
            current_bidder: None,
            end_time: now.saturating_add(duration_seconds),
            settled: false,
            fee_paid: fee,
        };
        self.auctions.insert(auction_id, auction);
        Ok(auction_id)
    }

    /// The stored auction, if any.
    pub open spec fn spec_auction(self, auction_id: u64) -> Option<PremiumAuction> {
        if self.auctions@.contains_key(auction_id) {
            Some(self.auctions@[auction_id])
        } else {
            None
        }
    }

    /// The outcome `place_bid` owes: the auction must exist, be unsettled
    /// and still running, and the bid must reach the minimum and beat the
    /// standing bid.
    pub open spec fn place_bid_outcome(
        s: FeeManager,
        now: u64,
        auction_id: u64,
        amount: u128,
    ) -> Result<(), FeeError> {
        if s.spec_auction(auction_id) is None {
            Err(FeeError::AuctionNotFound)
        } else if s.spec_auction(auction_id)->Some_0.settled {
            Err(FeeError::AlreadySettled)
        } else if now >= s.spec_auction(auction_id)->Some_0.end_time {
            Err(FeeError::AuctionEnded)
        } else if amount < s.spec_auction(auction_id)->Some_0.min_bid || amount <= s.spec_auction(
            auction_id,
        )->Some_0.current_bid {
            Err(FeeError::BidTooLow)
        } else {
            Ok(())
        }
    }

    /// Places or raises a bid in a running auction.
    pub fn place_bid(&mut self, caller: AccountId, now: u64, auction_id: u64, amount: u128) -> (r:
        Result<(), FeeError>)
        requires
            old(self).wf(),
        ensures
            final(self).wf(),
            r == Self::place_bid_outcome(*old(self), now, auction_id, amount),
            r is Err ==> *final(self) == *old(self),
            r is Ok ==> {
                let a = old(self).spec_auction(auction_id)->Some_0;
                &&& final(self).auctions@ == old(self).auctions@.insert(
                    auction_id,
                    (PremiumAuction { current_bid: amount, current_bidder: Some(caller), ..a }),
                )
                &&& final(self).auction_bids@ == old(self).auction_bids@.insert(
                    spec_key(auction_id, caller),
                    (AuctionBid { bidder: caller, amount, timestamp: now }),
                )
            },
            final(self).admin == old(self).admin,
            final(self).operation_config == old(self).operation_config,
            final(self).default_config == old(self).default_config,
            final(self).recent_ops_count == old(self).recent_ops_count,
            final(self).last_congestion_reset == old(self).last_congestion_reset,
            final(self).auction_count == old(self).auction_count,
            final(self).fee_treasury == old(self).fee_treasury,
            final(self).pending_rewards == old(self).pending_rewards,
            final(self).reward_records == old(self).reward_records,
            final(self).reward_record_count == old(self).reward_record_count,
            final(self).total_fees_collected == old(self).total_fees_collected,
            final(self).total_distributed == old(self).total_distributed,
            final(self).validators == old(self).validators,
            final(self).validator_share_bp == old(self).validator_share_bp,
            final(self).treasury_share_bp == old(self).treasury_share_bp,
    {
        let auction = match self.auctions.get(&auction_id) {
            None => {
                return Err(FeeError::AuctionNotFound);
            },
            Some(a) => *a,
        };
        if auction.settled {
            return Err(FeeError::AlreadySettled);
        }
        if now >= auction.end_time {
            return Err(FeeError::AuctionEnded);
        }
        if amount < auction.min_bid || amount <= auction.current_bid {
            return Err(FeeError::BidTooLow);
        }
        let updated = PremiumAuction {
            current_bid: amount,
            current_bidder: Some(caller),
            ..auction
        };
        self.auctions.insert(auction_id, updated);
        let key = pack_key(auction_id, caller);
        self.auction_bids.insert(key, AuctionBid { bidder: caller, amount, timestamp: now });
        Ok(())
    }

    /// The outcome `settle_auction` owes: the auction must exist, be
    /// unsettled, past its end, and have a bidder.
    pub open spec fn settle_outcome(s: FeeManager, now: u64, auction_id: u64) -> Result<
        (),
        FeeError,
    > {
        if s.spec_auction(auction_id) is None {
            Err(FeeError::AuctionNotFound)
        } else if s.spec_auction(auction_id)->Some_0.settled {
            Err(FeeError::AlreadySettled)
        } else if now < s.spec_auction(auction_id)->Some_0.end_time {
            Err(FeeError::AuctionNotEnded)
        } else if s.spec_auction(auction_id)->Some_0.current_bidder is None {
            Err(FeeError::AuctionNotFound)
        } else {
            Ok(())
        }
    }

    /// Settles an ended auction: the standing bidder wins.
    pub fn settle_auction(&mut self, now: u64, auction_id: u64) -> (r: Result<(), FeeError>)
        requires
            old(self).wf(),
        ensures
            final(self).wf(),
            r == Self::settle_outcome(*old(self), now, auction_id),
            r is Err ==> *final(self) == *old(self),
            r is Ok ==> final(self).auctions@ == old(self).auctions@.insert(
                auction_id,
                (PremiumAuction { settled: true, ..old(self).spec_auction(auction_id)->Some_0 }),
            ),
            final(self).admin == old(self).admin,
            final(self).auction_bids == old(self).auction_bids,
            final(self).auction_count == old(self).auction_count,
            final(self).fee_treasury == old(self).fee_treasury,
            final(self).default_config == old(self).default_config,
            final(self).validators == old(self).validators,
    {
        let auction = match self.auctions.get(&auction_id) {
            None => {
                return Err(FeeError::AuctionNotFound);
            },
            Some(a) => *a,
        };
        if auction.settled {
            return Err(FeeError::AlreadySettled);
        }
        if now < auction.end_time {
            return Err(FeeError::AuctionNotEnded);
        }
        if auction.current_bidder.is_none() {
            return Err(FeeError::AuctionNotFound);
        }
        let updated = PremiumAuction { settled: true, ..auction };
        self.auctions.insert(auction_id, updated);
        Ok(())
    }

    /// Returns the stored auction, if any.
    pub fn get_auction(&self, auction_id: u64) -> (r: Option<PremiumAuction>)
        ensures
            r == self.spec_auction(auction_id),
    {
        match self.auctions.get(&auction_id) {
            Some(a) => Some(*a),
            None => None,
        }
    }

    /// Returns how many auctions have been created.
    pub fn get_auction_count(&self) -> (r: u64)
        ensures
            r == self.auction_count,
    {
        self.auction_count
    }

    /// Adds a validator. Administrator only; adding twice is a no-op.
    pub fn add_validator(&mut self, caller: AccountId, account: AccountId) -> (r: Result<
        (),
        FeeError,
    >)
        requires
            old(self).wf(),
        ensures
            final(self).wf(),
            r == if caller != old(self).admin {
                Err::<(), FeeError>(FeeError::Unauthorized)
            } else {
                Ok::<(), FeeError>(())
            },
            caller != old(self).admin ==> *final(self) == *old(self),
            caller == old(self).admin ==> {
                &&& final(self).spec_is_validator(account)
                &&& forall|a: AccountId|
                    final(self).spec_is_validator(a) == (old(self).spec_is_validator(a) || a
                        == account)
            },
            final(self).admin == old(self).admin,
            final(self).auctions == old(self).auctions,
            final(self).fee_treasury == old(self).fee_treasury,
            final(self).pending_rewards == old(self).pending_rewards,
            final(self).default_config == old(self).default_config,
    {
        if caller != self.admin {
            return Err(FeeError::Unauthorized);
        }
        let mut i: usize = 0;
        while i < self.validators.len()
            invariant
                *self == *old(self),
                old(self).wf(),
                caller == old(self).admin,
                0 <= i <= self.validators@.len(),
                forall|j: int| 0 <= j < i ==> self.validators@[j] != account,
            decreases self.validators@.len() - i,
        {
            if self.validators[i] == account {
                proof {
                    assert(self.validators@.contains(account)) by {
                        assert(self.validators@[i as int] == account);
                    }
                }
                return Ok(());
            }
            i = i + 1;
        }
        self.validators.push(account);
        proof {
            assert forall|a: AccountId|
                self.spec_is_validator(a) == (old(self).spec_is_validator(a) || a == account) by {
                if a == account {
                    assert(self.validators@[self.validators@.len() - 1] == a);
                } else if old(self).spec_is_validator(a) {
                    let j = choose|j: int|
                        0 <= j < old(self).validators@.len() && old(self).validators@[j] == a;
                    assert(self.validators@[j] == a);
                } else {
                    assert forall|j: int|
                        0 <= j < self.validators@.len() implies self.validators@[j] != a by {
                        if j < old(self).validators@.len() {
                            assert(old(self).validators@[j] != a);
                        }
                    }
                }
            }
        }
        Ok(())
    }

    /// Removes a validator. Administrator only; removing a non-member is a
    /// no-op.
    pub fn remove_validator(&mut self, caller: AccountId, account: AccountId) -> (r: Result<
        (),
        FeeError,
    >)
        requires
            old(self).wf(),
        ensures
            final(self).wf(),
            r == if caller != old(self).admin {
                Err::<(), FeeError>(FeeError::Unauthorized)
            } else {
                Ok::<(), FeeError>(())
            },
            caller != old(self).admin ==> *final(self) == *old(self),
            caller == old(self).admin ==> {
                &&& !final(self).spec_is_validator(account)
                &&& forall|a: AccountId|
                    final(self).spec_is_validator(a) == (old(self).spec_is_validator(a) && a
                        != account)
            },
            final(self).admin == old(self).admin,
            final(self).auctions == old(self).auctions,
            final(self).fee_treasury == old(self).fee_treasury,
            final(self).pending_rewards == old(self).pending_rewards,
            final(self).default_config == old(self).default_config,
    {
        if caller != self.admin {
            return Err(FeeError::Unauthorized);
        }
        let mut i: usize = 0;
        while i < self.validators.len()
            invariant
                *self == *old(self),
                old(self).wf(),
                caller == old(self).admin,
                0 <= i <= self.validators@.len(),
                forall|j: int| 0 <= j < i ==> self.validators@[j] != account,
            decreases self.validators@.len() - i,
        {
            if self.validators[i] == account {
                self.validators.remove(i);
                proof {
                    let old_vs = old(self).validators@;
                    let new_vs = self.validators@;
                    assert(new_vs =~= old_vs.subrange(0, i as int) + old_vs.subrange(
                        i as int + 1,
                        old_vs.len() as int,
                    ));
                    assert forall|a: AccountId|
                        self.spec_is_validator(a) == (old(self).spec_is_validator(a) && a
                            != account) by {
                        if self.spec_is_validator(a) {
                            let k = choose|k: int| 0 <= k < new_vs.len() && new_vs[k] == a;
                            if k < i as int {
                                assert(old_vs[k] == a);
                            } else {
                                assert(old_vs[k + 1] == a);
                            }
                        }
                        if old(self).spec_is_validator(a) && a != account {
                            let k = choose|k: int| 0 <= k < old_vs.len() && old_vs[k] == a;
                            if k < i as int {
                                assert(new_vs[k] == a);
                            } else {
                                assert(k != i as int);
                                assert(new_vs[k - 1] == a);
                            }
                        }
                    }
                }
                return Ok(());
            }
            i = i + 1;
        }
        Ok(())
    }

    /// Sets the validator and treasury shares. Administrator only; together
    /// they may not exceed the whole.
    pub fn set_distribution_rates(
        &mut self,
        caller: AccountId,
        validator_share_bp: u32,
        treasury_share_bp: u32,
    ) -> (r: Result<(), FeeError>)
        requires
            old(self).wf(),
        ensures
            final(self).wf(),
            r == if caller != old(self).admin {
                Err::<(), FeeError>(FeeError::Unauthorized)
            } else if validator_share_bp + treasury_share_bp > 10000 {
                Err::<(), FeeError>(FeeError::InvalidConfig)
            } else {
                Ok::<(), FeeError>(())
            },
            r is Err ==> *final(self) == *old(self),
            r is Ok ==> final(self).validator_share_bp == validator_share_bp && final(self).treasury_share_bp == treasury_share_bp,
            final(self).admin == old(self).admin,
            final(self).auctions == old(self).auctions,
            final(self).fee_treasury == old(self).fee_treasury,
            final(self).pending_rewards == old(self).pending_rewards,
            final(self).default_config == old(self).default_config,
            final(self).validators == old(self).validators,
    {
        if caller != self.admin {
            return Err(FeeError::Unauthorized);
        }
        if validator_share_bp > 10000 || treasury_share_bp > 10000 - validator_share_bp {
            return Err(FeeError::InvalidConfig);
        }
        self.validator_share_bp = validator_share_bp;
        self.treasury_share_bp = treasury_share_bp;
        Ok(())
    }

    /// Returns the rewards an account may claim.
    pub fn pending_reward(&self, account: AccountId) -> (r: u128)
        ensures
            r == self.spec_pending_reward(account),
    {
        match self.pending_rewards.get(&account) {
            Some(v) => *v,
            None => 0,
        }
    }

    /// Pays out the caller's pending rewards: the claim is cleared and the
    /// amount returned. Transferring the coins is the surrounding ledger's
    /// part.
    pub fn claim_rewards(&mut self, caller: AccountId) -> (r: Result<u128, FeeError>)
        requires
            old(self).wf(),
        ensures
            final(self).wf(),
            r == Ok::<u128, FeeError>(old(self).spec_pending_reward(caller)),
            final(self).pending_rewards@ == old(self).pending_rewards@.remove(caller),
            final(self).spec_pending_reward(caller) == 0,
            final(self).admin == old(self).admin,
            final(self).auctions == old(self).auctions,
            final(self).fee_treasury == old(self).fee_treasury,
            final(self).reward_records == old(self).reward_records,
            final(self).total_distributed == old(self).total_distributed,
            final(self).validators == old(self).validators,
            final(self).default_config == old(self).default_config,
    {
        let amount = self.pending_reward(caller);
        if amount == 0 {
            self.pending_rewards.remove(&caller);
            proof {
                assert(self.pending_rewards@ =~= old(self).pending_rewards@.remove(caller));
            }
            return Ok(0);
        }
        self.pending_rewards.remove(&caller);
        Ok(amount)
    }

    /// Returns the administrator account.
    pub fn admin(&self) -> (r: AccountId)
        ensures
            r == self.admin,
    {
        self.admin
    }

    /// Returns the default fee configuration.
    pub fn default_config(&self) -> (r: FeeConfig)
        ensures
            r == self.default_config,
    {
        self.default_config
    }

    /// Returns the undistributed treasury.
    pub fn fee_treasury(&self) -> (r: u128)
        ensures
            r == self.fee_treasury,
    {
        self.fee_treasury
    }
}

/// The reward-side books of the fee manager, as one spec-level value.
pub struct RewardBooks {
    /// Claimable rewards per account.
    pub pending: Map<u64, u128>,
    /// Granted rewards by record id.
    pub records: Map<u64, RewardRecord>,
    /// How many rewards have been recorded.
    pub count: u64,
    /// All rewards ever distributed.
    pub distributed: u128,
}

impl FeeManager {
    /// The reward books after paying each listed validator the same amount,
    /// in order: each field folded over the list.
    pub open spec fn spec_distribute(books: RewardBooks, vals: Seq<AccountId>, per: u128, now: u64)
        -> RewardBooks
        decreases vals.len(),
    {
        if vals.len() == 0 {
            books
        } else {
            let a = vals[0];
            let cur: u128 = if books.pending.contains_key(a) {
                books.pending[a]
            } else {
                0
            };
            Self::spec_distribute(
                RewardBooks {
                    pending: books.pending.insert(a, spec_sat_add(cur, per)),
                    records: books.records.insert(
                        (books.count + 1) as u64,
                        RewardRecord {
                            account: a,
                            amount: per,
                            reason: RewardReason::ValidatorReward,
                            timestamp: now,
                        },
                    ),
                    count: (books.count + 1) as u64,
                    distributed: spec_sat_add(books.distributed, per),
                },
                vals.skip(1),
                per,
                now,
            )
        }
    }

    /// True when a distribution run actually pays the validators: there is a
    /// treasury, a validator share, and someone to pay.
    pub open spec fn spec_distribution_pays(s: FeeManager) -> bool {
        &&& s.fee_treasury > 0
        &&& s.validators@.len() > 0
        &&& spec_sat_mul(s.fee_treasury, s.validator_share_bp as u128) / crate::fees::BASIS_POINTS
            > 0
    }

    /// The per-validator amount of a distribution run.
    pub open spec fn spec_per_validator(s: FeeManager) -> u128 {
        (spec_sat_mul(s.fee_treasury, s.validator_share_bp as u128) / crate::fees::BASIS_POINTS
            / s.validators@.len() as u128) as u128
    }

    /// Distributes the treasury: the validator share is split evenly over
    /// the validators as claimable rewards, one reward record per validator,
    /// and the treasury empties. Administrator only.
    pub fn distribute_fees(&mut self, caller: AccountId, now: u64) -> (r: Result<(), FeeError>)
        requires
            old(self).wf(),
            old(self).reward_record_count + old(self).validators@.len() <= u64::MAX,
        ensures
            final(self).wf(),
            r == if caller != old(self).admin {
                Err::<(), FeeError>(FeeError::Unauthorized)
            } else {
                Ok::<(), FeeError>(())
            },
            r is Err ==> *final(self) == *old(self),
            (r is Ok && old(self).fee_treasury == 0) ==> *final(self) == *old(self),
            (r is Ok && old(self).fee_treasury > 0) ==> {
                &&& final(self).fee_treasury == 0
                &&& Self::spec_distribution_pays(*old(self)) ==> ({
                    let d = Self::spec_distribute(
                        (RewardBooks {
                            pending: old(self).pending_rewards@,
                            records: old(self).reward_records@,
                            count: old(self).reward_record_count,
                            distributed: old(self).total_distributed,
                        }),
                        old(self).validators@,
                        Self::spec_per_validator(*old(self)),
                        now,
                    );
                    &&& final(self).pending_rewards@ == d.pending
                    &&& final(self).reward_records@ == d.records
                    &&& final(self).reward_record_count == d.count
                    &&& final(self).total_distributed == d.distributed
                })
                &&& !Self::spec_distribution_pays(*old(self)) ==> {
                    &&& final(self).pending_rewards == old(self).pending_rewards
                    &&& final(self).reward_records == old(self).reward_records
                    &&& final(self).reward_record_count == old(self).reward_record_count
                    &&& final(self).total_distributed == old(self).total_distributed
                }
            },
            final(self).admin == old(self).admin,
            final(self).operation_config == old(self).operation_config,
            final(self).default_config == old(self).default_config,
            final(self).recent_ops_count == old(self).recent_ops_count,
            final(self).last_congestion_reset == old(self).last_congestion_reset,
            final(self).auctions == old(self).auctions,
            final(self).auction_bids == old(self).auction_bids,
            final(self).auction_count == old(self).auction_count,
            final(self).total_fees_collected == old(self).total_fees_collected,
            final(self).validators == old(self).validators,
            final(self).validator_share_bp == old(self).validator_share_bp,
            final(self).treasury_share_bp == old(self).treasury_share_bp,
    {
        if caller != self.admin {
            return Err(FeeError::Unauthorized);
        }
        let amount = self.fee_treasury;
        if amount == 0 {
            return Ok(());
        }
        let validator_total = sat_mul(amount, self.validator_share_bp as u128)
            / crate::fees::BASIS_POINTS;
        let validator_count = self.validators.len();
        if validator_count > 0 && validator_total > 0 {
            let per_validator = validator_total / (validator_count as u128);
            let mut i: usize = 0;
            proof {
                assert(old(self).validators@.skip(0) =~= old(self).validators@);
            }
            while i < validator_count
                invariant
                    old(self).wf(),
                    caller == old(self).admin,
                    0 <= i <= old(self).validators@.len(),
                    validator_count == old(self).validators@.len(),
                    self.validators == old(self).validators,
                    self.reward_record_count + (old(self).validators@.len() - i) <= u64::MAX,
                    Self::spec_distribute(
                        (RewardBooks {
                            pending: old(self).pending_rewards@,
                            records: old(self).reward_records@,
                            count: old(self).reward_record_count,
                            distributed: old(self).total_distributed,
                        }),
                        old(self).validators@,
                        per_validator,
                        now,
                    ) == Self::spec_distribute(
                        (RewardBooks {
                            pending: self.pending_rewards@,
                            records: self.reward_records@,
                            count: self.reward_record_count,
                            distributed: self.total_distributed,
                        }),
                        old(self).validators@.skip(i as int),
                        per_validator,
                        now,
                    ),
                    self.admin == old(self).admin,
                    self.operation_config == old(self).operation_config,
                    self.default_config == old(self).default_config,
                    self.recent_ops_count == old(self).recent_ops_count,
                    self.last_congestion_reset == old(self).last_congestion_reset,
                    self.auctions == old(self).auctions,
                    self.auction_bids == old(self).auction_bids,
                    self.auction_count == old(self).auction_count,
                    self.fee_treasury == old(self).fee_treasury,
                    self.total_fees_collected == old(self).total_fees_collected,
                    self.validator_share_bp == old(self).validator_share_bp,
                    self.treasury_share_bp == old(self).treasury_share_bp,
                decreases validator_count - i,
            {
                let acc = self.validators[i];
                let current = self.pending_reward(acc);
                self.pending_rewards.insert(acc, current.saturating_add(per_validator));
                self.record_reward(acc, per_validator, RewardReason::ValidatorReward, now);
                self.total_distributed = self.total_distributed.saturating_add(per_validator);
                proof {
                    assert(old(self).validators@.skip(i as int)[0] == old(self).validators@[i as int]);
                    assert(old(self).validators@.skip(i as int).skip(1) =~= old(self).validators@.skip(i as int + 1));
                }
                i = i + 1;
            }
            proof {
                assert(old(self).validators@.skip(validator_count as int).len() == 0);
            }
        }
        self.fee_treasury = 0;
        Ok(())
    }

    /// How many auctions with ids up to the bound are still running at a
    /// time: created, unsettled and before their end.
    pub open spec fn spec_active_auctions(self, now: u64, upto: int) -> int
        decreases upto,
    {
        if upto <= 0 {
            0
        } else {
            self.spec_active_auctions(now, upto - 1) + (
            if self.auctions@.contains_key(upto as u64) && !self.auctions@[upto as u64].settled
                && now < self.auctions@[upto as u64].end_time {
                1int
            } else {
                0int
            })
        }
    }

    /// Assembles the transparency report: the default configuration, the
    /// congestion index, the recommended registration fee, the running
    /// totals, and how many auctions are still running.
    pub fn get_fee_report(&self, now: u64) -> (r: FeeReport)
        requires
            self.wf(),
            self.last_congestion_reset <= now,
            self.auction_count < u32::MAX,
        ensures
            r.config == self.default_config,
            r.congestion_index == self.spec_congestion_index(now),
            r.recommended_fee == self.spec_fee(now, FeeOperation::RegisterProperty),
            r.total_fees_collected == self.total_fees_collected,
            r.total_distributed == self.total_distributed,
            r.operation_count_24h == self.recent_ops_count,
            r.premium_auctions_active == self.spec_active_auctions(
                now,
                self.auction_count as int,
            ),
            r.timestamp == now,
    {
        let recommended = self.calculate_fee(now, FeeOperation::RegisterProperty);
        let mut active_auctions: u32 = 0;
        let mut id: u64 = 1;
        while id <= self.auction_count
            invariant
                self.wf(),
                self.auction_count < u32::MAX,
                1 <= id <= self.auction_count + 1,
                active_auctions == self.spec_active_auctions(now, id - 1),
                active_auctions < id,
            decreases self.auction_count + 1 - id,
        {
            match self.auctions.get(&id) {
                Some(a) => {
                    if !a.settled && now < a.end_time {
                        active_auctions = active_auctions + 1;
                    }
                },
                None => {},
            }
            id = id + 1;
        }
        FeeReport {
            config: self.default_config,
            congestion_index: self.congestion_index(now),
            recommended_fee: recommended,
            total_fees_collected: self.total_fees_collected,
            total_distributed: self.total_distributed,
            operation_count_24h: self.recent_ops_count as u64,
            premium_auctions_active: active_auctions,
            timestamp: now,
        }
    }

    /// Assembles a fee estimate with an optimization hint: the congestion
    /// band reads "low" under thirty-three, "high" from sixty-six, and
    /// "medium" between.
    pub fn get_fee_estimate(&self, now: u64, operation: FeeOperation) -> (r:
        crate::fees::FeeEstimate)
        requires
            self.wf(),
            self.last_congestion_reset <= now,
        ensures
            r.operation == operation,
            r.estimated_fee == self.spec_fee(now, operation),
            r.min_fee == self.spec_config_for(operation).min_fee,
            r.max_fee == self.spec_config_for(operation).max_fee,
            self.spec_congestion_index(now) < 33 ==> r.congestion_level@ == "low"@,
            33 <= self.spec_congestion_index(now) < 66 ==> r.congestion_level@ == "medium"@,
            66 <= self.spec_congestion_index(now) ==> r.congestion_level@ == "high"@,
            r.recommendation@.len() > 0,
    {
        let code = op_code(operation);
        let config = match self.operation_config.get(&code) {
            Some(c) => *c,
            None => self.default_config,
        };
        let congestion = self.congestion_index(now);
        let demand_bp = self.demand_factor_bp(now);
        let estimated = compute_dynamic_fee(&config, congestion, demand_bp);
        let congestion_level = if congestion < 33 {
            String::from_str("low")
        } else if congestion < 66 {
            String::from_str("medium")
        } else {
            String::from_str("high")
        };
        let recommendation = if congestion >= 70 {
            String::from_str("Consider batching operations or submitting during off-peak.")
        } else if congestion < 30 {
            String::from_str("Good time to submit; fees are below average.")
        } else {
            String::from_str("Fees are at typical levels.")
        };
        proof {
            reveal_strlit("Consider batching operations or submitting during off-peak.");
            reveal_strlit("Good time to submit; fees are below average.");
            reveal_strlit("Fees are at typical levels.");
        }
        crate::fees::FeeEstimate {
            operation,
            estimated_fee: estimated,
            min_fee: config.min_fee,
            max_fee: config.max_fee,
            congestion_level,
            recommendation,
        }
    }

    /// Lists fee-optimization hints for the current congestion level, ending
    /// with two general ones.
    pub fn get_fee_recommendations(&self, now: u64) -> (r: Vec<String>)
        requires
            self.wf(),
            self.last_congestion_reset <= now,
        ensures
            self.spec_congestion_index(now) >= 70 ==> r@.len() == 4,
            self.spec_congestion_index(now) < 30 ==> r@.len() == 3,
            30 <= self.spec_congestion_index(now) < 70 ==> r@.len() == 2,
    {
        let mut rec: Vec<String> = Vec::new();
        let c = self.congestion_index(now);
        if c >= 70 {
            rec.push(String::from_str("High congestion: use batch operations to reduce total fee."));
            rec.push(String::from_str("Consider submitting during off-peak hours."));
        } else if c < 30 {
            rec.push(String::from_str("Low congestion: current fees are favorable."));
        }
        rec.push(String::from_str("Premium listings: use auctions for better price discovery."));
        rec.push(String::from_str("Check get_fee_estimate before each operation type."));
        rec
    }
}

} // verus!
