use vstd::prelude::*;
use vstd::hash_map::HashMapWithView;

use crate::account::AccountId;

verus! {

broadcast use vstd::std_specs::hash::group_hash_axioms;

/// Aggregated market figures over all listed properties.
#[derive(Debug, Clone, Copy, PartialEq, Eq, Structural)]
pub struct MarketMetrics {
    pub average_price: u128,
    pub total_volume: u128,
    pub properties_listed: u64,
}

/// Portfolio figures of one owner.
#[derive(Debug, Clone, Copy, PartialEq, Eq, Structural)]
pub struct PortfolioPerformance {
    pub total_value: u128,
    pub property_count: u64,
    pub recent_transactions: u64,
}

/// Price and volume movement over one period.
#[derive(Debug, Clone, Copy, PartialEq, Eq, Structural)]
pub struct MarketTrend {
    pub period_start: u64,
    pub period_end: u64,
    pub price_change_percentage: i32,
    pub volume_change_percentage: i32,
}

/// One position in a share portfolio.
#[derive(Debug, Clone, Copy, PartialEq, Eq, Structural)]
pub struct PortfolioItem {
    pub token_id: u64,
    pub shares: u128,
    pub price_per_share: u128,
}

/// Accumulated taxable figures of one account.
#[derive(Debug, Clone, Copy, PartialEq, Eq, Structural)]
pub struct TaxReport {
    pub total_dividends: u128,
    pub total_proceeds: u128,
    pub transactions: u64,
}


/// A whole portfolio priced: the summed value and one priced position per
/// item.
#[derive(Debug, PartialEq)]
pub struct PortfolioAggregation {
    pub total_value: u128,
    pub positions: Vec<(u64, u128, u128)>,
}

/// Behavioural figures of one account.
#[derive(Debug, PartialEq)]
pub struct UserBehavior {
    pub account: AccountId,
    pub total_interactions: u64,
    pub preferred_property_type: String,
    pub risk_score: u8,
}

/// A generated market report.
#[derive(Debug, PartialEq)]
pub struct MarketReport {
    pub generated_at: u64,
    pub metrics: MarketMetrics,
    pub trend: MarketTrend,
    pub insights: String,
}

/// Prices share positions against a book of last trade prices.
pub struct Fractional {
    /// The latest known price per share of each token.
    pub last_prices: HashMapWithView<u64, u128>,
}

/// The price an item is valued at: its own price when one is given, else the
/// book's last price for the token, else zero.
pub open spec fn spec_item_price(prices: Map<u64, u128>, it: PortfolioItem) -> u128 {
    if it.price_per_share > 0 {
        it.price_per_share
    } else if prices.contains_key(it.token_id) {
        prices[it.token_id]
    } else {
        0
    }
}

/// The summed value of the items, each priced as above, saturating.
pub open spec fn spec_portfolio_total(prices: Map<u64, u128>, items: Seq<PortfolioItem>) -> u128
    decreases items.len(),
{
    if items.len() == 0 {
        0
    } else {
        crate::shares::spec_sat_add(
            spec_portfolio_total(prices, items.drop_last()),
            crate::shares::spec_sat_mul(
                spec_item_price(prices, items.last()),
                items.last().shares,
            ),
        )
    }
}

/// The summed second components of a list of pairs, saturating.
pub open spec fn spec_pair_sum(pairs: Seq<(u64, u128)>) -> u128
    decreases pairs.len(),
{
    if pairs.len() == 0 {
        0
    } else {
        crate::shares::spec_sat_add(spec_pair_sum(pairs.drop_last()), pairs.last().1)
    }
}

impl Fractional {
    /// An empty price book.
    pub fn new() -> (r: Self)
        ensures
            r.last_prices@ == Map::<u64, u128>::empty(),
    {
        Fractional { last_prices: HashMapWithView::new() }
    }

    /// Records the latest price per share of a token.
    pub fn set_last_price(&mut self, token_id: u64, price_per_share: u128)
        ensures
            final(self).last_prices@ == old(self).last_prices@.insert(token_id, price_per_share),
    {
        self.last_prices.insert(token_id, price_per_share);
    }

    /// Looks the latest price of a token up.
    pub fn get_last_price(&self, token_id: u64) -> (r: Option<u128>)
        ensures
            r == if self.last_prices@.contains_key(token_id) {
                Some(self.last_prices@[token_id])
            } else {
                None::<u128>
            },
    {
        match self.last_prices.get(&token_id) {
            Some(p) => Some(*p),
            None => None,
        }
    }

    /// Prices a portfolio: each item at its own price or the book's, the
    /// total saturating.
    pub fn aggregate_portfolio(&self, items: Vec<PortfolioItem>) -> (r: PortfolioAggregation)
        ensures
            r.total_value == spec_portfolio_total(self.last_prices@, items@),
            r.positions@.len() == items@.len(),
            forall|i: int|
                0 <= i < items@.len() ==> r.positions@[i] == (
                items@[i].token_id,
                items@[i].shares,
                spec_item_price(self.last_prices@, items@[i]),
            ),
    {
        let mut total: u128 = 0;
        let mut positions: Vec<(u64, u128, u128)> = Vec::new();
        let mut i: usize = 0;
        while i < items.len()
            invariant
                0 <= i <= items@.len(),
                total == spec_portfolio_total(self.last_prices@, items@.subrange(0, i as int)),
                positions@.len() == i,
                forall|j: int|
                    0 <= j < i ==> positions@[j] == (
                    items@[j].token_id,
                    items@[j].shares,
                    spec_item_price(self.last_prices@, items@[j]),
                ),
            decreases items@.len() - i,
        {
            let it = items[i];
            let price = if it.price_per_share > 0 {
                it.price_per_share
            } else {
                match self.last_prices.get(&it.token_id) {
                    Some(p) => *p,
                    None => 0,
                }
            };
            let value = crate::shares::sat_mul(price, it.shares);
            total = total.saturating_add(value);
            positions.push((it.token_id, it.shares, price));
            i = i + 1;
            proof {
                assert(items@.subrange(0, i as int).drop_last() =~= items@.subrange(
                    0,
                    i as int - 1,
                ));
                assert(items@.subrange(0, i as int).last() == items@[i - 1]);
            }
        }
        proof {
            assert(items@.subrange(0, items@.len() as int) =~= items@);
        }
        PortfolioAggregation { total_value: total, positions }
    }

    /// Sums dividends and sale proceeds into a tax report, counting one
    /// transaction per listed pair.
    pub fn summarize_tax(&self, dividends: Vec<(u64, u128)>, proceeds: Vec<(u64, u128)>) -> (r:
        TaxReport)
        requires
            dividends@.len() + proceeds@.len() <= u64::MAX,
        ensures
            r.total_dividends == spec_pair_sum(dividends@),
            r.total_proceeds == spec_pair_sum(proceeds@),
            r.transactions == dividends@.len() + proceeds@.len(),
    {
        let mut total_dividends: u128 = 0;
        let mut i: usize = 0;
        while i < dividends.len()
            invariant
                0 <= i <= dividends@.len(),
                total_dividends == spec_pair_sum(dividends@.subrange(0, i as int)),
            decreases dividends@.len() - i,
        {
            total_dividends = total_dividends.saturating_add(dividends[i].1);
            i = i + 1;
            proof {
                assert(dividends@.subrange(0, i as int).drop_last() =~= dividends@.subrange(
                    0,
                    i as int - 1,
                ));
                assert(dividends@.subrange(0, i as int).last() == dividends@[i - 1]);
            }
        }
        let mut total_proceeds: u128 = 0;
        let mut j: usize = 0;
        while j < proceeds.len()
            invariant
                0 <= j <= proceeds@.len(),
                total_proceeds == spec_pair_sum(proceeds@.subrange(0, j as int)),
            decreases proceeds@.len() - j,
        {
            total_proceeds = total_proceeds.saturating_add(proceeds[j].1);
            j = j + 1;
            proof {
                assert(proceeds@.subrange(0, j as int).drop_last() =~= proceeds@.subrange(
                    0,
                    j as int - 1,
                ));
                assert(proceeds@.subrange(0, j as int).last() == proceeds@[j - 1]);
            }
        }
        proof {
            assert(dividends@.subrange(0, dividends@.len() as int) =~= dividends@);
            assert(proceeds@.subrange(0, proceeds@.len() as int) =~= proceeds@);
        }
        TaxReport {
            total_dividends,
            total_proceeds,
            transactions: (dividends.len() as u64) + (proceeds.len() as u64),
        }
    }
}

/// Aggregated market metrics and historical trends, kept for dashboards.
pub struct AnalyticsDashboard {
    /// The administrator account.
    pub admin: AccountId,
    /// The latest aggregated market figures.
    pub current_metrics: MarketMetrics,
    /// Recorded trends, numbered from zero.
    pub historical_trends: HashMapWithView<u64, MarketTrend>,
    /// How many trends have been recorded.
    pub trend_count: u64,
}

/// A trend of all zeroes, reported while no trend is recorded.
pub open spec fn spec_empty_trend() -> MarketTrend {
    MarketTrend {
        period_start: 0,
        period_end: 0,
        price_change_percentage: 0,
        volume_change_percentage: 0,
    }
}

impl AnalyticsDashboard {
    /// Every recorded trend number is present.
    pub open spec fn wf(self) -> bool {
        forall|i: u64| i < self.trend_count ==> self.historical_trends@.contains_key(i)
    }

    /// Creates an empty dashboard. The creating account becomes
    /// administrator.
    pub fn new(caller: AccountId) -> (r: Self)
        ensures
            r.wf(),
            r.admin == caller,
            r.current_metrics == (MarketMetrics {
                average_price: 0,
                total_volume: 0,
                properties_listed: 0,
            }),
            r.trend_count == 0,
            r.historical_trends@ == Map::<u64, MarketTrend>::empty(),
    {
        AnalyticsDashboard {
            admin: caller,
            current_metrics: MarketMetrics {
                average_price: 0,
                total_volume: 0,
                properties_listed: 0,
            },
            historical_trends: HashMapWithView::new(),
            trend_count: 0,
        }
    }

    /// Returns the latest aggregated market figures.
    pub fn get_market_metrics(&self) -> (r: MarketMetrics)
        ensures
            r == self.current_metrics,
    {
        self.current_metrics
    }

    /// Replaces the aggregated market figures. The caller must be the
    /// administrator.
    pub fn update_market_metrics(
        &mut self,
        caller: AccountId,
        average_price: u128,
        total_volume: u128,
        properties_listed: u64,
    )
        requires
            old(self).wf(),
            caller == old(self).admin,
        ensures
            final(self).wf(),
            final(self).current_metrics == (MarketMetrics {
                average_price,
                total_volume,
                properties_listed,
            }),
            final(self).admin == old(self).admin,
            final(self).historical_trends == old(self).historical_trends,
            final(self).trend_count == old(self).trend_count,
    {
        self.current_metrics = MarketMetrics { average_price, total_volume, properties_listed };
    }

    /// Appends one trend to the history. The caller must be the
    /// administrator.
    pub fn add_market_trend(&mut self, caller: AccountId, trend: MarketTrend)
        requires
            old(self).wf(),
            caller == old(self).admin,
            old(self).trend_count < u64::MAX,
        ensures
            final(self).wf(),
            final(self).trend_count == old(self).trend_count + 1,
            final(self).historical_trends@ == old(self).historical_trends@.insert(
                old(self).trend_count,
                trend,
            ),
            final(self).admin == old(self).admin,
            final(self).current_metrics == old(self).current_metrics,
    {
        self.historical_trends.insert(self.trend_count, trend);
        self.trend_count = self.trend_count + 1;
    }

    /// Returns the recorded trends, oldest first.
    pub fn get_historical_trends(&self) -> (r: Vec<MarketTrend>)
        requires
            self.wf(),
        ensures
            r@.len() == self.trend_count,
            forall|i: int|
                0 <= i < self.trend_count ==> r@[i] == self.historical_trends@[i as u64],
    {
        let mut trends: Vec<MarketTrend> = Vec::new();
        let mut i: u64 = 0;
        while i < self.trend_count
            invariant
                self.wf(),
                0 <= i <= self.trend_count,
                trends@.len() == i,
                forall|j: int| 0 <= j < i ==> trends@[j] == self.historical_trends@[j as u64],
            decreases self.trend_count - i,
        {
            match self.historical_trends.get(&i) {
                Some(t) => trends.push(*t),
                None => {
                    proof {
                        assert(self.historical_trends@.contains_key(i));
                    }
                },
            }
            i = i + 1;
        }
        trends
    }

    /// Assembles a market report: the current metrics and the latest trend,
    /// or a zeroed one while nothing is recorded.
    pub fn generate_market_report(&self, timestamp: u64) -> (r: MarketReport)
        requires
            self.wf(),
        ensures
            r.generated_at == timestamp,
            r.metrics == self.current_metrics,
            self.trend_count > 0 ==> r.trend == self.historical_trends@[(self.trend_count
                - 1) as u64],
            self.trend_count == 0 ==> r.trend == spec_empty_trend(),
            r.insights@.len() > 0,
    {
        let latest_trend = if self.trend_count > 0 {
            match self.historical_trends.get(&(self.trend_count - 1)) {
                Some(t) => *t,
                None => MarketTrend {
                    period_start: 0,
                    period_end: 0,
                    price_change_percentage: 0,
                    volume_change_percentage: 0,
                },
            }
        } else {
            MarketTrend {
                period_start: 0,
                period_end: 0,
                price_change_percentage: 0,
                volume_change_percentage: 0,
            }
        };
        let insights = String::from_str(
            "Market is relatively stable. Gas optimization is recommended.",
        );
        proof {
            reveal_strlit("Market is relatively stable. Gas optimization is recommended.");
        }
        MarketReport { generated_at: timestamp, metrics: self.current_metrics, trend: latest_trend, insights }
    }

    /// Returns standing advice on keeping resource usage down.
    pub fn get_gas_optimization_recommendations(&self) -> (r: String)
        ensures
            r@.len() > 0,
    {
        let advice = String::from_str(
            "Use batched operations and limit nested looping over dynamic collections. Store large items in keyed maps instead of vectors.",
        );
        proof {
            reveal_strlit(
                "Use batched operations and limit nested looping over dynamic collections. Store large items in keyed maps instead of vectors.",
            );
        }
        advice
    }
}

} // verus!
