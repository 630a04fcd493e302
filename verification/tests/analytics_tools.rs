use propchain::AnalyticsDashboard;
use propchain::Fractional;
use propchain::MarketTrend;
use propchain::PortfolioItem;

#[test]
fn market_metrics_defaults() {
    let contract = AnalyticsDashboard::new(1);
    let metrics = contract.get_market_metrics();
    assert_eq!(metrics.average_price, 0);
    assert_eq!(metrics.total_volume, 0);
    assert_eq!(metrics.properties_listed, 0);
}

#[test]
fn update_market_metrics_works() {
    let mut contract = AnalyticsDashboard::new(1);
    contract.update_market_metrics(1, 1000, 5000, 10);
    let metrics = contract.get_market_metrics();
    assert_eq!(metrics.average_price, 1000);
    assert_eq!(metrics.total_volume, 5000);
    assert_eq!(metrics.properties_listed, 10);
}

#[test]
fn add_market_trend_works() {
    let mut contract = AnalyticsDashboard::new(1);
    let trend = MarketTrend {
        period_start: 100,
        period_end: 200,
        price_change_percentage: 5,
        volume_change_percentage: 10,
    };
    contract.add_market_trend(1, trend);
    let trends = contract.get_historical_trends();
    assert_eq!(trends.len(), 1);
    assert_eq!(trends[0].price_change_percentage, 5);
}

#[test]
fn generate_market_report_works() {
    let contract = AnalyticsDashboard::new(1);
    let report = contract.generate_market_report(42);
    assert_eq!(report.metrics.average_price, 0);
    assert_eq!(report.generated_at, 42);
    assert!(report.insights.contains("Gas optimization"));
    assert_eq!(report.trend.period_start, 0);
}

#[test]
fn aggregate_portfolio_prices_items() {
    let mut book = Fractional::new();
    book.set_last_price(2, 7);
    assert_eq!(book.get_last_price(2), Some(7));
    assert_eq!(book.get_last_price(3), None);
    let items = vec![
        // A given price wins over the book.
        PortfolioItem { token_id: 1, shares: 10, price_per_share: 3 },
        // A zero price falls back to the book.
        PortfolioItem { token_id: 2, shares: 5, price_per_share: 0 },
        // Unknown tokens value at zero.
        PortfolioItem { token_id: 3, shares: 100, price_per_share: 0 },
    ];
    let agg = book.aggregate_portfolio(items);
    assert_eq!(agg.total_value, 10 * 3 + 5 * 7);
    assert_eq!(agg.positions, vec![(1, 10, 3), (2, 5, 7), (3, 100, 0)]);
}

#[test]
fn summarize_tax_sums_pairs() {
    let book = Fractional::new();
    let report = book.summarize_tax(vec![(1, 100), (2, 50)], vec![(1, 1000)]);
    assert_eq!(report.total_dividends, 150);
    assert_eq!(report.total_proceeds, 1000);
    assert_eq!(report.transactions, 3);
}
