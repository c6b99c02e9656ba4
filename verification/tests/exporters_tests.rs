use trust_cli::decimal::Decimal;
use trust_cli::exporters::{
    risk_free_rate_or_default, AdvancedMetrics, MetricsExporter, Trade, TradeStatus,
};

fn d(mantissa: i128, scale: u32) -> Decimal {
    Decimal::from_i128_with_scale(mantissa, scale)
}

fn create_test_trade(performance: Decimal, status: TradeStatus) -> Trade {
    Trade {
        status,
        total_performance: performance,
    }
}

fn sample_metrics() -> AdvancedMetrics {
    AdvancedMetrics {
        profit_factor: Some(d(4, 0)),
        expectancy: d(45, 0),
        win_rate: d(60, 0),
        average_r_multiple: d(125, 2),
        top_20pct_profit_share_percentage: d(3333, 2),
        trade_share_to_reach_80pct_profit_percentage: d(60, 0),
        sharpe_ratio: None,
        adjusted_sharpe_ratio: None,
        sortino_ratio: None,
        adjusted_sortino_ratio: None,
        calmar_ratio: None,
        value_at_risk_95: Some(d(-5, 1)),
        kelly_criterion: Some(d(45, 2)),
        max_consecutive_losses: 2,
        max_consecutive_wins: 3,
        ulcer_index: None,
    }
}

#[test]
fn test_csv_export_format() {
    let result = MetricsExporter::to_csv(&sample_metrics());

    assert!(result.starts_with("metric_category,metric_name,value,unit\n"));
    assert!(result.contains("trade_quality,expectancy,"));
    assert!(result.contains("trade_quality,top_20pct_profit_share_percentage,"));
    assert!(result.contains("statistical,max_consecutive"));
}

#[test]
fn csv_rows_have_fixed_decimals_and_skip_missing_metrics() {
    let result = MetricsExporter::to_csv(&sample_metrics());
    let expected = "metric_category,metric_name,value,unit\n\
trade_quality,profit_factor,4.0000,ratio\n\
trade_quality,expectancy,45.0000,currency\n\
trade_quality,win_rate,60.00,percentage\n\
trade_quality,average_r_multiple,1.2500,ratio\n\
trade_quality,top_20pct_profit_share_percentage,33.3300,percentage\n\
trade_quality,trade_share_to_reach_80pct_profit_percentage,60.0000,percentage\n\
statistical,value_at_risk_95,-0.5000,percentage\n\
statistical,kelly_criterion,0.4500,ratio\n\
statistical,max_consecutive_losses,2,count\n\
statistical,max_consecutive_wins,3,count\n";
    assert_eq!(result, expected);
}

#[test]
fn filter_keeps_closed_trades_in_order() {
    let trades = vec![
        create_test_trade(d(100, 0), TradeStatus::ClosedTarget),
        create_test_trade(d(7, 0), TradeStatus::Filled),
        create_test_trade(d(-50, 0), TradeStatus::ClosedStopLoss),
        create_test_trade(d(0, 0), TradeStatus::Canceled),
    ];
    let closed = MetricsExporter::filter_closed_trades(&trades);
    assert_eq!(closed.len(), 2);
    assert_eq!(closed[0].status, TradeStatus::ClosedTarget);
    assert_eq!(closed[0].total_performance.mantissa(), 100);
    assert_eq!(closed[1].status, TradeStatus::ClosedStopLoss);
    assert_eq!(closed[1].total_performance.mantissa(), -50);
}

#[test]
fn filter_of_no_trades_is_empty() {
    let closed = MetricsExporter::filter_closed_trades(&[]);
    assert!(closed.is_empty());
}

#[test]
fn risk_free_rate_defaults_to_five_percent() {
    let default = risk_free_rate_or_default(None);
    assert_eq!((default.mantissa(), default.scale()), (5, 2));
    let given = risk_free_rate_or_default(Some(d(3, 2)));
    assert_eq!((given.mantissa(), given.scale()), (3, 2));
}
