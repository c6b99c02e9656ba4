//! Advanced trading metrics as CSV, and the trades they are computed from.

use vstd::prelude::*;
use crate::decimal::{display_fits, display_spec, Decimal, DecimalView};
use crate::output::option_view;
use crate::text::{integer_text, u64_to_text};

verus! {

/// Life-cycle status of a trade.
#[derive(Clone, Copy, Debug, PartialEq, Eq, Structural)]
pub enum TradeStatus {
    New,
    Funded,
    Submitted,
    PartiallyFilled,
    Filled,
    Canceled,
    Expired,
    Rejected,
    ClosedStopLoss,
    ClosedTarget,
}

/// The trade fields the exporter reads.
#[derive(Clone, Copy, Debug)]
pub struct Trade {
    pub status: TradeStatus,
    pub total_performance: Decimal,
}

/// Whether a trade is closed, at its target or at its stop.
pub open spec fn is_closed(t: Trade) -> bool {
    t.status == TradeStatus::ClosedTarget || t.status == TradeStatus::ClosedStopLoss
}

/// The advanced metrics of a set of closed trades.
#[derive(Clone, Copy, Debug)]
pub struct AdvancedMetrics {
    pub profit_factor: Option<Decimal>,
    pub expectancy: Decimal,
    pub win_rate: Decimal,
    pub average_r_multiple: Decimal,
    pub top_20pct_profit_share_percentage: Decimal,
    pub trade_share_to_reach_80pct_profit_percentage: Decimal,
    pub sharpe_ratio: Option<Decimal>,
    pub adjusted_sharpe_ratio: Option<Decimal>,
    pub sortino_ratio: Option<Decimal>,
    pub adjusted_sortino_ratio: Option<Decimal>,
    pub calmar_ratio: Option<Decimal>,
    pub value_at_risk_95: Option<Decimal>,
    pub kelly_criterion: Option<Decimal>,
    pub max_consecutive_losses: u64,
    pub max_consecutive_wins: u64,
    pub ulcer_index: Option<Decimal>,
}

/// One CSV row: category and name, the value with `places` decimals, the unit.
pub open spec fn csv_row(head: Seq<char>, value: DecimalView, places: nat, unit: Seq<char>) -> Seq<char> {
    head + display_spec(value, places) + unit
}

/// A row for a metric that may be missing: no row when it is.
pub open spec fn optional_row(head: Seq<char>, value: Option<DecimalView>, unit: Seq<char>) -> Seq<char> {
    match value {
        Some(v) => csv_row(head, v, 4, unit),
        None => seq![],
    }
}

/// Whether a metric that may be missing can be printed with four places.
pub open spec fn optional_fits(value: Option<DecimalView>) -> bool {
    match value {
        Some(v) => display_fits(v, 4),
        None => true,
    }
}

/// Whether every metric can be printed with its places (`rust_decimal`
/// panics on a value whose digits do not fit its buffer).
pub open spec fn metrics_displayable(m: AdvancedMetrics) -> bool {
    &&& optional_fits(option_view(m.profit_factor))
    &&& display_fits(m.expectancy@, 4)
    &&& display_fits(m.win_rate@, 2)
    &&& display_fits(m.average_r_multiple@, 4)
    &&& display_fits(m.top_20pct_profit_share_percentage@, 4)
    &&& display_fits(m.trade_share_to_reach_80pct_profit_percentage@, 4)
    &&& optional_fits(option_view(m.sharpe_ratio))
    &&& optional_fits(option_view(m.adjusted_sharpe_ratio))
    &&& optional_fits(option_view(m.sortino_ratio))
    &&& optional_fits(option_view(m.adjusted_sortino_ratio))
    &&& optional_fits(option_view(m.calmar_ratio))
    &&& optional_fits(option_view(m.value_at_risk_95))
    &&& optional_fits(option_view(m.kelly_criterion))
    &&& optional_fits(option_view(m.ulcer_index))
}

/// The CSV export of the metrics: a header, then one row per metric
/// present, four decimals except the win rate (two).
pub open spec fn metrics_csv(m: AdvancedMetrics) -> Seq<char> {
    "metric_category,metric_name,value,unit\n"@
        + optional_row("trade_quality,profit_factor,"@, option_view(m.profit_factor), ",ratio\n"@)
        + csv_row("trade_quality,expectancy,"@, m.expectancy@, 4, ",currency\n"@)
        + csv_row("trade_quality,win_rate,"@, m.win_rate@, 2, ",percentage\n"@)
        + csv_row("trade_quality,average_r_multiple,"@, m.average_r_multiple@, 4, ",ratio\n"@)
        + csv_row("trade_quality,top_20pct_profit_share_percentage,"@, m.top_20pct_profit_share_percentage@, 4, ",percentage\n"@)
        + csv_row("trade_quality,trade_share_to_reach_80pct_profit_percentage,"@, m.trade_share_to_reach_80pct_profit_percentage@, 4, ",percentage\n"@)
        + optional_row("risk_adjusted,sharpe_ratio,"@, option_view(m.sharpe_ratio), ",ratio\n"@)
        + optional_row("risk_adjusted,adjusted_sharpe_ratio,"@, option_view(m.adjusted_sharpe_ratio), ",ratio\n"@)
        + optional_row("risk_adjusted,sortino_ratio,"@, option_view(m.sortino_ratio), ",ratio\n"@)
        + optional_row("risk_adjusted,adjusted_sortino_ratio,"@, option_view(m.adjusted_sortino_ratio), ",ratio\n"@)
        + optional_row("risk_adjusted,calmar_ratio,"@, option_view(m.calmar_ratio), ",ratio\n"@)
        + optional_row("statistical,value_at_risk_95,"@, option_view(m.value_at_risk_95), ",percentage\n"@)
        + optional_row("statistical,kelly_criterion,"@, option_view(m.kelly_criterion), ",ratio\n"@)
        + "statistical,max_consecutive_losses,"@ + integer_text(m.max_consecutive_losses as nat) + ",count\n"@
        + "statistical,max_consecutive_wins,"@ + integer_text(m.max_consecutive_wins as nat) + ",count\n"@
        + optional_row("statistical,ulcer_index,"@, option_view(m.ulcer_index), ",percentage\n"@)
}

/// Appends a row with `places` decimals.
fn push_row(csv: &mut String, head: &str, value: Decimal, places: usize, unit: &str)
    requires
        display_fits(value@, places as nat),
    ensures
        final(csv)@ == old(csv)@ + csv_row(head@, value@, places as nat, unit@),
{
    csv.append(head);
    csv.append(value.to_text_with_precision(places).as_str());
    csv.append(unit);
    assert(final(csv)@ =~= old(csv)@ + csv_row(head@, value@, places as nat, unit@));
}

/// Appends a four-decimal row for a metric that may be missing.
fn push_optional_row(csv: &mut String, head: &str, value: Option<Decimal>, unit: &str)
    requires
        optional_fits(option_view(value)),
    ensures
        final(csv)@ == old(csv)@ + optional_row(head@, option_view(value), unit@),
{
    match value {
        Some(v) => push_row(csv, head, v, 4, unit),
        None => {
            assert(final(csv)@ =~= old(csv)@ + optional_row(head@, option_view(value), unit@));
        },
    }
}

/// Exports advanced metrics.
pub struct MetricsExporter;

impl MetricsExporter {
    /// The metrics as CSV rows of category, name, value and unit.
    pub fn to_csv(metrics: &AdvancedMetrics) -> (r: String)
        requires
            metrics_displayable(*metrics),
        ensures
            r@ == metrics_csv(*metrics),
    {
        let mut csv = String::from_str("metric_category,metric_name,value,unit\n");
        push_optional_row(&mut csv, "trade_quality,profit_factor,", metrics.profit_factor, ",ratio\n");
        push_row(&mut csv, "trade_quality,expectancy,", metrics.expectancy, 4, ",currency\n");
        push_row(&mut csv, "trade_quality,win_rate,", metrics.win_rate, 2, ",percentage\n");
        push_row(&mut csv, "trade_quality,average_r_multiple,", metrics.average_r_multiple, 4, ",ratio\n");
        push_row(
            &mut csv,
            "trade_quality,top_20pct_profit_share_percentage,",
            metrics.top_20pct_profit_share_percentage,
            4,
            ",percentage\n",
        );
        push_row(
            &mut csv,
            "trade_quality,trade_share_to_reach_80pct_profit_percentage,",
            metrics.trade_share_to_reach_80pct_profit_percentage,
            4,
            ",percentage\n",
        );
        push_optional_row(&mut csv, "risk_adjusted,sharpe_ratio,", metrics.sharpe_ratio, ",ratio\n");
        push_optional_row(&mut csv, "risk_adjusted,adjusted_sharpe_ratio,", metrics.adjusted_sharpe_ratio, ",ratio\n");
        push_optional_row(&mut csv, "risk_adjusted,sortino_ratio,", metrics.sortino_ratio, ",ratio\n");
        push_optional_row(&mut csv, "risk_adjusted,adjusted_sortino_ratio,", metrics.adjusted_sortino_ratio, ",ratio\n");
        push_optional_row(&mut csv, "risk_adjusted,calmar_ratio,", metrics.calmar_ratio, ",ratio\n");
        push_optional_row(&mut csv, "statistical,value_at_risk_95,", metrics.value_at_risk_95, ",percentage\n");
        push_optional_row(&mut csv, "statistical,kelly_criterion,", metrics.kelly_criterion, ",ratio\n");
        csv.append("statistical,max_consecutive_losses,");
        csv.append(u64_to_text(metrics.max_consecutive_losses).as_str());
        csv.append(",count\n");
        csv.append("statistical,max_consecutive_wins,");
        csv.append(u64_to_text(metrics.max_consecutive_wins).as_str());
        csv.append(",count\n");
        push_optional_row(&mut csv, "statistical,ulcer_index,", metrics.ulcer_index, ",percentage\n");
        csv
    }

    /// The closed trades among `trades`, in order.
    pub fn filter_closed_trades(trades: &[Trade]) -> (r: Vec<Trade>)
        ensures
            r@ == trades@.filter(|t: Trade| is_closed(t)),
    {
        let mut closed: Vec<Trade> = Vec::new();
        let mut i: usize = 0;
        while i < trades.len()
            invariant
                i <= trades@.len(),
                closed@ == trades@.subrange(0, i as int).filter(|t: Trade| is_closed(t)),
            decreases trades@.len() - i,
        {
            let t = trades[i];
            proof {
                assert(trades@.subrange(0, i + 1).drop_last() =~= trades@.subrange(0, i as int));
                reveal_with_fuel(Seq::<Trade>::filter, 1);
            }
            if t.status == TradeStatus::ClosedTarget || t.status == TradeStatus::ClosedStopLoss {
                closed.push(t);
            }
            i = i + 1;
        }
        assert(trades@.subrange(0, i as int) =~= trades@);
        closed
    }
}

/// The risk-free rate the metrics are computed with when none is given: 5%.
pub open spec fn default_risk_free_rate() -> DecimalView {
    DecimalView { negative: false, magnitude: 5, scale: 2 }
}

/// The risk-free rate to compute the metrics with: the one given, else 5%
/// (0.05).
pub fn risk_free_rate_or_default(rate: Option<Decimal>) -> (r: Decimal)
    ensures
        r@ == match rate {
            Some(d) => d@,
            None => default_risk_free_rate(),
        },
{
    match rate {
        Some(d) => d,
        None => {
            let d = Decimal::from_i128_with_scale(5, 2);
            d.note_valid();
            d
        },
    }
}

/// Whether `text` holds `line` at some place.
pub open spec fn holds_line(text: Seq<char>, line: Seq<char>) -> bool {
    exists|i: int| 0 <= i && i + line.len() <= text.len() && #[trigger] text.subrange(i, i + line.len()) == line
}

proof fn lemma_holds_line_facts()
    ensures
        forall|a: Seq<char>, b: Seq<char>, line: Seq<char>| holds_line(a, line) ==> #[trigger] holds_line(a + b, line),
        forall|a: Seq<char>, line: Seq<char>| #[trigger] holds_line(a + line, line),
        forall|a: Seq<char>, x: Seq<char>, y: Seq<char>, z: Seq<char>| #[trigger] holds_line(a + x + y + z, x + y + z),
{
    assert forall|a: Seq<char>, b: Seq<char>, line: Seq<char>| holds_line(a, line) implies #[trigger] holds_line(a + b, line) by {
        let i = choose|i: int| 0 <= i && i + line.len() <= a.len() && #[trigger] a.subrange(i, i + line.len()) == line;
        assert((a + b).subrange(i, i + line.len()) =~= a.subrange(i, i + line.len()));
    }
    assert forall|a: Seq<char>, line: Seq<char>| #[trigger] holds_line(a + line, line) by {
        assert((a + line).subrange(a.len() as int, (a.len() + line.len()) as int) =~= line);
    }
    assert forall|a: Seq<char>, x: Seq<char>, y: Seq<char>, z: Seq<char>| #[trigger] holds_line(a + x + y + z, x + y + z) by {
        let line = x + y + z;
        assert((a + x + y + z).subrange(a.len() as int, (a.len() + line.len()) as int) =~= line);
    }
}

/// Every metric that is known has its own row in the CSV, under its own
/// name, with its own value: four places (two for the win rate), and the
/// counts of consecutive losses and wins as integers. The CSV starts with
/// its header.
pub proof fn lemma_csv_rows_carry_their_metrics(m: AdvancedMetrics)
    ensures
        metrics_csv(m).len() >= "metric_category,metric_name,value,unit\n"@.len(),
        metrics_csv(m).subrange(0, "metric_category,metric_name,value,unit\n"@.len() as int) == "metric_category,metric_name,value,unit\n"@,
        m.profit_factor matches Some(v) ==> holds_line(metrics_csv(m), "trade_quality,profit_factor,"@ + display_spec(v@, 4) + ",ratio\n"@),
        holds_line(metrics_csv(m), "trade_quality,expectancy,"@ + display_spec(m.expectancy@, 4) + ",currency\n"@),
        holds_line(metrics_csv(m), "trade_quality,win_rate,"@ + display_spec(m.win_rate@, 2) + ",percentage\n"@),
        holds_line(metrics_csv(m), "trade_quality,average_r_multiple,"@ + display_spec(m.average_r_multiple@, 4) + ",ratio\n"@),
        holds_line(
            metrics_csv(m),
            "trade_quality,top_20pct_profit_share_percentage,"@ + display_spec(m.top_20pct_profit_share_percentage@, 4) + ",percentage\n"@,
        ),
        holds_line(
            metrics_csv(m),
            "trade_quality,trade_share_to_reach_80pct_profit_percentage,"@ + display_spec(m.trade_share_to_reach_80pct_profit_percentage@, 4)
                + ",percentage\n"@,
        ),
        m.sharpe_ratio matches Some(v) ==> holds_line(metrics_csv(m), "risk_adjusted,sharpe_ratio,"@ + display_spec(v@, 4) + ",ratio\n"@),
        m.adjusted_sharpe_ratio matches Some(v) ==> holds_line(metrics_csv(m), "risk_adjusted,adjusted_sharpe_ratio,"@ + display_spec(v@, 4) + ",ratio\n"@),
        m.sortino_ratio matches Some(v) ==> holds_line(metrics_csv(m), "risk_adjusted,sortino_ratio,"@ + display_spec(v@, 4) + ",ratio\n"@),
        m.adjusted_sortino_ratio matches Some(v) ==> holds_line(metrics_csv(m), "risk_adjusted,adjusted_sortino_ratio,"@ + display_spec(v@, 4) + ",ratio\n"@),
        m.calmar_ratio matches Some(v) ==> holds_line(metrics_csv(m), "risk_adjusted,calmar_ratio,"@ + display_spec(v@, 4) + ",ratio\n"@),
        m.value_at_risk_95 matches Some(v) ==> holds_line(metrics_csv(m), "statistical,value_at_risk_95,"@ + display_spec(v@, 4) + ",percentage\n"@),
        m.kelly_criterion matches Some(v) ==> holds_line(metrics_csv(m), "statistical,kelly_criterion,"@ + display_spec(v@, 4) + ",ratio\n"@),
        holds_line(metrics_csv(m), "statistical,max_consecutive_losses,"@ + integer_text(m.max_consecutive_losses as nat) + ",count\n"@),
        holds_line(metrics_csv(m), "statistical,max_consecutive_wins,"@ + integer_text(m.max_consecutive_wins as nat) + ",count\n"@),
        m.ulcer_index matches Some(v) ==> holds_line(metrics_csv(m), "statistical,ulcer_index,"@ + display_spec(v@, 4) + ",percentage\n"@),
{
    lemma_csv_header(m);
    lemma_row_profit_factor(m);
    lemma_row_expectancy(m);
    lemma_row_win_rate(m);
    lemma_row_average_r_multiple(m);
    lemma_row_top_20pct_profit_share_percentage(m);
    lemma_row_trade_share_to_reach_80pct_profit_percentage(m);
    lemma_row_sharpe_ratio(m);
    lemma_row_adjusted_sharpe_ratio(m);
    lemma_row_sortino_ratio(m);
    lemma_row_adjusted_sortino_ratio(m);
    lemma_row_calmar_ratio(m);
    lemma_row_value_at_risk_95(m);
    lemma_row_kelly_criterion(m);
    lemma_row_max_consecutive_losses(m);
    lemma_row_max_consecutive_wins(m);
    lemma_row_ulcer_index(m);
}

/// A metric that is not known has no row: taking a known metric away
/// takes away its row and nothing else, so the CSV is shorter by exactly
/// that row.
pub proof fn lemma_missing_metric_has_no_row(m: AdvancedMetrics)
    ensures
        m.profit_factor matches Some(v) ==> metrics_csv(m).len() == metrics_csv(AdvancedMetrics { profit_factor: None, ..m }).len()
            + ("trade_quality,profit_factor,"@ + display_spec(v@, 4) + ",ratio\n"@).len(),
        m.sharpe_ratio matches Some(v) ==> metrics_csv(m).len() == metrics_csv(AdvancedMetrics { sharpe_ratio: None, ..m }).len()
            + ("risk_adjusted,sharpe_ratio,"@ + display_spec(v@, 4) + ",ratio\n"@).len(),
        m.adjusted_sharpe_ratio matches Some(v) ==> metrics_csv(m).len() == metrics_csv(AdvancedMetrics { adjusted_sharpe_ratio: None, ..m }).len()
            + ("risk_adjusted,adjusted_sharpe_ratio,"@ + display_spec(v@, 4) + ",ratio\n"@).len(),
        m.sortino_ratio matches Some(v) ==> metrics_csv(m).len() == metrics_csv(AdvancedMetrics { sortino_ratio: None, ..m }).len()
            + ("risk_adjusted,sortino_ratio,"@ + display_spec(v@, 4) + ",ratio\n"@).len(),
        m.adjusted_sortino_ratio matches Some(v) ==> metrics_csv(m).len() == metrics_csv(AdvancedMetrics { adjusted_sortino_ratio: None, ..m }).len()
            + ("risk_adjusted,adjusted_sortino_ratio,"@ + display_spec(v@, 4) + ",ratio\n"@).len(),
        m.calmar_ratio matches Some(v) ==> metrics_csv(m).len() == metrics_csv(AdvancedMetrics { calmar_ratio: None, ..m }).len()
            + ("risk_adjusted,calmar_ratio,"@ + display_spec(v@, 4) + ",ratio\n"@).len(),
        m.value_at_risk_95 matches Some(v) ==> metrics_csv(m).len() == metrics_csv(AdvancedMetrics { value_at_risk_95: None, ..m }).len()
            + ("statistical,value_at_risk_95,"@ + display_spec(v@, 4) + ",percentage\n"@).len(),
        m.kelly_criterion matches Some(v) ==> metrics_csv(m).len() == metrics_csv(AdvancedMetrics { kelly_criterion: None, ..m }).len()
            + ("statistical,kelly_criterion,"@ + display_spec(v@, 4) + ",ratio\n"@).len(),
        m.ulcer_index matches Some(v) ==> metrics_csv(m).len() == metrics_csv(AdvancedMetrics { ulcer_index: None, ..m }).len()
            + ("statistical,ulcer_index,"@ + display_spec(v@, 4) + ",percentage\n"@).len(),
{
    lemma_no_row_profit_factor(m);
    lemma_no_row_sharpe_ratio(m);
    lemma_no_row_adjusted_sharpe_ratio(m);
    lemma_no_row_sortino_ratio(m);
    lemma_no_row_adjusted_sortino_ratio(m);
    lemma_no_row_calmar_ratio(m);
    lemma_no_row_value_at_risk_95(m);
    lemma_no_row_kelly_criterion(m);
    lemma_no_row_ulcer_index(m);
}

proof fn lemma_no_row_profit_factor(m: AdvancedMetrics)
    ensures
        m.profit_factor matches Some(v) ==> metrics_csv(m).len() == metrics_csv(AdvancedMetrics { profit_factor: None, ..m }).len()
            + ("trade_quality,profit_factor,"@ + display_spec(v@, 4) + ",ratio\n"@).len(),
{
}

proof fn lemma_no_row_sharpe_ratio(m: AdvancedMetrics)
    ensures
        m.sharpe_ratio matches Some(v) ==> metrics_csv(m).len() == metrics_csv(AdvancedMetrics { sharpe_ratio: None, ..m }).len()
            + ("risk_adjusted,sharpe_ratio,"@ + display_spec(v@, 4) + ",ratio\n"@).len(),
{
}

proof fn lemma_no_row_adjusted_sharpe_ratio(m: AdvancedMetrics)
    ensures
        m.adjusted_sharpe_ratio matches Some(v) ==> metrics_csv(m).len() == metrics_csv(AdvancedMetrics { adjusted_sharpe_ratio: None, ..m }).len()
            + ("risk_adjusted,adjusted_sharpe_ratio,"@ + display_spec(v@, 4) + ",ratio\n"@).len(),
{
}

proof fn lemma_no_row_sortino_ratio(m: AdvancedMetrics)
    ensures
        m.sortino_ratio matches Some(v) ==> metrics_csv(m).len() == metrics_csv(AdvancedMetrics { sortino_ratio: None, ..m }).len()
            + ("risk_adjusted,sortino_ratio,"@ + display_spec(v@, 4) + ",ratio\n"@).len(),
{
}

proof fn lemma_no_row_adjusted_sortino_ratio(m: AdvancedMetrics)
    ensures
        m.adjusted_sortino_ratio matches Some(v) ==> metrics_csv(m).len() == metrics_csv(AdvancedMetrics { adjusted_sortino_ratio: None, ..m }).len()
            + ("risk_adjusted,adjusted_sortino_ratio,"@ + display_spec(v@, 4) + ",ratio\n"@).len(),
{
}

proof fn lemma_no_row_calmar_ratio(m: AdvancedMetrics)
    ensures
        m.calmar_ratio matches Some(v) ==> metrics_csv(m).len() == metrics_csv(AdvancedMetrics { calmar_ratio: None, ..m }).len()
            + ("risk_adjusted,calmar_ratio,"@ + display_spec(v@, 4) + ",ratio\n"@).len(),
{
}

proof fn lemma_no_row_value_at_risk_95(m: AdvancedMetrics)
    ensures
        m.value_at_risk_95 matches Some(v) ==> metrics_csv(m).len() == metrics_csv(AdvancedMetrics { value_at_risk_95: None, ..m }).len()
            + ("statistical,value_at_risk_95,"@ + display_spec(v@, 4) + ",percentage\n"@).len(),
{
}

proof fn lemma_no_row_kelly_criterion(m: AdvancedMetrics)
    ensures
        m.kelly_criterion matches Some(v) ==> metrics_csv(m).len() == metrics_csv(AdvancedMetrics { kelly_criterion: None, ..m }).len()
            + ("statistical,kelly_criterion,"@ + display_spec(v@, 4) + ",ratio\n"@).len(),
{
}

proof fn lemma_no_row_ulcer_index(m: AdvancedMetrics)
    ensures
        m.ulcer_index matches Some(v) ==> metrics_csv(m).len() == metrics_csv(AdvancedMetrics { ulcer_index: None, ..m }).len()
            + ("statistical,ulcer_index,"@ + display_spec(v@, 4) + ",percentage\n"@).len(),
{
}

proof fn lemma_row_profit_factor(m: AdvancedMetrics)
    ensures
        m.profit_factor matches Some(v) ==> holds_line(metrics_csv(m), "trade_quality,profit_factor,"@ + display_spec(v@, 4) + ",ratio\n"@),
{
    lemma_holds_line_facts();
}

proof fn lemma_row_expectancy(m: AdvancedMetrics)
    ensures
        holds_line(metrics_csv(m), "trade_quality,expectancy,"@ + display_spec(m.expectancy@, 4) + ",currency\n"@),
{
    lemma_holds_line_facts();
}

proof fn lemma_row_win_rate(m: AdvancedMetrics)
    ensures
        holds_line(metrics_csv(m), "trade_quality,win_rate,"@ + display_spec(m.win_rate@, 2) + ",percentage\n"@),
{
    lemma_holds_line_facts();
}

proof fn lemma_row_average_r_multiple(m: AdvancedMetrics)
    ensures
        holds_line(metrics_csv(m), "trade_quality,average_r_multiple,"@ + display_spec(m.average_r_multiple@, 4) + ",ratio\n"@),
{
    lemma_holds_line_facts();
}

proof fn lemma_row_top_20pct_profit_share_percentage(m: AdvancedMetrics)
    ensures
        holds_line(
            metrics_csv(m),
            "trade_quality,top_20pct_profit_share_percentage,"@ + display_spec(m.top_20pct_profit_share_percentage@, 4) + ",percentage\n"@,
        ),
{
    lemma_holds_line_facts();
}

proof fn lemma_row_trade_share_to_reach_80pct_profit_percentage(m: AdvancedMetrics)
    ensures
        holds_line(
            metrics_csv(m),
            "trade_quality,trade_share_to_reach_80pct_profit_percentage,"@ + display_spec(m.trade_share_to_reach_80pct_profit_percentage@, 4)
                + ",percentage\n"@,
        ),
{
    lemma_holds_line_facts();
}

proof fn lemma_row_sharpe_ratio(m: AdvancedMetrics)
    ensures
        m.sharpe_ratio matches Some(v) ==> holds_line(metrics_csv(m), "risk_adjusted,sharpe_ratio,"@ + display_spec(v@, 4) + ",ratio\n"@),
{
    lemma_holds_line_facts();
}

proof fn lemma_row_adjusted_sharpe_ratio(m: AdvancedMetrics)
    ensures
        m.adjusted_sharpe_ratio matches Some(v) ==> holds_line(metrics_csv(m), "risk_adjusted,adjusted_sharpe_ratio,"@ + display_spec(v@, 4) + ",ratio\n"@),
{
    lemma_holds_line_facts();
}

proof fn lemma_row_sortino_ratio(m: AdvancedMetrics)
    ensures
        m.sortino_ratio matches Some(v) ==> holds_line(metrics_csv(m), "risk_adjusted,sortino_ratio,"@ + display_spec(v@, 4) + ",ratio\n"@),
{
    lemma_holds_line_facts();
}

proof fn lemma_row_adjusted_sortino_ratio(m: AdvancedMetrics)
    ensures
        m.adjusted_sortino_ratio matches Some(v) ==> holds_line(metrics_csv(m), "risk_adjusted,adjusted_sortino_ratio,"@ + display_spec(v@, 4) + ",ratio\n"@),
{
    lemma_holds_line_facts();
}

proof fn lemma_row_calmar_ratio(m: AdvancedMetrics)
    ensures
        m.calmar_ratio matches Some(v) ==> holds_line(metrics_csv(m), "risk_adjusted,calmar_ratio,"@ + display_spec(v@, 4) + ",ratio\n"@),
{
    lemma_holds_line_facts();
}

proof fn lemma_row_value_at_risk_95(m: AdvancedMetrics)
    ensures
        m.value_at_risk_95 matches Some(v) ==> holds_line(metrics_csv(m), "statistical,value_at_risk_95,"@ + display_spec(v@, 4) + ",percentage\n"@),
{
    lemma_holds_line_facts();
}

proof fn lemma_row_kelly_criterion(m: AdvancedMetrics)
    ensures
        m.kelly_criterion matches Some(v) ==> holds_line(metrics_csv(m), "statistical,kelly_criterion,"@ + display_spec(v@, 4) + ",ratio\n"@),
{
    lemma_holds_line_facts();
}

proof fn lemma_row_max_consecutive_losses(m: AdvancedMetrics)
    ensures
        holds_line(metrics_csv(m), "statistical,max_consecutive_losses,"@ + integer_text(m.max_consecutive_losses as nat) + ",count\n"@),
{
    lemma_holds_line_facts();
}

proof fn lemma_row_max_consecutive_wins(m: AdvancedMetrics)
    ensures
        holds_line(metrics_csv(m), "statistical,max_consecutive_wins,"@ + integer_text(m.max_consecutive_wins as nat) + ",count\n"@),
{
    lemma_holds_line_facts();
}

proof fn lemma_row_ulcer_index(m: AdvancedMetrics)
    ensures
        m.ulcer_index matches Some(v) ==> holds_line(metrics_csv(m), "statistical,ulcer_index,"@ + display_spec(v@, 4) + ",percentage\n"@),
{
    lemma_holds_line_facts();
}

proof fn lemma_csv_header(m: AdvancedMetrics)
    ensures
        metrics_csv(m).len() >= "metric_category,metric_name,value,unit\n"@.len(),
        metrics_csv(m).subrange(0, "metric_category,metric_name,value,unit\n"@.len() as int) == "metric_category,metric_name,value,unit\n"@,
{
    let h = "metric_category,metric_name,value,unit\n"@;
    assert(metrics_csv(m) =~= h + metrics_csv(m).skip(h.len() as int));
}

} // verus!
