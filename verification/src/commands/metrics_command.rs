//! The `metrics` command line.

use vstd::prelude::*;
use crate::cli_spec::{ArgSpec, ArgView, CommandSpec, CommandView, ValueKind, command_views, push_command};

verus! {

/// Builder of the `metrics` command line.
pub struct MetricsCommandBuilder {
    command: CommandSpec,
    subcommands: Vec<CommandSpec>,
}

/// The `metrics` command before its subcommands are added.
pub open spec fn metrics_root_view() -> CommandView {
    CommandView::new("metrics")
    .about("Advanced financial metrics and analysis tools")
    .arg_required_else_help(true)
}

/// The `advanced` subcommand that `advanced` adds.
pub open spec fn metrics_advanced_view() -> CommandView {
    CommandView::new("advanced")
    .about("Display comprehensive advanced financial metrics including risk-adjusted ratios")
    .arg(
        ArgView::new("account")
            .long("account")
            .value_name("ACCOUNT_ID")
            .help("Filter by specific account ID")
            .required(false),
    )
    .arg(
        ArgView::new("days")
            .long("days")
            .value_name("DAYS")
            .help("Filter trades from the last N days (default: 90)")
            .value_kind(ValueKind::U32)
            .required(false),
    )
    .arg(
        ArgView::new("risk-free-rate")
            .long("risk-free-rate")
            .value_name("RATE")
            .help("Risk-free rate for Sharpe/Sortino calculations (default: 0.05)")
            .value_kind(ValueKind::Float)
            .required(false),
    )
    .arg(
        ArgView::new("export")
            .long("export")
            .value_name("FORMAT")
            .help("Export metrics to file (json, csv)")
            .choices(seq!["json", "csv"])
            .required(false),
    )
    .arg(
        ArgView::new("output")
            .short('o')
            .long("output")
            .value_name("FILE")
            .help("Output file path (default: metrics.{format})")
            .required(false),
    )
}

/// The `compare` subcommand that `compare` adds.
pub open spec fn metrics_compare_view() -> CommandView {
    CommandView::new("compare")
    .about("Compare performance across time periods")
    .arg(
        ArgView::new("period1")
            .long("period1")
            .value_name("PERIOD1")
            .help("First period to compare (e.g., 'last-30-days')")
            .required(true),
    )
    .arg(
        ArgView::new("period2")
            .long("period2")
            .value_name("PERIOD2")
            .help("Second period to compare (e.g., 'previous-30-days')")
            .required(true),
    )
    .arg(
        ArgView::new("account")
            .long("account")
            .value_name("ACCOUNT_ID")
            .help("Filter by specific account ID")
            .required(false),
    )
    .arg(
        ArgView::new("format")
            .long("format")
            .value_name("FORMAT")
            .help("Output format")
            .choices(seq!["text", "json"])
            .default_value("text")
            .required(false),
    )
    .arg(
        ArgView::new("export")
            .long("export")
            .value_name("FORMAT")
            .help("Export comparison to file (json, csv)")
            .choices(seq!["json", "csv"])
            .required(false),
    )
    .arg(
        ArgView::new("output")
            .short('o')
            .long("output")
            .value_name("FILE")
            .help("Output file path for export (default: metrics-compare.{format})")
            .required(false),
    )
}

/// `command` with the arguments `with_bond_lookup_args` adds.
pub open spec fn metrics_with_bond_lookup_args(command: CommandView) -> CommandView {
    command
    .arg(
        ArgView::new("symbol")
            .long("symbol")
            .value_name("SYMBOL")
            .help("Bond symbol to load stored fixed-income terms from"),
    )
    .arg(
        ArgView::new("broker")
            .long("broker")
            .value_name("BROKER")
            .help("Broker for --symbol lookup"),
    )
}

/// `command` with the arguments `with_bond_analytics_args` adds.
pub open spec fn metrics_with_bond_analytics_args(command: CommandView) -> CommandView {
    command
    .arg(
        ArgView::new("face-value")
            .long("face-value")
            .value_name("AMOUNT")
            .help("Bond face/par value per unit"),
    )
    .arg(
        ArgView::new("market-price")
            .long("market-price")
            .value_name("AMOUNT")
            .help("Current clean market price per unit")
            .required(true),
    )
    .arg(
        ArgView::new("coupon-rate")
            .long("coupon-rate")
            .value_name("PERCENT")
            .help("Annual coupon rate as a percentage, e.g. 4.5"),
    )
    .arg(
        ArgView::new("quantity")
            .long("quantity")
            .value_name("UNITS")
            .help("Number of bond units")
            .value_kind(ValueKind::I64)
            .required(true),
    )
    .arg(
        ArgView::new("years-to-maturity")
            .long("years-to-maturity")
            .value_name("YEARS")
            .help(
                "Years remaining until maturity; optional when stored bond maturity is available",
            ),
    )
}

/// `command` with the arguments `with_bond_accrued_interest_args` adds.
pub open spec fn metrics_with_bond_accrued_interest_args(command: CommandView) -> CommandView {
    command
    .arg(
        ArgView::new("coupon-frequency")
            .long("coupon-frequency")
            .value_name("PAYMENTS_PER_YEAR")
            .help("Coupon payments per year for accrued-interest calculations")
            .value_kind(ValueKind::U16),
    )
    .arg(
        ArgView::new("settlement-date")
            .long("settlement-date")
            .value_name("YYYY-MM-DD")
            .help("Settlement date for accrued-interest calculations"),
    )
    .arg(
        ArgView::new("last-coupon-date")
            .long("last-coupon-date")
            .value_name("YYYY-MM-DD")
            .help("Previous coupon date for accrued-interest calculations"),
    )
    .arg(
        ArgView::new("next-coupon-date")
            .long("next-coupon-date")
            .value_name("YYYY-MM-DD")
            .help("Next coupon date for accrued-interest calculations"),
    )
    .arg(
        ArgView::new("day-count")
            .long("day-count")
            .value_name("BASIS")
            .help("Day-count basis for accrued interest")
            .choices(seq!["actual-actual", "actual-360", "actual-365"]),
    )
}

/// `command` with the arguments `with_report_format_arg` adds.
pub open spec fn metrics_with_report_format_arg(command: CommandView) -> CommandView {
    command.arg(
        ArgView::new("format")
            .long("format")
            .value_name("FORMAT")
            .help("Output format")
            .choices(seq!["text", "json"])
            .default_value("text")
            .required(false),
    )
}

/// The `bond` subcommand that `bond` adds.
pub open spec fn metrics_bond_view() -> CommandView {
    metrics_with_report_format_arg(
        metrics_with_bond_accrued_interest_args(
            metrics_with_bond_analytics_args(
                metrics_with_bond_lookup_args(
                    CommandView::new("bond").about("Calculate fixed-income bond income and yield metrics"),
                ),
            ),
        ),
    )
}

impl MetricsCommandBuilder {
    /// The command being built, without the subcommands added so far.
    pub closed spec fn command_part(&self) -> CommandView {
        self.command@
    }

    /// The subcommands added so far.
    pub closed spec fn pending(&self) -> Seq<CommandView> {
        command_views(self.subcommands@)
    }

    /// A builder with the bare `metrics` command.
    pub fn new() -> (r: Self)
        ensures
            r.command_part() == metrics_root_view(),
            r.pending() == Seq::<CommandView>::empty(),
    {
        let subcommands: Vec<CommandSpec> = Vec::new();
        assert(command_views(subcommands@) =~= Seq::<CommandView>::empty());
        MetricsCommandBuilder {
            command: CommandSpec::new("metrics")
            .about("Advanced financial metrics and analysis tools")
            .arg_required_else_help(true),
            subcommands,
        }
    }

    /// The command with the subcommands added so far.
    pub fn build(self) -> (r: CommandSpec)
        ensures
            r@ == self.command_part().subcommands(self.pending()),
    {
        self.command.subcommands(self.subcommands)
    }

    /// Adds the `advanced` subcommand.
    pub fn advanced(self) -> (r: Self)
        ensures
            r.command_part() == self.command_part(),
            r.pending() == self.pending().push(metrics_advanced_view()),
    {
        let mut b = self;
        push_command(
            &mut b.subcommands,
            CommandSpec::new("advanced")
            .about("Display comprehensive advanced financial metrics including risk-adjusted ratios")
            .arg(
                ArgSpec::new("account")
                    .long("account")
                    .value_name("ACCOUNT_ID")
                    .help("Filter by specific account ID")
                    .required(false),
            )
            .arg(
                ArgSpec::new("days")
                    .long("days")
                    .value_name("DAYS")
                    .help("Filter trades from the last N days (default: 90)")
                    .value_kind(ValueKind::U32)
                    .required(false),
            )
            .arg(
                ArgSpec::new("risk-free-rate")
                    .long("risk-free-rate")
                    .value_name("RATE")
                    .help("Risk-free rate for Sharpe/Sortino calculations (default: 0.05)")
                    .value_kind(ValueKind::Float)
                    .required(false),
            )
            .arg(
                ArgSpec::new("export")
                    .long("export")
                    .value_name("FORMAT")
                    .help("Export metrics to file (json, csv)")
                    .choices(vec!["json", "csv"])
                    .required(false),
            )
            .arg(
                ArgSpec::new("output")
                    .short('o')
                    .long("output")
                    .value_name("FILE")
                    .help("Output file path (default: metrics.{format})")
                    .required(false),
            ),
        );
        b
    }

    /// Adds the `compare` subcommand.
    pub fn compare(self) -> (r: Self)
        ensures
            r.command_part() == self.command_part(),
            r.pending() == self.pending().push(metrics_compare_view()),
    {
        let mut b = self;
        push_command(
            &mut b.subcommands,
            CommandSpec::new("compare")
            .about("Compare performance across time periods")
            .arg(
                ArgSpec::new("period1")
                    .long("period1")
                    .value_name("PERIOD1")
                    .help("First period to compare (e.g., 'last-30-days')")
                    .required(true),
            )
            .arg(
                ArgSpec::new("period2")
                    .long("period2")
                    .value_name("PERIOD2")
                    .help("Second period to compare (e.g., 'previous-30-days')")
                    .required(true),
            )
            .arg(
                ArgSpec::new("account")
                    .long("account")
                    .value_name("ACCOUNT_ID")
                    .help("Filter by specific account ID")
                    .required(false),
            )
            .arg(
                ArgSpec::new("format")
                    .long("format")
                    .value_name("FORMAT")
                    .help("Output format")
                    .choices(vec!["text", "json"])
                    .default_value("text")
                    .required(false),
            )
            .arg(
                ArgSpec::new("export")
                    .long("export")
                    .value_name("FORMAT")
                    .help("Export comparison to file (json, csv)")
                    .choices(vec!["json", "csv"])
                    .required(false),
            )
            .arg(
                ArgSpec::new("output")
                    .short('o')
                    .long("output")
                    .value_name("FILE")
                    .help("Output file path for export (default: metrics-compare.{format})")
                    .required(false),
            ),
        );
        b
    }

    /// Adds the arguments of `metrics_with_bond_lookup_args`.
    fn with_bond_lookup_args(command: CommandSpec) -> (r: CommandSpec)
        ensures
            r@ == metrics_with_bond_lookup_args(command@),
    {
        command
        .arg(
            ArgSpec::new("symbol")
                .long("symbol")
                .value_name("SYMBOL")
                .help("Bond symbol to load stored fixed-income terms from"),
        )
        .arg(
            ArgSpec::new("broker")
                .long("broker")
                .value_name("BROKER")
                .help("Broker for --symbol lookup"),
        )
    }

    /// Adds the arguments of `metrics_with_bond_analytics_args`.
    fn with_bond_analytics_args(command: CommandSpec) -> (r: CommandSpec)
        ensures
            r@ == metrics_with_bond_analytics_args(command@),
    {
        command
        .arg(
            ArgSpec::new("face-value")
                .long("face-value")
                .value_name("AMOUNT")
                .help("Bond face/par value per unit"),
        )
        .arg(
            ArgSpec::new("market-price")
                .long("market-price")
                .value_name("AMOUNT")
                .help("Current clean market price per unit")
                .required(true),
        )
        .arg(
            ArgSpec::new("coupon-rate")
                .long("coupon-rate")
                .value_name("PERCENT")
                .help("Annual coupon rate as a percentage, e.g. 4.5"),
        )
        .arg(
            ArgSpec::new("quantity")
                .long("quantity")
                .value_name("UNITS")
                .help("Number of bond units")
                .value_kind(ValueKind::I64)
                .required(true),
        )
        .arg(
            ArgSpec::new("years-to-maturity")
                .long("years-to-maturity")
                .value_name("YEARS")
                .help(
                    "Years remaining until maturity; optional when stored bond maturity is available",
                ),
        )
    }

    /// Adds the arguments of `metrics_with_bond_accrued_interest_args`.
    fn with_bond_accrued_interest_args(command: CommandSpec) -> (r: CommandSpec)
        ensures
            r@ == metrics_with_bond_accrued_interest_args(command@),
    {
        command
        .arg(
            ArgSpec::new("coupon-frequency")
                .long("coupon-frequency")
                .value_name("PAYMENTS_PER_YEAR")
                .help("Coupon payments per year for accrued-interest calculations")
                .value_kind(ValueKind::U16),
        )
        .arg(
            ArgSpec::new("settlement-date")
                .long("settlement-date")
                .value_name("YYYY-MM-DD")
                .help("Settlement date for accrued-interest calculations"),
        )
        .arg(
            ArgSpec::new("last-coupon-date")
                .long("last-coupon-date")
                .value_name("YYYY-MM-DD")
                .help("Previous coupon date for accrued-interest calculations"),
        )
        .arg(
            ArgSpec::new("next-coupon-date")
                .long("next-coupon-date")
                .value_name("YYYY-MM-DD")
                .help("Next coupon date for accrued-interest calculations"),
        )
        .arg(
            ArgSpec::new("day-count")
                .long("day-count")
                .value_name("BASIS")
                .help("Day-count basis for accrued interest")
                .choices(vec!["actual-actual", "actual-360", "actual-365"]),
        )
    }

    /// Adds the arguments of `metrics_with_report_format_arg`.
    fn with_report_format_arg(command: CommandSpec) -> (r: CommandSpec)
        ensures
            r@ == metrics_with_report_format_arg(command@),
    {
        command.arg(
            ArgSpec::new("format")
                .long("format")
                .value_name("FORMAT")
                .help("Output format")
                .choices(vec!["text", "json"])
                .default_value("text")
                .required(false),
        )
    }

    /// Adds the `bond` subcommand.
    pub fn bond(self) -> (r: Self)
        ensures
            r.command_part() == self.command_part(),
            r.pending() == self.pending().push(metrics_bond_view()),
    {
        let command = CommandSpec::new("bond").about(
            "Calculate fixed-income bond income and yield metrics",
        );
        let command = Self::with_bond_lookup_args(command);
        let command = Self::with_bond_analytics_args(command);
        let command = Self::with_bond_accrued_interest_args(command);
        let mut b = self;
        push_command(&mut b.subcommands, Self::with_report_format_arg(command));
        b
    }

}

impl Default for MetricsCommandBuilder {
    fn default() -> (r: Self)
        ensures
            r.command_part() == metrics_root_view(),
            r.pending() == Seq::<CommandView>::empty(),
    {
        Self::new()
    }
}

} // verus!
