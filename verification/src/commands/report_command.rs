//! The `report` command line.

use vstd::prelude::*;
use crate::cli_spec::{ArgSpec, ArgView, CommandSpec, CommandView, ValueKind, command_views, push_command};

verus! {

/// Builder of the `report` command line.
pub struct ReportCommandBuilder {
    command: CommandSpec,
    subcommands: Vec<CommandSpec>,
}

/// The `report` command before its subcommands are added.
pub open spec fn report_root_view() -> CommandView {
    CommandView::new("report")
    .about("Generate trading performance reports")
    .arg(
        ArgView::new("format")
            .long("format")
            .value_name("FORMAT")
            .help("Output format")
            .choices(seq!["text", "json"])
            .default_value("text")
            .global(true),
    )
    .arg_required_else_help(true)
}

/// The `performance` subcommand that `performance` adds.
pub open spec fn report_performance_view() -> CommandView {
    CommandView::new("performance")
    .about("Display trading performance statistics for closed trades")
    .arg(
        ArgView::new("account")
            .long("account")
            .value_name("ACCOUNT_ID")
            .help("Filter by specific account ID")
            .required(false),
    )
    .arg(
        ArgView::new("days")
            .long("days")
            .value_name("DAYS")
            .help("Filter trades from the last N days")
            .value_kind(ValueKind::U32)
            .required(false),
    )
}

/// The `drawdown` subcommand that `drawdown` adds.
pub open spec fn report_drawdown_view() -> CommandView {
    CommandView::new("drawdown")
    .about("Display realized P&L drawdown analysis based on closed trades")
    .arg(
        ArgView::new("account")
            .long("account")
            .value_name("ACCOUNT_ID")
            .help("Filter by specific account ID")
            .required(false),
    )
}

/// The `risk` subcommand that `risk` adds.
pub open spec fn report_risk_view() -> CommandView {
    CommandView::new("risk")
    .about("Display current capital at risk from open positions")
    .arg(
        ArgView::new("account")
            .long("account")
            .value_name("ACCOUNT_ID")
            .help("Filter by specific account ID")
            .required(false),
    )
}

/// The `concentration` subcommand that `concentration` adds.
pub open spec fn report_concentration_view() -> CommandView {
    CommandView::new("concentration")
    .about("Display portfolio concentration analysis by sector and asset class")
    .arg(
        ArgView::new("account")
            .long("account")
            .value_name("ACCOUNT_ID")
            .help("Filter by specific account ID")
            .required(false),
    )
    .arg(
        ArgView::new("open-only")
            .long("open-only")
            .help("Show only currently open positions")
            .flag()
            .required(false),
    )
}

/// The `summary` subcommand that `summary` adds.
pub open spec fn report_summary_view() -> CommandView {
    CommandView::new("summary")
    .about("Display comprehensive trading summary with all key metrics")
    .arg(
        ArgView::new("account")
            .long("account")
            .value_name("ACCOUNT_ID")
            .help("Filter by specific account ID")
            .required(false),
    )
}

/// The `metrics` subcommand that `metrics` adds.
pub open spec fn report_metrics_view() -> CommandView {
    CommandView::new("metrics")
    .about("Display advanced financial metrics (profit factor, expectancy, etc.)")
    .arg(
        ArgView::new("account")
            .long("account")
            .value_name("ACCOUNT_ID")
            .help("Filter by specific account ID")
            .required(false),
    )
    .arg(
        ArgView::new("days")
            .long("days")
            .value_name("DAYS")
            .help("Filter trades from the last N days")
            .value_kind(ValueKind::U32)
            .required(false),
    )
}

/// The `attribution` subcommand that `attribution` adds.
pub open spec fn report_attribution_view() -> CommandView {
    CommandView::new("attribution")
    .about("Attribution report grouped by symbol, sector, or asset-class")
    .arg(
        ArgView::new("account")
            .long("account")
            .value_name("ACCOUNT_ID")
            .help("Account ID")
            .required(true),
    )
    .arg(
        ArgView::new("by")
            .long("by")
            .value_name("DIMENSION")
            .help("Attribution dimension")
            .choices(seq!["symbol", "sector", "asset-class"])
            .required(true),
    )
    .arg(
        ArgView::new("from")
            .long("from")
            .value_name("YYYY-MM-DD")
            .help("Start date, inclusive")
            .required(true),
    )
    .arg(
        ArgView::new("to")
            .long("to")
            .value_name("YYYY-MM-DD")
            .help("End date, inclusive")
            .required(true),
    )
}

/// The `benchmark` subcommand that `benchmark` adds.
pub open spec fn report_benchmark_view() -> CommandView {
    CommandView::new("benchmark")
    .about("Compare closed-trade return against a benchmark symbol")
    .arg(
        ArgView::new("account")
            .long("account")
            .value_name("ACCOUNT_ID")
            .help("Account ID")
            .required(true),
    )
    .arg(
        ArgView::new("benchmark")
            .long("benchmark")
            .value_name("SYMBOL")
            .help("Benchmark symbol, e.g. SPY")
            .required(true),
    )
    .arg(
        ArgView::new("from")
            .long("from")
            .value_name("YYYY-MM-DD")
            .help("Start date, inclusive")
            .required(true),
    )
    .arg(
        ArgView::new("to")
            .long("to")
            .value_name("YYYY-MM-DD")
            .help("End date, inclusive")
            .required(true),
    )
}

/// The `timeline` subcommand that `timeline` adds.
pub open spec fn report_timeline_view() -> CommandView {
    CommandView::new("timeline")
    .about("Timeline of account cashflow by day/week/month buckets")
    .arg(
        ArgView::new("account")
            .long("account")
            .value_name("ACCOUNT_ID")
            .help("Account ID")
            .required(true),
    )
    .arg(
        ArgView::new("granularity")
            .long("granularity")
            .value_name("BUCKET")
            .help("Bucket granularity")
            .choices(seq!["day", "week", "month"])
            .required(true),
    )
    .arg(
        ArgView::new("from")
            .long("from")
            .value_name("YYYY-MM-DD")
            .help("Start date, inclusive")
            .required(true),
    )
    .arg(
        ArgView::new("to")
            .long("to")
            .value_name("YYYY-MM-DD")
            .help("End date, inclusive")
            .required(true),
    )
}

impl ReportCommandBuilder {
    /// The command being built, without the subcommands added so far.
    pub closed spec fn command_part(&self) -> CommandView {
        self.command@
    }

    /// The subcommands added so far.
    pub closed spec fn pending(&self) -> Seq<CommandView> {
        command_views(self.subcommands@)
    }

    /// A builder with the bare `report` command.
    pub fn new() -> (r: Self)
        ensures
            r.command_part() == report_root_view(),
            r.pending() == Seq::<CommandView>::empty(),
    {
        let subcommands: Vec<CommandSpec> = Vec::new();
        assert(command_views(subcommands@) =~= Seq::<CommandView>::empty());
        ReportCommandBuilder {
            command: CommandSpec::new("report")
            .about("Generate trading performance reports")
            .arg(
                ArgSpec::new("format")
                    .long("format")
                    .value_name("FORMAT")
                    .help("Output format")
                    .choices(vec!["text", "json"])
                    .default_value("text")
                    .global(true),
            )
            .arg_required_else_help(true),
            subcommands,
        }
    }

    /// The command with the subcommands added so far.
    pub fn build(self) -> (r: CommandSpec)
        ensures
            r@ == self.command_part().subcommands(self.pending()),
    {
        self.command.subcommands(self.subcommands)
    }

    /// Adds the `performance` subcommand.
    pub fn performance(self) -> (r: Self)
        ensures
            r.command_part() == self.command_part(),
            r.pending() == self.pending().push(report_performance_view()),
    {
        let mut b = self;
        push_command(
            &mut b.subcommands,
            CommandSpec::new("performance")
            .about("Display trading performance statistics for closed trades")
            .arg(
                ArgSpec::new("account")
                    .long("account")
                    .value_name("ACCOUNT_ID")
                    .help("Filter by specific account ID")
                    .required(false),
            )
            .arg(
                ArgSpec::new("days")
                    .long("days")
                    .value_name("DAYS")
                    .help("Filter trades from the last N days")
                    .value_kind(ValueKind::U32)
                    .required(false),
            ),
        );
        b
    }

    /// Adds the `drawdown` subcommand.
    pub fn drawdown(self) -> (r: Self)
        ensures
            r.command_part() == self.command_part(),
            r.pending() == self.pending().push(report_drawdown_view()),
    {
        let mut b = self;
        push_command(
            &mut b.subcommands,
            CommandSpec::new("drawdown")
            .about("Display realized P&L drawdown analysis based on closed trades")
            .arg(
                ArgSpec::new("account")
                    .long("account")
                    .value_name("ACCOUNT_ID")
                    .help("Filter by specific account ID")
                    .required(false),
            ),
        );
        b
    }

    /// Adds the `risk` subcommand.
    pub fn risk(self) -> (r: Self)
        ensures
            r.command_part() == self.command_part(),
            r.pending() == self.pending().push(report_risk_view()),
    {
        let mut b = self;
        push_command(
            &mut b.subcommands,
            CommandSpec::new("risk")
            .about("Display current capital at risk from open positions")
            .arg(
                ArgSpec::new("account")
                    .long("account")
                    .value_name("ACCOUNT_ID")
                    .help("Filter by specific account ID")
                    .required(false),
            ),
        );
        b
    }

    /// Adds the `concentration` subcommand.
    pub fn concentration(self) -> (r: Self)
        ensures
            r.command_part() == self.command_part(),
            r.pending() == self.pending().push(report_concentration_view()),
    {
        let mut b = self;
        push_command(
            &mut b.subcommands,
            CommandSpec::new("concentration")
            .about("Display portfolio concentration analysis by sector and asset class")
            .arg(
                ArgSpec::new("account")
                    .long("account")
                    .value_name("ACCOUNT_ID")
                    .help("Filter by specific account ID")
                    .required(false),
            )
            .arg(
                ArgSpec::new("open-only")
                    .long("open-only")
                    .help("Show only currently open positions")
                    .flag()
                    .required(false),
            ),
        );
        b
    }

    /// Adds the `summary` subcommand.
    pub fn summary(self) -> (r: Self)
        ensures
            r.command_part() == self.command_part(),
            r.pending() == self.pending().push(report_summary_view()),
    {
        let mut b = self;
        push_command(
            &mut b.subcommands,
            CommandSpec::new("summary")
            .about("Display comprehensive trading summary with all key metrics")
            .arg(
                ArgSpec::new("account")
                    .long("account")
                    .value_name("ACCOUNT_ID")
                    .help("Filter by specific account ID")
                    .required(false),
            ),
        );
        b
    }

    /// Adds the `metrics` subcommand.
    pub fn metrics(self) -> (r: Self)
        ensures
            r.command_part() == self.command_part(),
            r.pending() == self.pending().push(report_metrics_view()),
    {
        let mut b = self;
        push_command(
            &mut b.subcommands,
            CommandSpec::new("metrics")
            .about("Display advanced financial metrics (profit factor, expectancy, etc.)")
            .arg(
                ArgSpec::new("account")
                    .long("account")
                    .value_name("ACCOUNT_ID")
                    .help("Filter by specific account ID")
                    .required(false),
            )
            .arg(
                ArgSpec::new("days")
                    .long("days")
                    .value_name("DAYS")
                    .help("Filter trades from the last N days")
                    .value_kind(ValueKind::U32)
                    .required(false),
            ),
        );
        b
    }

    /// Adds the `attribution` subcommand.
    pub fn attribution(self) -> (r: Self)
        ensures
            r.command_part() == self.command_part(),
            r.pending() == self.pending().push(report_attribution_view()),
    {
        let mut b = self;
        push_command(
            &mut b.subcommands,
            CommandSpec::new("attribution")
            .about("Attribution report grouped by symbol, sector, or asset-class")
            .arg(
                ArgSpec::new("account")
                    .long("account")
                    .value_name("ACCOUNT_ID")
                    .help("Account ID")
                    .required(true),
            )
            .arg(
                ArgSpec::new("by")
                    .long("by")
                    .value_name("DIMENSION")
                    .help("Attribution dimension")
                    .choices(vec!["symbol", "sector", "asset-class"])
                    .required(true),
            )
            .arg(
                ArgSpec::new("from")
                    .long("from")
                    .value_name("YYYY-MM-DD")
                    .help("Start date, inclusive")
                    .required(true),
            )
            .arg(
                ArgSpec::new("to")
                    .long("to")
                    .value_name("YYYY-MM-DD")
                    .help("End date, inclusive")
                    .required(true),
            ),
        );
        b
    }

    /// Adds the `benchmark` subcommand.
    pub fn benchmark(self) -> (r: Self)
        ensures
            r.command_part() == self.command_part(),
            r.pending() == self.pending().push(report_benchmark_view()),
    {
        let mut b = self;
        push_command(
            &mut b.subcommands,
            CommandSpec::new("benchmark")
            .about("Compare closed-trade return against a benchmark symbol")
            .arg(
                ArgSpec::new("account")
                    .long("account")
                    .value_name("ACCOUNT_ID")
                    .help("Account ID")
                    .required(true),
            )
            .arg(
                ArgSpec::new("benchmark")
                    .long("benchmark")
                    .value_name("SYMBOL")
                    .help("Benchmark symbol, e.g. SPY")
                    .required(true),
            )
            .arg(
                ArgSpec::new("from")
                    .long("from")
                    .value_name("YYYY-MM-DD")
                    .help("Start date, inclusive")
                    .required(true),
            )
            .arg(
                ArgSpec::new("to")
                    .long("to")
                    .value_name("YYYY-MM-DD")
                    .help("End date, inclusive")
                    .required(true),
            ),
        );
        b
    }

    /// Adds the `timeline` subcommand.
    pub fn timeline(self) -> (r: Self)
        ensures
            r.command_part() == self.command_part(),
            r.pending() == self.pending().push(report_timeline_view()),
    {
        let mut b = self;
        push_command(
            &mut b.subcommands,
            CommandSpec::new("timeline")
            .about("Timeline of account cashflow by day/week/month buckets")
            .arg(
                ArgSpec::new("account")
                    .long("account")
                    .value_name("ACCOUNT_ID")
                    .help("Account ID")
                    .required(true),
            )
            .arg(
                ArgSpec::new("granularity")
                    .long("granularity")
                    .value_name("BUCKET")
                    .help("Bucket granularity")
                    .choices(vec!["day", "week", "month"])
                    .required(true),
            )
            .arg(
                ArgSpec::new("from")
                    .long("from")
                    .value_name("YYYY-MM-DD")
                    .help("Start date, inclusive")
                    .required(true),
            )
            .arg(
                ArgSpec::new("to")
                    .long("to")
                    .value_name("YYYY-MM-DD")
                    .help("End date, inclusive")
                    .required(true),
            ),
        );
        b
    }

}

impl Default for ReportCommandBuilder {
    fn default() -> (r: Self)
        ensures
            r.command_part() == report_root_view(),
            r.pending() == Seq::<CommandView>::empty(),
    {
        Self::new()
    }
}

} // verus!
