//! The `trading-vehicle` command line.

use vstd::prelude::*;
use crate::cli_spec::{ArgSpec, ArgView, CommandSpec, CommandView, ValueKind, command_views, push_command};

verus! {

/// Builder of the `trading-vehicle` command line.
pub struct TradingVehicleCommandBuilder {
    command: CommandSpec,
    subcommands: Vec<CommandSpec>,
}

/// The `trading_vehicle` command before its subcommands are added.
pub open spec fn trading_vehicle_root_view() -> CommandView {
    CommandView::new("trading-vehicle")
    .about("Manage Trading Vehicles like stocks, crypto, etc.")
    .arg_required_else_help(true)
}

/// The `create` subcommand that `create_trading_vehicle` adds.
pub open spec fn trading_vehicle_create_trading_vehicle_view() -> CommandView {
    CommandView::new("create")
    .about("Create a new trading vehicle")
    .arg(
        ArgView::new("from-broker")
            .long("from-broker")
            .value_name("BROKER")
            .help("Fetch symbol metadata from a broker (alpaca|ibkr) instead of prompting manually"),
    )
    .arg(
        ArgView::new("from-alpaca")
            .long("from-alpaca")
            .flag()
            .help("Deprecated alias for --from-broker alpaca"),
    )
    .arg(
        ArgView::new("account")
            .long("account")
            .value_name("ACCOUNT_NAME")
            .help("Account name used to resolve Alpaca keys"),
    )
    .arg(
        ArgView::new("symbol")
            .long("symbol")
            .value_name("SYMBOL")
            .help("Trading symbol to fetch from broker metadata"),
    )
    .arg(
        ArgView::new("category")
            .long("category")
            .value_name("CATEGORY")
            .help("Trading vehicle category for broker metadata lookup (stock|etf|bond|crypto|fiat)"),
    )
    .arg(
        ArgView::new("face-value")
            .long("face-value")
            .value_name("AMOUNT")
            .help("Bond face/par value per unit"),
    )
    .arg(
        ArgView::new("coupon-rate")
            .long("coupon-rate")
            .value_name("PERCENT")
            .help("Bond annual coupon rate as a percentage, e.g. 4.625"),
    )
    .arg(
        ArgView::new("maturity-date")
            .long("maturity-date")
            .value_name("YYYY-MM-DD")
            .help("Bond maturity date"),
    )
    .arg(
        ArgView::new("coupon-frequency")
            .long("coupon-frequency")
            .value_name("PAYMENTS_PER_YEAR")
            .help("Bond coupon payments per year")
            .value_kind(ValueKind::U16),
    )
    .arg(
        ArgView::new("confirm-protected")
            .long("confirm-protected")
            .value_name("KEYWORD")
            .help("Protected mutation keyword")
            .required(false),
    )
}

/// The `search` subcommand that `search_trading_vehicle` adds.
pub open spec fn trading_vehicle_search_trading_vehicle_view() -> CommandView {
    CommandView::new("search")
    .about("Search trading vehicles by symbol, ISIN, category or broker")
    .arg(
        ArgView::new("all")
            .long("all")
            .flag()
            .help("List all trading vehicles without opening the interactive picker"),
    )
    .arg(
        ArgView::new("category")
            .long("category")
            .value_name("CATEGORY")
            .help("Filter by category (stock|etf|bond|crypto|fiat)"),
    )
    .arg(
        ArgView::new("broker")
            .long("broker")
            .value_name("BROKER")
            .help("Filter by broker"),
    )
    .arg(
        ArgView::new("symbol")
            .long("symbol")
            .value_name("SYMBOL")
            .help("Filter by symbol substring"),
    )
    .arg(
        ArgView::new("isin")
            .long("isin")
            .value_name("ISIN")
            .help("Filter by ISIN substring"),
    )
    .arg(
        ArgView::new("missing-bond-terms")
            .long("missing-bond-terms")
            .flag()
            .help("Show bonds missing at least one fixed-income term"),
    )
    .arg(
        ArgView::new("format")
            .long("format")
            .value_name("FORMAT")
            .help("Output format")
            .choices(seq!["text", "json"])
            .default_value("text"),
    )
}

/// The `update-bond-terms` subcommand that `update_bond_terms` adds.
pub open spec fn trading_vehicle_update_bond_terms_view() -> CommandView {
    CommandView::new("update-bond-terms")
    .about("Update stored fixed-income terms for an existing bond")
    .arg(
        ArgView::new("symbol")
            .long("symbol")
            .value_name("SYMBOL")
            .help("Bond symbol to update")
            .required(true),
    )
    .arg(
        ArgView::new("broker")
            .long("broker")
            .value_name("BROKER")
            .help("Broker name for the stored bond")
            .required(true),
    )
    .arg(
        ArgView::new("face-value")
            .long("face-value")
            .value_name("AMOUNT")
            .help("Bond face/par value per unit"),
    )
    .arg(
        ArgView::new("coupon-rate")
            .long("coupon-rate")
            .value_name("PERCENT")
            .help("Bond annual coupon rate as a percentage, e.g. 4.625"),
    )
    .arg(
        ArgView::new("maturity-date")
            .long("maturity-date")
            .value_name("YYYY-MM-DD")
            .help("Bond maturity date"),
    )
    .arg(
        ArgView::new("coupon-frequency")
            .long("coupon-frequency")
            .value_name("PAYMENTS_PER_YEAR")
            .help("Bond coupon payments per year")
            .value_kind(ValueKind::U16),
    )
    .arg(
        ArgView::new("confirm-protected")
            .long("confirm-protected")
            .value_name("KEYWORD")
            .help("Protected mutation keyword")
            .required(false),
    )
}

/// The `stats` subcommand that `stats` adds.
pub open spec fn trading_vehicle_stats_view() -> CommandView {
    CommandView::new("stats")
    .about("Show security inventory statistics by category, broker, and bond terms")
    .arg(
        ArgView::new("format")
            .long("format")
            .value_name("FORMAT")
            .help("Output format")
            .choices(seq!["text", "json"])
            .default_value("text"),
    )
}

impl TradingVehicleCommandBuilder {
    /// The command being built, without the subcommands added so far.
    pub closed spec fn command_part(&self) -> CommandView {
        self.command@
    }

    /// The subcommands added so far.
    pub closed spec fn pending(&self) -> Seq<CommandView> {
        command_views(self.subcommands@)
    }

    /// A builder with the bare `trading-vehicle` command.
    pub fn new() -> (r: Self)
        ensures
            r.command_part() == trading_vehicle_root_view(),
            r.pending() == Seq::<CommandView>::empty(),
    {
        let subcommands: Vec<CommandSpec> = Vec::new();
        assert(command_views(subcommands@) =~= Seq::<CommandView>::empty());
        TradingVehicleCommandBuilder {
            command: CommandSpec::new("trading-vehicle")
            .about("Manage Trading Vehicles like stocks, crypto, etc.")
            .arg_required_else_help(true),
            subcommands,
        }
    }

    /// The command with the subcommands added so far.
    pub fn build(self) -> (r: CommandSpec)
        ensures
            r@ == self.command_part().subcommands(self.pending()),
    {
        self.command.subcommands(self.subcommands)
    }

    /// Adds the `create` subcommand.
    pub fn create_trading_vehicle(self) -> (r: Self)
        ensures
            r.command_part() == self.command_part(),
            r.pending() == self.pending().push(trading_vehicle_create_trading_vehicle_view()),
    {
        let mut b = self;
        push_command(
            &mut b.subcommands,
            CommandSpec::new("create")
            .about("Create a new trading vehicle")
            .arg(
                ArgSpec::new("from-broker")
                    .long("from-broker")
                    .value_name("BROKER")
                    .help("Fetch symbol metadata from a broker (alpaca|ibkr) instead of prompting manually"),
            )
            .arg(
                ArgSpec::new("from-alpaca")
                    .long("from-alpaca")
                    .flag()
                    .help("Deprecated alias for --from-broker alpaca"),
            )
            .arg(
                ArgSpec::new("account")
                    .long("account")
                    .value_name("ACCOUNT_NAME")
                    .help("Account name used to resolve Alpaca keys"),
            )
            .arg(
                ArgSpec::new("symbol")
                    .long("symbol")
                    .value_name("SYMBOL")
                    .help("Trading symbol to fetch from broker metadata"),
            )
            .arg(
                ArgSpec::new("category")
                    .long("category")
                    .value_name("CATEGORY")
                    .help("Trading vehicle category for broker metadata lookup (stock|etf|bond|crypto|fiat)"),
            )
            .arg(
                ArgSpec::new("face-value")
                    .long("face-value")
                    .value_name("AMOUNT")
                    .help("Bond face/par value per unit"),
            )
            .arg(
                ArgSpec::new("coupon-rate")
                    .long("coupon-rate")
                    .value_name("PERCENT")
                    .help("Bond annual coupon rate as a percentage, e.g. 4.625"),
            )
            .arg(
                ArgSpec::new("maturity-date")
                    .long("maturity-date")
                    .value_name("YYYY-MM-DD")
                    .help("Bond maturity date"),
            )
            .arg(
                ArgSpec::new("coupon-frequency")
                    .long("coupon-frequency")
                    .value_name("PAYMENTS_PER_YEAR")
                    .help("Bond coupon payments per year")
                    .value_kind(ValueKind::U16),
            )
            .arg(
                ArgSpec::new("confirm-protected")
                    .long("confirm-protected")
                    .value_name("KEYWORD")
                    .help("Protected mutation keyword")
                    .required(false),
            ),
        );
        b
    }

    /// Adds the `search` subcommand.
    pub fn search_trading_vehicle(self) -> (r: Self)
        ensures
            r.command_part() == self.command_part(),
            r.pending() == self.pending().push(trading_vehicle_search_trading_vehicle_view()),
    {
        let mut b = self;
        push_command(
            &mut b.subcommands,
            CommandSpec::new("search")
            .about("Search trading vehicles by symbol, ISIN, category or broker")
            .arg(
                ArgSpec::new("all")
                    .long("all")
                    .flag()
                    .help("List all trading vehicles without opening the interactive picker"),
            )
            .arg(
                ArgSpec::new("category")
                    .long("category")
                    .value_name("CATEGORY")
                    .help("Filter by category (stock|etf|bond|crypto|fiat)"),
            )
            .arg(
                ArgSpec::new("broker")
                    .long("broker")
                    .value_name("BROKER")
                    .help("Filter by broker"),
            )
            .arg(
                ArgSpec::new("symbol")
                    .long("symbol")
                    .value_name("SYMBOL")
                    .help("Filter by symbol substring"),
            )
            .arg(
                ArgSpec::new("isin")
                    .long("isin")
                    .value_name("ISIN")
                    .help("Filter by ISIN substring"),
            )
            .arg(
                ArgSpec::new("missing-bond-terms")
                    .long("missing-bond-terms")
                    .flag()
                    .help("Show bonds missing at least one fixed-income term"),
            )
            .arg(
                ArgSpec::new("format")
                    .long("format")
                    .value_name("FORMAT")
                    .help("Output format")
                    .choices(vec!["text", "json"])
                    .default_value("text"),
            ),
        );
        b
    }

    /// Adds the `update-bond-terms` subcommand.
    pub fn update_bond_terms(self) -> (r: Self)
        ensures
            r.command_part() == self.command_part(),
            r.pending() == self.pending().push(trading_vehicle_update_bond_terms_view()),
    {
        let mut b = self;
        push_command(
            &mut b.subcommands,
            CommandSpec::new("update-bond-terms")
            .about("Update stored fixed-income terms for an existing bond")
            .arg(
                ArgSpec::new("symbol")
                    .long("symbol")
                    .value_name("SYMBOL")
                    .help("Bond symbol to update")
                    .required(true),
            )
            .arg(
                ArgSpec::new("broker")
                    .long("broker")
                    .value_name("BROKER")
                    .help("Broker name for the stored bond")
                    .required(true),
            )
            .arg(
                ArgSpec::new("face-value")
                    .long("face-value")
                    .value_name("AMOUNT")
                    .help("Bond face/par value per unit"),
            )
            .arg(
                ArgSpec::new("coupon-rate")
                    .long("coupon-rate")
                    .value_name("PERCENT")
                    .help("Bond annual coupon rate as a percentage, e.g. 4.625"),
            )
            .arg(
                ArgSpec::new("maturity-date")
                    .long("maturity-date")
                    .value_name("YYYY-MM-DD")
                    .help("Bond maturity date"),
            )
            .arg(
                ArgSpec::new("coupon-frequency")
                    .long("coupon-frequency")
                    .value_name("PAYMENTS_PER_YEAR")
                    .help("Bond coupon payments per year")
                    .value_kind(ValueKind::U16),
            )
            .arg(
                ArgSpec::new("confirm-protected")
                    .long("confirm-protected")
                    .value_name("KEYWORD")
                    .help("Protected mutation keyword")
                    .required(false),
            ),
        );
        b
    }

    /// Adds the `stats` subcommand.
    pub fn stats(self) -> (r: Self)
        ensures
            r.command_part() == self.command_part(),
            r.pending() == self.pending().push(trading_vehicle_stats_view()),
    {
        let mut b = self;
        push_command(
            &mut b.subcommands,
            CommandSpec::new("stats")
            .about("Show security inventory statistics by category, broker, and bond terms")
            .arg(
                ArgSpec::new("format")
                    .long("format")
                    .value_name("FORMAT")
                    .help("Output format")
                    .choices(vec!["text", "json"])
                    .default_value("text"),
            ),
        );
        b
    }

}

} // verus!
