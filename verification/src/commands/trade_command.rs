//! The `trade` command line.

use vstd::prelude::*;
use crate::cli_spec::{ArgSpec, ArgView, CommandSpec, CommandView, command_views, push_command};

verus! {

/// Builder of the `trade` command line.
pub struct TradeCommandBuilder {
    command: CommandSpec,
    subcommands: Vec<CommandSpec>,
}

/// The `trade` command before its subcommands are added.
pub open spec fn trade_root_view() -> CommandView {
    CommandView::new("trade")
    .about("Manage trades for your account")
    .arg_required_else_help(true)
}

/// The `create` subcommand that `create_trade` adds.
pub open spec fn trade_create_trade_view() -> CommandView {
    CommandView::new("create")
    .about("Create a new trade for your account")
    .arg(
        ArgView::new("account")
            .long("account")
            .value_name("ACCOUNT")
            .help("Account name or UUID (non-interactive mode)"),
    )
    .arg(
        ArgView::new("symbol")
            .long("symbol")
            .value_name("SYMBOL")
            .help("Trading symbol (non-interactive mode, e.g. AAPL)"),
    )
    .arg(
        ArgView::new("category")
            .long("category")
            .value_name("CATEGORY")
            .choices(seq!["long", "short"])
            .help("Trade category (non-interactive mode)"),
    )
    .arg(
        ArgView::new("entry")
            .long("entry")
            .value_name("PRICE")
            .help("Entry price (non-interactive mode)"),
    )
    .arg(
        ArgView::new("stop")
            .long("stop")
            .value_name("PRICE")
            .help("Stop price (non-interactive mode)"),
    )
    .arg(
        ArgView::new("target")
            .long("target")
            .value_name("PRICE")
            .help("Target price (non-interactive mode)"),
    )
    .arg(
        ArgView::new("quantity")
            .long("quantity")
            .value_name("QTY")
            .help("Quantity (non-interactive mode)"),
    )
    .arg(
        ArgView::new("currency")
            .long("currency")
            .value_name("CURRENCY")
            .default_value("usd")
            .help("Currency code (usd|eur|btc) (non-interactive mode)"),
    )
    .arg(
        ArgView::new("thesis")
            .long("thesis")
            .value_name("TEXT")
            .help("Trade thesis (optional, non-interactive mode)"),
    )
    .arg(
        ArgView::new("sector")
            .long("sector")
            .value_name("TEXT")
            .help("Sector (optional, non-interactive mode)"),
    )
    .arg(
        ArgView::new("asset-class")
            .long("asset-class")
            .value_name("TEXT")
            .help("Asset class (optional, non-interactive mode)"),
    )
    .arg(
        ArgView::new("context")
            .long("context")
            .value_name("TEXT")
            .help("Trading context (optional, non-interactive mode)"),
    )
    .arg(
        ArgView::new("auto-fund")
            .long("auto-fund")
            .help("Fund the trade immediately after creation")
            .flag(),
    )
    .arg(
        ArgView::new("auto-submit")
            .long("auto-submit")
            .help("Submit the trade immediately (implies --auto-fund)")
            .flag(),
    )
}

/// The `fund` subcommand that `fund_trade` adds.
pub open spec fn trade_fund_trade_view() -> CommandView {
    CommandView::new("fund")
    .about("Fund a trade with your account balance")
    .arg(
        ArgView::new("trade-id")
            .long("trade-id")
            .value_name("UUID")
            .help("Trade UUID (non-interactive mode)"),
    )
}

/// The `cancel` subcommand that `cancel_trade` adds.
pub open spec fn trade_cancel_trade_view() -> CommandView {
    CommandView::new("cancel")
    .about(
        "The trade balance that is not in the market will be returned to your account balance",
    )
    .arg(
        ArgView::new("trade-id")
            .long("trade-id")
            .value_name("UUID")
            .help("Trade UUID (non-interactive mode)"),
    )
}

/// The `submit` subcommand that `submit_trade` adds.
pub open spec fn trade_submit_trade_view() -> CommandView {
    CommandView::new("submit")
    .about("Submit a trade to a broker for execution. This will create an entry order in the broker's system")
    .arg(
        ArgView::new("trade-id")
            .long("trade-id")
            .value_name("UUID")
            .help("Trade UUID (non-interactive mode)"),
    )
}

/// The `sync` subcommand that `sync_trade` adds.
pub open spec fn trade_sync_trade_view() -> CommandView {
    CommandView::new("sync")
    .about("Sync a trade with the broker. This will update the trade with the broker's system")
    .arg(
        ArgView::new("trade-id")
            .long("trade-id")
            .value_name("UUID")
            .help("Trade UUID (non-interactive mode)"),
    )
}

/// The `watch` subcommand that `watch_trade` adds.
pub open spec fn trade_watch_trade_view() -> CommandView {
    CommandView::new("watch")
    .about(
        "Watch a trade until it reaches a terminal status (polls sync + shows new executions)",
    )
    .arg(
        ArgView::new("latest")
            .long("latest")
            .help("Watch the most recently updated open trade without prompting")
            .flag(),
    )
}

/// The `manually-fill` subcommand that `manually_fill` adds.
pub open spec fn trade_manually_fill_view() -> CommandView {
    CommandView::new("manually-fill").about("Execute manually the filling of a trade. Meaning that the entry order was filled and we own the trading vehicle.")
}

/// The `manually-stop` subcommand that `manually_stop` adds.
pub open spec fn trade_manually_stop_view() -> CommandView {
    CommandView::new("manually-stop").about("Execute manually the safety stop of a trade.")
}

/// The `modify-stop` subcommand that `modify_stop` adds.
pub open spec fn trade_modify_stop_view() -> CommandView {
    CommandView::new("modify-stop").about("Modify the stop loss order of a filled trade.")
}

/// The `modify-target` subcommand that `modify_target` adds.
pub open spec fn trade_modify_target_view() -> CommandView {
    CommandView::new("modify-target").about("Modify the target order of a filled trade.")
}

/// The `manually-target` subcommand that `manually_target` adds.
pub open spec fn trade_manually_target_view() -> CommandView {
    CommandView::new("manually-target").about("Execute manually the target of a trade")
}

/// The `search` subcommand that `search_trade` adds.
pub open spec fn trade_search_trade_view() -> CommandView {
    CommandView::new("search")
    .about("Search trades with optional non-interactive filters")
    .arg(
        ArgView::new("account")
            .long("account")
            .value_name("ACCOUNT")
            .help("Account ID or name (non-interactive mode)"),
    )
    .arg(
        ArgView::new("status")
            .long("status")
            .value_name("STATUS")
            .help("Trade status filter (e.g. new,funded,submitted,filled,canceled)"),
    )
    .arg(
        ArgView::new("symbol")
            .long("symbol")
            .value_name("SYMBOL")
            .help("Trading symbol filter (case-insensitive)"),
    )
    .arg(
        ArgView::new("from")
            .long("from")
            .value_name("YYYY-MM-DD")
            .help("Start date filter (inclusive)"),
    )
    .arg(
        ArgView::new("to")
            .long("to")
            .value_name("YYYY-MM-DD")
            .help("End date filter (inclusive)"),
    )
    .arg(
        ArgView::new("format")
            .long("format")
            .value_name("FORMAT")
            .help("Output format")
            .choices(seq!["text", "json"])
            .default_value("text"),
    )
}

/// The `list-open` subcommand that `list_open` adds.
pub open spec fn trade_list_open_view() -> CommandView {
    CommandView::new("list-open")
    .about("List currently open trades without interactive prompts")
    .arg(
        ArgView::new("account")
            .long("account")
            .value_name("ACCOUNT")
            .help("Optional account ID or name"),
    )
    .arg(
        ArgView::new("format")
            .long("format")
            .value_name("FORMAT")
            .help("Output format")
            .choices(seq!["text", "json"])
            .default_value("text"),
    )
}

/// The `reconcile` subcommand that `reconcile` adds.
pub open spec fn trade_reconcile_view() -> CommandView {
    CommandView::new("reconcile")
    .about("Sync one or more open trades with the broker in batch mode")
    .arg(
        ArgView::new("trade-id")
            .long("trade-id")
            .value_name("UUID")
            .help("Specific trade UUID to reconcile"),
    )
    .arg(
        ArgView::new("account")
            .long("account")
            .value_name("ACCOUNT")
            .help("Optional account ID or name when reconciling all open trades"),
    )
    .arg(
        ArgView::new("format")
            .long("format")
            .value_name("FORMAT")
            .help("Output format")
            .choices(seq!["text", "json"])
            .default_value("text"),
    )
}

/// The `manually-close` subcommand that `manually_close` adds.
pub open spec fn trade_manually_close_view() -> CommandView {
    CommandView::new("manually-close")
    .about("Manually close a trade with optional automatic profit distribution")
    .arg(
        ArgView::new("auto-distribute")
            .long("auto-distribute")
            .short('d')
            .help("Automatically distribute profits after closing the trade")
            .flag(),
    )
}

/// The `size-preview` subcommand that `size_preview` adds.
pub open spec fn trade_size_preview_view() -> CommandView {
    CommandView::new("size-preview")
    .about("Preview base and level-adjusted position sizes")
    .arg(
        ArgView::new("account")
            .long("account")
            .short('a')
            .value_name("ACCOUNT_ID")
            .help("Target account ID")
            .required(true),
    )
    .arg(
        ArgView::new("entry")
            .long("entry")
            .value_name("PRICE")
            .help("Planned entry price")
            .required(true),
    )
    .arg(
        ArgView::new("stop")
            .long("stop")
            .value_name("PRICE")
            .help("Planned stop price")
            .required(true),
    )
    .arg(
        ArgView::new("currency")
            .long("currency")
            .value_name("CURRENCY")
            .help("Currency code (USD by default)")
            .required(false)
            .default_value("usd"),
    )
    .arg(
        ArgView::new("format")
            .long("format")
            .value_name("FORMAT")
            .help("Output format")
            .choices(seq!["text", "json"])
            .default_value("text")
            .required(false),
    )
}

impl TradeCommandBuilder {
    /// The command being built, without the subcommands added so far.
    pub closed spec fn command_part(&self) -> CommandView {
        self.command@
    }

    /// The subcommands added so far.
    pub closed spec fn pending(&self) -> Seq<CommandView> {
        command_views(self.subcommands@)
    }

    /// A builder with the bare `trade` command.
    pub fn new() -> (r: Self)
        ensures
            r.command_part() == trade_root_view(),
            r.pending() == Seq::<CommandView>::empty(),
    {
        let subcommands: Vec<CommandSpec> = Vec::new();
        assert(command_views(subcommands@) =~= Seq::<CommandView>::empty());
        TradeCommandBuilder {
            command: CommandSpec::new("trade")
            .about("Manage trades for your account")
            .arg_required_else_help(true),
            subcommands,
        }
    }

    /// The command with the subcommands added so far.
    pub fn build(self) -> (r: CommandSpec)
        ensures
            r@ == self.command_part().subcommands(self.pending()),
    {
        self.command.subcommands(self.subcommands)
    }

    /// Adds the `create` subcommand.
    pub fn create_trade(self) -> (r: Self)
        ensures
            r.command_part() == self.command_part(),
            r.pending() == self.pending().push(trade_create_trade_view()),
    {
        let mut b = self;
        push_command(
            &mut b.subcommands,
            CommandSpec::new("create")
            .about("Create a new trade for your account")
            .arg(
                ArgSpec::new("account")
                    .long("account")
                    .value_name("ACCOUNT")
                    .help("Account name or UUID (non-interactive mode)"),
            )
            .arg(
                ArgSpec::new("symbol")
                    .long("symbol")
                    .value_name("SYMBOL")
                    .help("Trading symbol (non-interactive mode, e.g. AAPL)"),
            )
            .arg(
                ArgSpec::new("category")
                    .long("category")
                    .value_name("CATEGORY")
                    .choices(vec!["long", "short"])
                    .help("Trade category (non-interactive mode)"),
            )
            .arg(
                ArgSpec::new("entry")
                    .long("entry")
                    .value_name("PRICE")
                    .help("Entry price (non-interactive mode)"),
            )
            .arg(
                ArgSpec::new("stop")
                    .long("stop")
                    .value_name("PRICE")
                    .help("Stop price (non-interactive mode)"),
            )
            .arg(
                ArgSpec::new("target")
                    .long("target")
                    .value_name("PRICE")
                    .help("Target price (non-interactive mode)"),
            )
            .arg(
                ArgSpec::new("quantity")
                    .long("quantity")
                    .value_name("QTY")
                    .help("Quantity (non-interactive mode)"),
            )
            .arg(
                ArgSpec::new("currency")
                    .long("currency")
                    .value_name("CURRENCY")
                    .default_value("usd")
                    .help("Currency code (usd|eur|btc) (non-interactive mode)"),
            )
            .arg(
                ArgSpec::new("thesis")
                    .long("thesis")
                    .value_name("TEXT")
                    .help("Trade thesis (optional, non-interactive mode)"),
            )
            .arg(
                ArgSpec::new("sector")
                    .long("sector")
                    .value_name("TEXT")
                    .help("Sector (optional, non-interactive mode)"),
            )
            .arg(
                ArgSpec::new("asset-class")
                    .long("asset-class")
                    .value_name("TEXT")
                    .help("Asset class (optional, non-interactive mode)"),
            )
            .arg(
                ArgSpec::new("context")
                    .long("context")
                    .value_name("TEXT")
                    .help("Trading context (optional, non-interactive mode)"),
            )
            .arg(
                ArgSpec::new("auto-fund")
                    .long("auto-fund")
                    .help("Fund the trade immediately after creation")
                    .flag(),
            )
            .arg(
                ArgSpec::new("auto-submit")
                    .long("auto-submit")
                    .help("Submit the trade immediately (implies --auto-fund)")
                    .flag(),
            ),
        );
        b
    }

    /// Adds the `fund` subcommand.
    pub fn fund_trade(self) -> (r: Self)
        ensures
            r.command_part() == self.command_part(),
            r.pending() == self.pending().push(trade_fund_trade_view()),
    {
        let mut b = self;
        push_command(
            &mut b.subcommands,
            CommandSpec::new("fund")
            .about("Fund a trade with your account balance")
            .arg(
                ArgSpec::new("trade-id")
                    .long("trade-id")
                    .value_name("UUID")
                    .help("Trade UUID (non-interactive mode)"),
            ),
        );
        b
    }

    /// Adds the `cancel` subcommand.
    pub fn cancel_trade(self) -> (r: Self)
        ensures
            r.command_part() == self.command_part(),
            r.pending() == self.pending().push(trade_cancel_trade_view()),
    {
        let mut b = self;
        push_command(
            &mut b.subcommands,
            CommandSpec::new("cancel")
            .about(
                "The trade balance that is not in the market will be returned to your account balance",
            )
            .arg(
                ArgSpec::new("trade-id")
                    .long("trade-id")
                    .value_name("UUID")
                    .help("Trade UUID (non-interactive mode)"),
            ),
        );
        b
    }

    /// Adds the `submit` subcommand.
    pub fn submit_trade(self) -> (r: Self)
        ensures
            r.command_part() == self.command_part(),
            r.pending() == self.pending().push(trade_submit_trade_view()),
    {
        let mut b = self;
        push_command(
            &mut b.subcommands,
            CommandSpec::new("submit")
            .about("Submit a trade to a broker for execution. This will create an entry order in the broker's system")
            .arg(
                ArgSpec::new("trade-id")
                    .long("trade-id")
                    .value_name("UUID")
                    .help("Trade UUID (non-interactive mode)"),
            ),
        );
        b
    }

    /// Adds the `sync` subcommand.
    pub fn sync_trade(self) -> (r: Self)
        ensures
            r.command_part() == self.command_part(),
            r.pending() == self.pending().push(trade_sync_trade_view()),
    {
        let mut b = self;
        push_command(
            &mut b.subcommands,
            CommandSpec::new("sync")
            .about("Sync a trade with the broker. This will update the trade with the broker's system")
            .arg(
                ArgSpec::new("trade-id")
                    .long("trade-id")
                    .value_name("UUID")
                    .help("Trade UUID (non-interactive mode)"),
            ),
        );
        b
    }

    /// Adds the `watch` subcommand.
    pub fn watch_trade(self) -> (r: Self)
        ensures
            r.command_part() == self.command_part(),
            r.pending() == self.pending().push(trade_watch_trade_view()),
    {
        let mut b = self;
        push_command(
            &mut b.subcommands,
            CommandSpec::new("watch")
            .about(
                "Watch a trade until it reaches a terminal status (polls sync + shows new executions)",
            )
            .arg(
                ArgSpec::new("latest")
                    .long("latest")
                    .help("Watch the most recently updated open trade without prompting")
                    .flag(),
            ),
        );
        b
    }

    /// Adds the `manually-fill` subcommand.
    pub fn manually_fill(self) -> (r: Self)
        ensures
            r.command_part() == self.command_part(),
            r.pending() == self.pending().push(trade_manually_fill_view()),
    {
        let mut b = self;
        push_command(
            &mut b.subcommands,
            CommandSpec::new("manually-fill").about("Execute manually the filling of a trade. Meaning that the entry order was filled and we own the trading vehicle."),
        );
        b
    }

    /// Adds the `manually-stop` subcommand.
    pub fn manually_stop(self) -> (r: Self)
        ensures
            r.command_part() == self.command_part(),
            r.pending() == self.pending().push(trade_manually_stop_view()),
    {
        let mut b = self;
        push_command(
            &mut b.subcommands,
            CommandSpec::new("manually-stop").about("Execute manually the safety stop of a trade."),
        );
        b
    }

    /// Adds the `modify-stop` subcommand.
    pub fn modify_stop(self) -> (r: Self)
        ensures
            r.command_part() == self.command_part(),
            r.pending() == self.pending().push(trade_modify_stop_view()),
    {
        let mut b = self;
        push_command(
            &mut b.subcommands,
            CommandSpec::new("modify-stop").about("Modify the stop loss order of a filled trade."),
        );
        b
    }

    /// Adds the `modify-target` subcommand.
    pub fn modify_target(self) -> (r: Self)
        ensures
            r.command_part() == self.command_part(),
            r.pending() == self.pending().push(trade_modify_target_view()),
    {
        let mut b = self;
        push_command(
            &mut b.subcommands,
            CommandSpec::new("modify-target").about("Modify the target order of a filled trade."),
        );
        b
    }

    /// Adds the `manually-target` subcommand.
    pub fn manually_target(self) -> (r: Self)
        ensures
            r.command_part() == self.command_part(),
            r.pending() == self.pending().push(trade_manually_target_view()),
    {
        let mut b = self;
        push_command(
            &mut b.subcommands,
            CommandSpec::new("manually-target").about("Execute manually the target of a trade"),
        );
        b
    }

    /// Adds the `search` subcommand.
    pub fn search_trade(self) -> (r: Self)
        ensures
            r.command_part() == self.command_part(),
            r.pending() == self.pending().push(trade_search_trade_view()),
    {
        let mut b = self;
        push_command(
            &mut b.subcommands,
            CommandSpec::new("search")
            .about("Search trades with optional non-interactive filters")
            .arg(
                ArgSpec::new("account")
                    .long("account")
                    .value_name("ACCOUNT")
                    .help("Account ID or name (non-interactive mode)"),
            )
            .arg(
                ArgSpec::new("status")
                    .long("status")
                    .value_name("STATUS")
                    .help("Trade status filter (e.g. new,funded,submitted,filled,canceled)"),
            )
            .arg(
                ArgSpec::new("symbol")
                    .long("symbol")
                    .value_name("SYMBOL")
                    .help("Trading symbol filter (case-insensitive)"),
            )
            .arg(
                ArgSpec::new("from")
                    .long("from")
                    .value_name("YYYY-MM-DD")
                    .help("Start date filter (inclusive)"),
            )
            .arg(
                ArgSpec::new("to")
                    .long("to")
                    .value_name("YYYY-MM-DD")
                    .help("End date filter (inclusive)"),
            )
            .arg(
                ArgSpec::new("format")
                    .long("format")
                    .value_name("FORMAT")
                    .help("Output format")
                    .choices(vec!["text", "json"])
                    .default_value("text"),
            ),
        );
        b
    }

    /// Adds the `list-open` subcommand.
    pub fn list_open(self) -> (r: Self)
        ensures
            r.command_part() == self.command_part(),
            r.pending() == self.pending().push(trade_list_open_view()),
    {
        let mut b = self;
        push_command(
            &mut b.subcommands,
            CommandSpec::new("list-open")
            .about("List currently open trades without interactive prompts")
            .arg(
                ArgSpec::new("account")
                    .long("account")
                    .value_name("ACCOUNT")
                    .help("Optional account ID or name"),
            )
            .arg(
                ArgSpec::new("format")
                    .long("format")
                    .value_name("FORMAT")
                    .help("Output format")
                    .choices(vec!["text", "json"])
                    .default_value("text"),
            ),
        );
        b
    }

    /// Adds the `reconcile` subcommand.
    pub fn reconcile(self) -> (r: Self)
        ensures
            r.command_part() == self.command_part(),
            r.pending() == self.pending().push(trade_reconcile_view()),
    {
        let mut b = self;
        push_command(
            &mut b.subcommands,
            CommandSpec::new("reconcile")
            .about("Sync one or more open trades with the broker in batch mode")
            .arg(
                ArgSpec::new("trade-id")
                    .long("trade-id")
                    .value_name("UUID")
                    .help("Specific trade UUID to reconcile"),
            )
            .arg(
                ArgSpec::new("account")
                    .long("account")
                    .value_name("ACCOUNT")
                    .help("Optional account ID or name when reconciling all open trades"),
            )
            .arg(
                ArgSpec::new("format")
                    .long("format")
                    .value_name("FORMAT")
                    .help("Output format")
                    .choices(vec!["text", "json"])
                    .default_value("text"),
            ),
        );
        b
    }

    /// Adds the `manually-close` subcommand.
    pub fn manually_close(self) -> (r: Self)
        ensures
            r.command_part() == self.command_part(),
            r.pending() == self.pending().push(trade_manually_close_view()),
    {
        let mut b = self;
        push_command(
            &mut b.subcommands,
            CommandSpec::new("manually-close")
            .about("Manually close a trade with optional automatic profit distribution")
            .arg(
                ArgSpec::new("auto-distribute")
                    .long("auto-distribute")
                    .short('d')
                    .help("Automatically distribute profits after closing the trade")
                    .flag(),
            ),
        );
        b
    }

    /// Adds the `size-preview` subcommand.
    pub fn size_preview(self) -> (r: Self)
        ensures
            r.command_part() == self.command_part(),
            r.pending() == self.pending().push(trade_size_preview_view()),
    {
        let mut b = self;
        push_command(
            &mut b.subcommands,
            CommandSpec::new("size-preview")
            .about("Preview base and level-adjusted position sizes")
            .arg(
                ArgSpec::new("account")
                    .long("account")
                    .short('a')
                    .value_name("ACCOUNT_ID")
                    .help("Target account ID")
                    .required(true),
            )
            .arg(
                ArgSpec::new("entry")
                    .long("entry")
                    .value_name("PRICE")
                    .help("Planned entry price")
                    .required(true),
            )
            .arg(
                ArgSpec::new("stop")
                    .long("stop")
                    .value_name("PRICE")
                    .help("Planned stop price")
                    .required(true),
            )
            .arg(
                ArgSpec::new("currency")
                    .long("currency")
                    .value_name("CURRENCY")
                    .help("Currency code (USD by default)")
                    .required(false)
                    .default_value("usd"),
            )
            .arg(
                ArgSpec::new("format")
                    .long("format")
                    .value_name("FORMAT")
                    .help("Output format")
                    .choices(vec!["text", "json"])
                    .default_value("text")
                    .required(false),
            ),
        );
        b
    }

}

} // verus!
