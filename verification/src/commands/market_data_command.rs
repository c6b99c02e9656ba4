//! The `market-data` command line.

use vstd::prelude::*;
use crate::cli_spec::{ArgSpec, ArgView, CommandSpec, CommandView, command_views, push_command};

verus! {

/// Builder of the `market-data` command line.
pub struct MarketDataCommandBuilder {
    command: CommandSpec,
    subcommands: Vec<CommandSpec>,
}

/// The `market_data` command before its subcommands are added.
pub open spec fn market_data_root_view() -> CommandView {
    CommandView::new("market-data")
    .about("Fetch and normalize broker market data")
    .arg(
        ArgView::new("format")
            .long("format")
            .value_name("FORMAT")
            .help("Output format")
            .choices(seq!["text", "json"])
            .default_value("text")
            .global(true),
    )
    .arg_required_else_help(true)
}

/// The `snapshot` subcommand that `snapshot` adds.
pub open spec fn market_data_snapshot_view() -> CommandView {
    CommandView::new("snapshot")
    .about("Get latest best-effort snapshot for a symbol")
    .arg(
        ArgView::new("account")
            .long("account")
            .value_name("ACCOUNT")
            .help("Account name or UUID used to resolve broker keys")
            .required(true),
    )
    .arg(
        ArgView::new("symbol")
            .long("symbol")
            .value_name("SYMBOL")
            .help("Ticker symbol (e.g. AAPL)")
            .required(true),
    )
}

/// The `bars` subcommand that `bars` adds.
pub open spec fn market_data_bars_view() -> CommandView {
    CommandView::new("bars")
    .about("Get historical OHLCV bars for a symbol")
    .arg(
        ArgView::new("account")
            .long("account")
            .value_name("ACCOUNT")
            .help("Account name or UUID used to resolve broker keys")
            .required(true),
    )
    .arg(
        ArgView::new("symbol")
            .long("symbol")
            .value_name("SYMBOL")
            .help("Ticker symbol (e.g. AAPL)")
            .required(true),
    )
    .arg(
        ArgView::new("timeframe")
            .long("timeframe")
            .value_name("TIMEFRAME")
            .help("Bar timeframe: 1m | 1h | 1d")
            .choices(seq!["1m", "1h", "1d"])
            .required(true),
    )
    .arg(
        ArgView::new("start")
            .long("start")
            .value_name("RFC3339")
            .help("Start timestamp (RFC3339, e.g. 2026-01-01T00:00:00Z)")
            .required(true),
    )
    .arg(
        ArgView::new("end")
            .long("end")
            .value_name("RFC3339")
            .help("End timestamp (RFC3339, e.g. 2026-01-02T00:00:00Z)")
            .required(true),
    )
}

/// The `stream` subcommand that `stream` adds.
pub open spec fn market_data_stream_view() -> CommandView {
    CommandView::new("stream")
    .about("Stream realtime bars/quotes/trades for symbols")
    .arg(
        ArgView::new("account")
            .long("account")
            .value_name("ACCOUNT")
            .help("Account name or UUID used to resolve broker keys")
            .required(true),
    )
    .arg(
        ArgView::new("symbols")
            .long("symbols")
            .value_name("SYMBOLS")
            .help("Comma-separated symbols (e.g. AAPL,MSFT)")
            .required(true),
    )
    .arg(
        ArgView::new("channels")
            .long("channels")
            .value_name("CHANNELS")
            .help("Comma-separated channels: bars,quotes,trades")
            .default_value("quotes,trades"),
    )
    .arg(
        ArgView::new("max-events")
            .long("max-events")
            .value_name("N")
            .help("Maximum number of events to emit before exit")
            .default_value("50"),
    )
    .arg(
        ArgView::new("timeout-seconds")
            .long("timeout-seconds")
            .value_name("SECONDS")
            .help("Maximum stream duration in seconds")
            .default_value("10"),
    )
}

/// The `quote` subcommand that `quote` adds.
pub open spec fn market_data_quote_view() -> CommandView {
    CommandView::new("quote")
    .about("Get latest quote (bid/ask) for a symbol")
    .arg(
        ArgView::new("account")
            .long("account")
            .value_name("ACCOUNT")
            .help("Account name or UUID used to resolve broker keys")
            .required(true),
    )
    .arg(
        ArgView::new("symbol")
            .long("symbol")
            .value_name("SYMBOL")
            .help("Ticker symbol (e.g. AAPL)")
            .required(true),
    )
}

/// The `trade` subcommand that `trade` adds.
pub open spec fn market_data_trade_view() -> CommandView {
    CommandView::new("trade")
    .about("Get latest trade tick for a symbol")
    .arg(
        ArgView::new("account")
            .long("account")
            .value_name("ACCOUNT")
            .help("Account name or UUID used to resolve broker keys")
            .required(true),
    )
    .arg(
        ArgView::new("symbol")
            .long("symbol")
            .value_name("SYMBOL")
            .help("Ticker symbol (e.g. AAPL)")
            .required(true),
    )
}

/// The `session` subcommand that `session` adds.
pub open spec fn market_data_session_view() -> CommandView {
    CommandView::new("session")
    .about("Get latest session freshness and source metadata for a symbol")
    .arg(
        ArgView::new("account")
            .long("account")
            .value_name("ACCOUNT")
            .help("Account name or UUID used to resolve broker keys")
            .required(true),
    )
    .arg(
        ArgView::new("symbol")
            .long("symbol")
            .value_name("SYMBOL")
            .help("Ticker symbol (e.g. AAPL)")
            .required(true),
    )
}

impl MarketDataCommandBuilder {
    /// The command being built, without the subcommands added so far.
    pub closed spec fn command_part(&self) -> CommandView {
        self.command@
    }

    /// The subcommands added so far.
    pub closed spec fn pending(&self) -> Seq<CommandView> {
        command_views(self.subcommands@)
    }

    /// A builder with the bare `market-data` command.
    pub fn new() -> (r: Self)
        ensures
            r.command_part() == market_data_root_view(),
            r.pending() == Seq::<CommandView>::empty(),
    {
        let subcommands: Vec<CommandSpec> = Vec::new();
        assert(command_views(subcommands@) =~= Seq::<CommandView>::empty());
        MarketDataCommandBuilder {
            command: CommandSpec::new("market-data")
            .about("Fetch and normalize broker market data")
            .arg(
                ArgSpec::new("format")
                    .long("format")
                    .value_name("FORMAT")
                    .help("Output format")
                    .choices(vec!["text", "json"])
                    .default_value("text")
                    .global(true),
            )
            .arg_required_else_help(true),
            subcommands,
        }
    }

    /// The command with the subcommands added so far.
    pub fn build(self) -> (r: CommandSpec)
        ensures
            r@ == self.command_part().subcommands(self.pending()),
    {
        self.command.subcommands(self.subcommands)
    }

    /// Adds the `snapshot` subcommand.
    pub fn snapshot(self) -> (r: Self)
        ensures
            r.command_part() == self.command_part(),
            r.pending() == self.pending().push(market_data_snapshot_view()),
    {
        let mut b = self;
        push_command(
            &mut b.subcommands,
            CommandSpec::new("snapshot")
            .about("Get latest best-effort snapshot for a symbol")
            .arg(
                ArgSpec::new("account")
                    .long("account")
                    .value_name("ACCOUNT")
                    .help("Account name or UUID used to resolve broker keys")
                    .required(true),
            )
            .arg(
                ArgSpec::new("symbol")
                    .long("symbol")
                    .value_name("SYMBOL")
                    .help("Ticker symbol (e.g. AAPL)")
                    .required(true),
            ),
        );
        b
    }

    /// Adds the `bars` subcommand.
    pub fn bars(self) -> (r: Self)
        ensures
            r.command_part() == self.command_part(),
            r.pending() == self.pending().push(market_data_bars_view()),
    {
        let mut b = self;
        push_command(
            &mut b.subcommands,
            CommandSpec::new("bars")
            .about("Get historical OHLCV bars for a symbol")
            .arg(
                ArgSpec::new("account")
                    .long("account")
                    .value_name("ACCOUNT")
                    .help("Account name or UUID used to resolve broker keys")
                    .required(true),
            )
            .arg(
                ArgSpec::new("symbol")
                    .long("symbol")
                    .value_name("SYMBOL")
                    .help("Ticker symbol (e.g. AAPL)")
                    .required(true),
            )
            .arg(
                ArgSpec::new("timeframe")
                    .long("timeframe")
                    .value_name("TIMEFRAME")
                    .help("Bar timeframe: 1m | 1h | 1d")
                    .choices(vec!["1m", "1h", "1d"])
                    .required(true),
            )
            .arg(
                ArgSpec::new("start")
                    .long("start")
                    .value_name("RFC3339")
                    .help("Start timestamp (RFC3339, e.g. 2026-01-01T00:00:00Z)")
                    .required(true),
            )
            .arg(
                ArgSpec::new("end")
                    .long("end")
                    .value_name("RFC3339")
                    .help("End timestamp (RFC3339, e.g. 2026-01-02T00:00:00Z)")
                    .required(true),
            ),
        );
        b
    }

    /// Adds the `stream` subcommand.
    pub fn stream(self) -> (r: Self)
        ensures
            r.command_part() == self.command_part(),
            r.pending() == self.pending().push(market_data_stream_view()),
    {
        let mut b = self;
        push_command(
            &mut b.subcommands,
            CommandSpec::new("stream")
            .about("Stream realtime bars/quotes/trades for symbols")
            .arg(
                ArgSpec::new("account")
                    .long("account")
                    .value_name("ACCOUNT")
                    .help("Account name or UUID used to resolve broker keys")
                    .required(true),
            )
            .arg(
                ArgSpec::new("symbols")
                    .long("symbols")
                    .value_name("SYMBOLS")
                    .help("Comma-separated symbols (e.g. AAPL,MSFT)")
                    .required(true),
            )
            .arg(
                ArgSpec::new("channels")
                    .long("channels")
                    .value_name("CHANNELS")
                    .help("Comma-separated channels: bars,quotes,trades")
                    .default_value("quotes,trades"),
            )
            .arg(
                ArgSpec::new("max-events")
                    .long("max-events")
                    .value_name("N")
                    .help("Maximum number of events to emit before exit")
                    .default_value("50"),
            )
            .arg(
                ArgSpec::new("timeout-seconds")
                    .long("timeout-seconds")
                    .value_name("SECONDS")
                    .help("Maximum stream duration in seconds")
                    .default_value("10"),
            ),
        );
        b
    }

    /// Adds the `quote` subcommand.
    pub fn quote(self) -> (r: Self)
        ensures
            r.command_part() == self.command_part(),
            r.pending() == self.pending().push(market_data_quote_view()),
    {
        let mut b = self;
        push_command(
            &mut b.subcommands,
            CommandSpec::new("quote")
            .about("Get latest quote (bid/ask) for a symbol")
            .arg(
                ArgSpec::new("account")
                    .long("account")
                    .value_name("ACCOUNT")
                    .help("Account name or UUID used to resolve broker keys")
                    .required(true),
            )
            .arg(
                ArgSpec::new("symbol")
                    .long("symbol")
                    .value_name("SYMBOL")
                    .help("Ticker symbol (e.g. AAPL)")
                    .required(true),
            ),
        );
        b
    }

    /// Adds the `trade` subcommand.
    pub fn trade(self) -> (r: Self)
        ensures
            r.command_part() == self.command_part(),
            r.pending() == self.pending().push(market_data_trade_view()),
    {
        let mut b = self;
        push_command(
            &mut b.subcommands,
            CommandSpec::new("trade")
            .about("Get latest trade tick for a symbol")
            .arg(
                ArgSpec::new("account")
                    .long("account")
                    .value_name("ACCOUNT")
                    .help("Account name or UUID used to resolve broker keys")
                    .required(true),
            )
            .arg(
                ArgSpec::new("symbol")
                    .long("symbol")
                    .value_name("SYMBOL")
                    .help("Ticker symbol (e.g. AAPL)")
                    .required(true),
            ),
        );
        b
    }

    /// Adds the `session` subcommand.
    pub fn session(self) -> (r: Self)
        ensures
            r.command_part() == self.command_part(),
            r.pending() == self.pending().push(market_data_session_view()),
    {
        let mut b = self;
        push_command(
            &mut b.subcommands,
            CommandSpec::new("session")
            .about("Get latest session freshness and source metadata for a symbol")
            .arg(
                ArgSpec::new("account")
                    .long("account")
                    .value_name("ACCOUNT")
                    .help("Account name or UUID used to resolve broker keys")
                    .required(true),
            )
            .arg(
                ArgSpec::new("symbol")
                    .long("symbol")
                    .value_name("SYMBOL")
                    .help("Ticker symbol (e.g. AAPL)")
                    .required(true),
            ),
        );
        b
    }

}

impl Default for MarketDataCommandBuilder {
    fn default() -> (r: Self)
        ensures
            r.command_part() == market_data_root_view(),
            r.pending() == Seq::<CommandView>::empty(),
    {
        Self::new()
    }
}

} // verus!
