# trust_cli

The verified core of `trust`, a command-line tool for risk-managed trading.
The library holds the tool's own logic with Verus contracts; the program
around it lives in `app/`.

## Layout

- `src/cli_spec.rs`, `src/commands/*`, `src/cli.rs`: the command line as
  plain data (commands, arguments, subcommands), built by one builder per
  command group; `build_cli` is proved to produce the full description, and
  `cli.rs` proves (`lemma_cli_groups_are_routed`,
  `lemma_cli_subcommands_are_routed`) that every group and subcommand it
  offers is dispatched.
- `src/cli_clap.rs`: turns the description into a `clap` command.
- `src/command_routing.rs`: maps the subcommand path of parsed arguments to
  the commands it selects (`parse_*` where the path must be known,
  `try_parse_*` where it may not be).
- `src/decimal.rs`, `src/display_precision.rs`: decimals as `rust_decimal`
  stores them, and how prices and quantities are printed per asset class.
- `src/output.rs`, `src/text.rs`: formatted output (accounts, distributions,
  errors, progress) and the text helpers it rests on.
- `src/protected_keyword.rs`: where the protected mutation keyword is read
  from and written to; the program performs the environment and keychain
  access the library asks for.
- `src/trading_vehicle_import.rs`: mapping broker metadata to a trading
  vehicle record.
- `src/exporters.rs`: the CSV export of advanced metrics.
- `src/parse.rs`, `src/dialogs/*`: prompts, and what a typed or picked
  answer does to the field it fills; the decisions of watching a trade and
  of funding one after the advisory check.
- `app/`: `main`, the terminal prompts, keychain access, progress printing
  and the JSON export.
