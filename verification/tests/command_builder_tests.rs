use clap::builder::ValueParser;
use trust_cli::commands::account_command::AccountCommandBuilder;
use trust_cli::commands::advisor_command::AdvisorCommandBuilder;
use trust_cli::commands::db_command::DbCommandBuilder;
use trust_cli::commands::distribution_command::DistributionCommandBuilder;
use trust_cli::commands::grade_command::GradeCommandBuilder;
use trust_cli::commands::key_command::KeysCommandBuilder;
use trust_cli::commands::level_command::LevelCommandBuilder;
use trust_cli::commands::market_data_command::MarketDataCommandBuilder;
use trust_cli::commands::metrics_command::MetricsCommandBuilder;
use trust_cli::commands::onboarding_command::OnboardingCommandBuilder;
use trust_cli::commands::policy_command::PolicyCommandBuilder;
use trust_cli::commands::report_command::ReportCommandBuilder;
use trust_cli::commands::rule_command::RuleCommandBuilder;
use trust_cli::commands::session_command::SessionCommandBuilder;
use trust_cli::commands::trade_command::TradeCommandBuilder;
use trust_cli::commands::trading_vehicle_command::TradingVehicleCommandBuilder;
use trust_cli::commands::transaction_command::TransactionCommandBuilder;
use trust_cli::cli_clap::to_clap;
use trust_cli::cli_spec::CommandSpec;

fn parser(spec: &CommandSpec) -> clap::Command {
    to_clap(spec, &ValueParser::new(|s: &str| s.parse::<f64>()))
}

#[test]
fn create_non_interactive_parses() {
    let cmd = parser(&AccountCommandBuilder::new().create_account().build());
    let parent = "550e8400-e29b-41d4-a716-446655440000";
    let result = cmd.try_get_matches_from([
        "accounts",
        "create",
        "--name",
        "Tax Reserve",
        "--description",
        "Tax",
        "--environment",
        "paper",
        "--taxes",
        "25",
        "--earnings",
        "30",
        "--type",
        "tax-reserve",
        "--parent",
        parent,
    ]);
    assert!(result.is_ok());
}

#[test]
fn list_hierarchy_parses() {
    let cmd = parser(&AccountCommandBuilder::new().list_accounts().build());
    let result = cmd.try_get_matches_from(["accounts", "list", "--hierarchy"]);
    assert!(result.is_ok());
}

#[test]
fn balance_detailed_parses() {
    let cmd = parser(&AccountCommandBuilder::new().balance_accounts().build());
    let result = cmd.try_get_matches_from(["accounts", "balance", "--detailed"]);
    assert!(result.is_ok());
}

#[test]
fn configure_parses() {
    let cmd = parser(&AdvisorCommandBuilder::new().configure().build());
    let result = cmd.try_get_matches_from([
        "advisor",
        "configure",
        "--account",
        "550e8400-e29b-41d4-a716-446655440000",
        "--sector-limit",
        "30",
        "--asset-class-limit",
        "40",
        "--single-position-limit",
        "15",
    ]);
    assert!(result.is_ok());
}

#[test]
fn check_parses() {
    let cmd = parser(&AdvisorCommandBuilder::new().check().build());
    let result = cmd.try_get_matches_from([
        "advisor",
        "check",
        "--account",
        "550e8400-e29b-41d4-a716-446655440000",
        "--symbol",
        "AAPL",
        "--entry",
        "150",
        "--quantity",
        "100",
    ]);
    assert!(result.is_ok());
}

#[test]
fn status_and_history_parse() {
    let status_cmd = parser(&AdvisorCommandBuilder::new().status().build());
    let status = status_cmd
        .try_get_matches_from([
            "advisor",
            "status",
            "--account",
            "550e8400-e29b-41d4-a716-446655440000",
        ])
        .expect("status should parse");
    let status_sub = status
        .subcommand_matches("status")
        .expect("status subcommand");
    assert_eq!(
        status_sub.get_one::<String>("account").map(String::as_str),
        Some("550e8400-e29b-41d4-a716-446655440000")
    );

    let history_cmd = parser(&AdvisorCommandBuilder::new().history().build());
    let history = history_cmd
        .try_get_matches_from([
            "advisor",
            "history",
            "--account",
            "550e8400-e29b-41d4-a716-446655440000",
            "--days",
            "7",
        ])
        .expect("history should parse");
    let history_sub = history
        .subcommand_matches("history")
        .expect("history subcommand");
    assert_eq!(
        history_sub.get_one::<String>("account").map(String::as_str),
        Some("550e8400-e29b-41d4-a716-446655440000")
    );
    assert_eq!(
        history_sub.get_one::<String>("days").map(String::as_str),
        Some("7")
    );
}

#[test]
fn advisor_command_default_matches_new() {
    let from_default = parser(&AdvisorCommandBuilder::default().configure().build());
    let from_new = parser(&AdvisorCommandBuilder::new().configure().build());
    assert_eq!(from_default.get_name(), from_new.get_name());
}

#[test]
fn db_builder_registers_export_and_import() {
    let cmd = parser(&DbCommandBuilder::new().export().import().build());
    assert!(cmd.get_subcommands().any(|c| c.get_name() == "export"));
    assert!(cmd.get_subcommands().any(|c| c.get_name() == "import"));
}

#[test]
fn db_export_parses_optional_output() {
    let cmd = parser(&DbCommandBuilder::new().export().build());
    let matches = cmd
        .try_get_matches_from(["db", "export", "--output", "backup.json"])
        .expect("db export should parse");
    let export = matches
        .subcommand_matches("export")
        .expect("export subcommand");
    assert_eq!(
        export.get_one::<String>("output").map(String::as_str),
        Some("backup.json")
    );
}

#[test]
fn db_import_parses_required_and_optional_args() {
    let cmd = parser(&DbCommandBuilder::new().import().build());
    let matches = cmd
        .try_get_matches_from([
            "db",
            "import",
            "--input",
            "backup.json",
            "--mode",
            "replace",
            "--dry-run",
            "--confirm-protected",
            "keyword",
        ])
        .expect("db import should parse");
    let import = matches
        .subcommand_matches("import")
        .expect("import subcommand");
    assert_eq!(
        import.get_one::<String>("input").map(String::as_str),
        Some("backup.json")
    );
    assert_eq!(
        import.get_one::<String>("mode").map(String::as_str),
        Some("replace")
    );
    assert!(import.get_flag("dry-run"));
    assert_eq!(
        import
            .get_one::<String>("confirm-protected")
            .map(String::as_str),
        Some("keyword")
    );
}

#[test]
fn db_command_default_matches_new() {
    let from_default = parser(&DbCommandBuilder::default().export().build());
    let from_new = parser(&DbCommandBuilder::new().export().build());
    assert_eq!(from_default.get_name(), from_new.get_name());
}

#[test]
fn configure_allows_missing_password_flag() {
    let cmd = parser(&DistributionCommandBuilder::new()
        .configure_distribution()
        .execute_distribution()
        .history()
        .build());

    let account_id = "550e8400-e29b-41d4-a716-446655440000";
    let result = cmd.try_get_matches_from([
        "distribution",
        "configure",
        "--account-id",
        account_id,
        "--earnings",
        "40.0",
        "--tax",
        "30.0",
        "--reinvestment",
        "30.0",
        "--threshold",
        "100.0",
    ]);

    assert!(result.is_ok());
}

#[test]
fn history_subcommand_parses() {
    let cmd = parser(&DistributionCommandBuilder::new().history().build());
    let account_id = "550e8400-e29b-41d4-a716-446655440000";
    let result =
        cmd.try_get_matches_from(["distribution", "history", "--account-id", account_id]);
    assert!(result.is_ok());
}

#[test]
fn rules_subcommand_parses() {
    let cmd = parser(&DistributionCommandBuilder::new().show_rules().build());
    let account_id = "550e8400-e29b-41d4-a716-446655440000";
    let result =
        cmd.try_get_matches_from(["distribution", "rules", "--account-id", account_id]);
    assert!(result.is_ok());
}

#[test]
fn rules_show_subcommand_parses() {
    let cmd = parser(&DistributionCommandBuilder::new().show_rules().build());
    let account_id = "550e8400-e29b-41d4-a716-446655440000";
    let result =
        cmd.try_get_matches_from(["distribution", "rules", "show", "--account-id", account_id]);
    assert!(result.is_ok());
}

#[test]
fn grade_builder_registers_subcommands() {
    let cmd = parser(&GradeCommandBuilder::new().show().summary().build());
    assert!(cmd.get_subcommands().any(|c| c.get_name() == "show"));
    assert!(cmd.get_subcommands().any(|c| c.get_name() == "summary"));
}

#[test]
fn grade_show_parses_required_and_optional_args() {
    let cmd = parser(&GradeCommandBuilder::new().show().build());
    let matches = cmd
        .try_get_matches_from([
            "grade",
            "--format",
            "json",
            "show",
            "trade-id",
            "--regrade",
            "--weights",
            "40,30,20,10",
        ])
        .expect("grade show should parse");
    assert_eq!(
        matches.get_one::<String>("format").map(String::as_str),
        Some("json")
    );
    let show = matches.subcommand_matches("show").expect("show subcommand");
    assert_eq!(
        show.get_one::<String>("trade_id").map(String::as_str),
        Some("trade-id")
    );
    assert!(show.get_flag("regrade"));
    assert_eq!(
        show.get_one::<String>("weights").map(String::as_str),
        Some("40,30,20,10")
    );
}

#[test]
fn grade_summary_parses_window_and_account() {
    let cmd = parser(&GradeCommandBuilder::new().summary().build());
    let matches = cmd
        .try_get_matches_from([
            "grade",
            "summary",
            "--account",
            "acc-1",
            "--days",
            "30",
            "--weights",
            "400,300,200,100",
        ])
        .expect("grade summary should parse");
    let summary = matches
        .subcommand_matches("summary")
        .expect("summary subcommand");
    assert_eq!(
        summary.get_one::<String>("account").map(String::as_str),
        Some("acc-1")
    );
    assert_eq!(summary.get_one::<u32>("days"), Some(&30));
    assert_eq!(
        summary.get_one::<String>("weights").map(String::as_str),
        Some("400,300,200,100")
    );
}

#[test]
fn grade_command_default_matches_new() {
    let from_default = parser(&GradeCommandBuilder::default().show().build());
    let from_new = parser(&GradeCommandBuilder::new().show().build());
    assert_eq!(from_default.get_name(), from_new.get_name());
}

#[test]
fn keys_builder_registers_all_subcommands() {
    let cmd = parser(&KeysCommandBuilder::new()
        .create_keys()
        .read_environment()
        .delete_environment()
        .protected_set()
        .protected_show()
        .protected_delete()
        .build());
    for name in [
        "create",
        "show",
        "delete",
        "protected-set",
        "protected-show",
        "protected-delete",
    ] {
        assert!(cmd.get_subcommands().any(|c| c.get_name() == name));
    }
}

#[test]
fn keys_protected_set_parses_required_value() {
    let cmd = parser(&KeysCommandBuilder::new().protected_set().build());
    let matches = cmd
        .try_get_matches_from([
            "keys",
            "protected-set",
            "--value",
            "new-keyword",
            "--confirm-protected",
            "old-keyword",
        ])
        .expect("protected-set should parse");
    let sub = matches
        .subcommand_matches("protected-set")
        .expect("protected-set subcommand");
    assert_eq!(
        sub.get_one::<String>("value").map(String::as_str),
        Some("new-keyword")
    );
    assert_eq!(
        sub.get_one::<String>("confirm-protected")
            .map(String::as_str),
        Some("old-keyword")
    );
}

#[test]
fn test_level_builder_subcommands_present() {
    let cmd = parser(&LevelCommandBuilder::new()
        .status()
        .triggers()
        .history()
        .change()
        .evaluate()
        .progress()
        .rules()
        .build());

    let names: Vec<&str> = cmd.get_subcommands().map(|s| s.get_name()).collect();
    assert!(names.contains(&"status"));
    assert!(names.contains(&"triggers"));
    assert!(names.contains(&"history"));
    assert!(names.contains(&"change"));
    assert!(names.contains(&"evaluate"));
    assert!(names.contains(&"progress"));
    assert!(names.contains(&"rules"));
}

#[test]
fn test_level_subcommand_parsing_shapes() {
    let status_cmd = parser(&LevelCommandBuilder::new().status().build());
    let status = status_cmd
        .try_get_matches_from([
            "level",
            "status",
            "--account",
            "550e8400-e29b-41d4-a716-446655440000",
        ])
        .expect("status should parse");
    let status_sub = status
        .subcommand_matches("status")
        .expect("status subcommand");
    assert_eq!(
        status_sub.get_one::<String>("account").map(String::as_str),
        Some("550e8400-e29b-41d4-a716-446655440000")
    );

    let history_cmd = parser(&LevelCommandBuilder::new().history().build());
    let history = history_cmd
        .try_get_matches_from(["level", "history", "--account", "acc-1", "--days", "30"])
        .expect("history should parse");
    let history_sub = history
        .subcommand_matches("history")
        .expect("history subcommand");
    assert_eq!(
        history_sub.get_one::<String>("account").map(String::as_str),
        Some("acc-1")
    );
    assert_eq!(history_sub.get_one::<u32>("days"), Some(&30));

    let rules_cmd = parser(&LevelCommandBuilder::new().rules().build());
    let show = rules_cmd
        .clone()
        .try_get_matches_from(["level", "rules", "show", "--account", "acc-1"])
        .expect("rules show should parse");
    let rules_show = show
        .subcommand_matches("rules")
        .expect("rules subcommand")
        .subcommand_matches("show")
        .expect("rules show subcommand");
    assert_eq!(
        rules_show.get_one::<String>("account").map(String::as_str),
        Some("acc-1")
    );

    let set = rules_cmd
        .try_get_matches_from([
            "level",
            "rules",
            "set",
            "--account",
            "acc-1",
            "--rule",
            "upgrade_profitable_trades",
            "--value",
            "7",
        ])
        .expect("rules set should parse");
    let rules_set = set
        .subcommand_matches("rules")
        .expect("rules subcommand")
        .subcommand_matches("set")
        .expect("rules set subcommand");
    assert_eq!(
        rules_set.get_one::<String>("account").map(String::as_str),
        Some("acc-1")
    );
    assert_eq!(
        rules_set.get_one::<String>("rule").map(String::as_str),
        Some("upgrade_profitable_trades")
    );
    assert_eq!(
        rules_set.get_one::<String>("value").map(String::as_str),
        Some("7")
    );
}

#[test]
fn test_level_default_matches_new() {
    let from_default = parser(&LevelCommandBuilder::default().status().build());
    let from_new = parser(&LevelCommandBuilder::new().status().build());
    assert_eq!(from_default.get_name(), from_new.get_name());
}

#[test]
fn market_data_builder_registers_subcommands() {
    let cmd = parser(&MarketDataCommandBuilder::new()
        .snapshot()
        .bars()
        .stream()
        .quote()
        .trade()
        .session()
        .build());
    let names: Vec<String> = cmd
        .get_subcommands()
        .map(|sub| sub.get_name().to_string())
        .collect();
    assert!(names.contains(&"snapshot".to_string()));
    assert!(names.contains(&"bars".to_string()));
    assert!(names.contains(&"stream".to_string()));
    assert!(names.contains(&"quote".to_string()));
    assert!(names.contains(&"trade".to_string()));
    assert!(names.contains(&"session".to_string()));
}

#[test]
fn market_data_snapshot_and_bars_parse() {
    let snapshot = parser(&MarketDataCommandBuilder::new().snapshot().build());
    let snapshot_matches = snapshot
        .try_get_matches_from([
            "market-data",
            "--format",
            "json",
            "snapshot",
            "--account",
            "acc-1",
            "--symbol",
            "AAPL",
        ])
        .expect("snapshot should parse");
    assert_eq!(
        snapshot_matches
            .get_one::<String>("format")
            .map(String::as_str),
        Some("json")
    );
    let snapshot_sub = snapshot_matches
        .subcommand_matches("snapshot")
        .expect("snapshot subcommand");
    assert_eq!(
        snapshot_sub
            .get_one::<String>("account")
            .map(String::as_str),
        Some("acc-1")
    );
    assert_eq!(
        snapshot_sub.get_one::<String>("symbol").map(String::as_str),
        Some("AAPL")
    );

    let bars = parser(&MarketDataCommandBuilder::new().bars().build());
    let bars_matches = bars
        .try_get_matches_from([
            "market-data",
            "bars",
            "--account",
            "acc-1",
            "--symbol",
            "AAPL",
            "--timeframe",
            "1d",
            "--start",
            "2026-01-01T00:00:00Z",
            "--end",
            "2026-01-02T00:00:00Z",
        ])
        .expect("bars should parse");
    let bars_sub = bars_matches
        .subcommand_matches("bars")
        .expect("bars subcommand");
    assert_eq!(
        bars_sub.get_one::<String>("account").map(String::as_str),
        Some("acc-1")
    );
    assert_eq!(
        bars_sub.get_one::<String>("symbol").map(String::as_str),
        Some("AAPL")
    );
    assert_eq!(
        bars_sub.get_one::<String>("timeframe").map(String::as_str),
        Some("1d")
    );

    let stream = parser(&MarketDataCommandBuilder::new().stream().build());
    let stream_matches = stream
        .try_get_matches_from([
            "market-data",
            "stream",
            "--account",
            "acc-1",
            "--symbols",
            "AAPL,MSFT",
            "--channels",
            "quotes,trades",
            "--max-events",
            "10",
            "--timeout-seconds",
            "5",
        ])
        .expect("stream should parse");
    let stream_sub = stream_matches
        .subcommand_matches("stream")
        .expect("stream subcommand");
    assert_eq!(
        stream_sub.get_one::<String>("symbols").map(String::as_str),
        Some("AAPL,MSFT")
    );
    assert_eq!(
        stream_sub.get_one::<String>("channels").map(String::as_str),
        Some("quotes,trades")
    );

    let quote = parser(&MarketDataCommandBuilder::new().quote().build());
    let quote_matches = quote
        .try_get_matches_from([
            "market-data",
            "quote",
            "--account",
            "acc-1",
            "--symbol",
            "AAPL",
        ])
        .expect("quote should parse");
    let quote_sub = quote_matches
        .subcommand_matches("quote")
        .expect("quote subcommand");
    assert_eq!(
        quote_sub.get_one::<String>("symbol").map(String::as_str),
        Some("AAPL")
    );

    let trade = parser(&MarketDataCommandBuilder::new().trade().build());
    let trade_matches = trade
        .try_get_matches_from([
            "market-data",
            "trade",
            "--account",
            "acc-1",
            "--symbol",
            "AAPL",
        ])
        .expect("trade should parse");
    assert!(trade_matches.subcommand_matches("trade").is_some());

    let session = parser(&MarketDataCommandBuilder::new().session().build());
    let session_matches = session
        .try_get_matches_from([
            "market-data",
            "session",
            "--account",
            "acc-1",
            "--symbol",
            "AAPL",
        ])
        .expect("session should parse");
    assert!(session_matches.subcommand_matches("session").is_some());
}

#[test]
fn market_data_default_matches_new() {
    let from_default = parser(&MarketDataCommandBuilder::default().snapshot().build());
    let from_new = parser(&MarketDataCommandBuilder::new().snapshot().build());
    assert_eq!(from_default.get_name(), from_new.get_name());
}

#[test]
fn metrics_builder_registers_subcommands() {
    let cmd = parser(&MetricsCommandBuilder::new()
        .advanced()
        .compare()
        .bond()
        .build());
    assert!(cmd.get_subcommands().any(|c| c.get_name() == "advanced"));
    assert!(cmd.get_subcommands().any(|c| c.get_name() == "compare"));
    assert!(cmd.get_subcommands().any(|c| c.get_name() == "bond"));
}

#[test]
fn metrics_advanced_parses_all_options() {
    let cmd = parser(&MetricsCommandBuilder::new().advanced().build());
    let matches = cmd
        .try_get_matches_from([
            "metrics",
            "advanced",
            "--account",
            "acc-1",
            "--days",
            "90",
            "--risk-free-rate",
            "0.03",
            "--export",
            "json",
            "--output",
            "metrics.json",
        ])
        .expect("metrics advanced should parse");
    let advanced = matches
        .subcommand_matches("advanced")
        .expect("advanced subcommand");
    assert_eq!(
        advanced.get_one::<String>("account").map(String::as_str),
        Some("acc-1")
    );
    assert_eq!(advanced.get_one::<u32>("days"), Some(&90));
    assert_eq!(advanced.get_one::<f64>("risk-free-rate"), Some(&0.03_f64));
    assert_eq!(
        advanced.get_one::<String>("export").map(String::as_str),
        Some("json")
    );
}

#[test]
fn metrics_compare_requires_two_periods() {
    let cmd = parser(&MetricsCommandBuilder::new().compare().build());
    let matches = cmd
        .try_get_matches_from([
            "metrics",
            "compare",
            "--period1",
            "last-30-days",
            "--period2",
            "previous-30-days",
            "--format",
            "json",
            "--export",
            "csv",
        ])
        .expect("metrics compare should parse");
    let compare = matches
        .subcommand_matches("compare")
        .expect("compare subcommand");
    assert_eq!(
        compare.get_one::<String>("period1").map(String::as_str),
        Some("last-30-days")
    );
    assert_eq!(
        compare.get_one::<String>("period2").map(String::as_str),
        Some("previous-30-days")
    );
    assert_eq!(
        compare.get_one::<String>("format").map(String::as_str),
        Some("json")
    );
}

#[test]
fn metrics_compare_parses_optional_account_and_output() {
    let cmd = parser(&MetricsCommandBuilder::new().compare().build());
    let matches = cmd
        .try_get_matches_from([
            "metrics",
            "compare",
            "--period1",
            "last-7-days",
            "--period2",
            "previous-7-days",
            "--account",
            "acc-2",
            "--output",
            "compare.json",
        ])
        .expect("metrics compare should parse with optional args");
    let compare = matches
        .subcommand_matches("compare")
        .expect("compare subcommand");
    assert_eq!(
        compare.get_one::<String>("account").map(String::as_str),
        Some("acc-2")
    );
    assert_eq!(
        compare.get_one::<String>("output").map(String::as_str),
        Some("compare.json")
    );
}

#[test]
fn metrics_bond_parses_required_inputs() {
    let cmd = parser(&MetricsCommandBuilder::new().bond().build());
    let matches = cmd
        .try_get_matches_from([
            "metrics",
            "bond",
            "--face-value",
            "1000",
            "--market-price",
            "950",
            "--coupon-rate",
            "4",
            "--quantity",
            "3",
            "--years-to-maturity",
            "5",
            "--coupon-frequency",
            "2",
            "--settlement-date",
            "2026-04-01",
            "--last-coupon-date",
            "2026-01-01",
            "--next-coupon-date",
            "2026-07-01",
            "--day-count",
            "actual-360",
            "--format",
            "json",
        ])
        .expect("metrics bond should parse");
    let bond = matches.subcommand_matches("bond").expect("bond subcommand");
    assert_eq!(
        bond.get_one::<String>("face-value").map(String::as_str),
        Some("1000")
    );
    assert_eq!(bond.get_one::<i64>("quantity"), Some(&3));
    assert_eq!(
        bond.get_one::<String>("format").map(String::as_str),
        Some("json")
    );
    assert_eq!(bond.get_one::<u16>("coupon-frequency"), Some(&2));
    assert_eq!(
        bond.get_one::<String>("day-count").map(String::as_str),
        Some("actual-360")
    );
}

#[test]
fn metrics_bond_parses_stored_vehicle_lookup_inputs() {
    let cmd = parser(&MetricsCommandBuilder::new().bond().build());
    let matches = cmd
        .try_get_matches_from([
            "metrics",
            "bond",
            "--symbol",
            "9128285M8",
            "--broker",
            "ibkr",
            "--market-price",
            "997.50",
            "--quantity",
            "5",
        ])
        .expect("metrics bond should parse stored vehicle inputs");
    let bond = matches.subcommand_matches("bond").expect("bond subcommand");
    assert_eq!(
        bond.get_one::<String>("symbol").map(String::as_str),
        Some("9128285M8")
    );
    assert_eq!(
        bond.get_one::<String>("broker").map(String::as_str),
        Some("ibkr")
    );
    assert_eq!(bond.get_one::<i64>("quantity"), Some(&5));
}

#[test]
fn metrics_default_matches_new() {
    let from_default = parser(&MetricsCommandBuilder::default().advanced().build());
    let from_new = parser(&MetricsCommandBuilder::new().advanced().build());
    assert_eq!(from_default.get_name(), from_new.get_name());
}

#[test]
fn test_onboarding_builder_subcommands_present() {
    let cmd = parser(&OnboardingCommandBuilder::new().init().status().build());
    let names: Vec<&str> = cmd.get_subcommands().map(|s| s.get_name()).collect();
    assert!(names.contains(&"init"));
    assert!(names.contains(&"status"));
}

#[test]
fn test_onboarding_init_and_status_parse() {
    let init_cmd = parser(&OnboardingCommandBuilder::new().init().build());
    let init = init_cmd
        .try_get_matches_from([
            "onboarding",
            "--format",
            "json",
            "init",
            "--protected-keyword",
            "top-secret",
        ])
        .expect("onboarding init should parse");
    assert_eq!(
        init.get_one::<String>("format").map(String::as_str),
        Some("json")
    );
    let init_sub = init.subcommand_matches("init").expect("init subcommand");
    assert_eq!(
        init_sub
            .get_one::<String>("protected-keyword")
            .map(String::as_str),
        Some("top-secret")
    );

    let status_cmd = parser(&OnboardingCommandBuilder::new().status().build());
    let status = status_cmd
        .try_get_matches_from(["onboarding", "status"])
        .expect("onboarding status should parse");
    assert!(status.subcommand_matches("status").is_some());
}

#[test]
fn test_onboarding_default_matches_new() {
    let from_default = parser(&OnboardingCommandBuilder::default().status().build());
    let from_new = parser(&OnboardingCommandBuilder::new().status().build());
    assert_eq!(from_default.get_name(), from_new.get_name());
}

#[test]
fn policy_defaults_to_text_format() {
    let cmd = parser(&PolicyCommandBuilder::new().build());
    let matches = cmd
        .try_get_matches_from(["policy"])
        .expect("policy should parse");
    assert_eq!(
        matches.get_one::<String>("format").map(String::as_str),
        Some("text")
    );
}

#[test]
fn policy_accepts_json_format() {
    let cmd = parser(&PolicyCommandBuilder::new().build());
    let matches = cmd
        .try_get_matches_from(["policy", "--format", "json"])
        .expect("policy json should parse");
    assert_eq!(
        matches.get_one::<String>("format").map(String::as_str),
        Some("json")
    );
}

#[test]
fn policy_default_matches_new() {
    let from_default = parser(&PolicyCommandBuilder::default().build());
    let from_new = parser(&PolicyCommandBuilder::new().build());
    assert_eq!(from_default.get_name(), from_new.get_name());
}

#[test]
fn report_builder_registers_all_subcommands() {
    let cmd = parser(&ReportCommandBuilder::new()
        .performance()
        .drawdown()
        .risk()
        .concentration()
        .summary()
        .metrics()
        .attribution()
        .benchmark()
        .timeline()
        .build());
    for name in [
        "performance",
        "drawdown",
        "risk",
        "concentration",
        "summary",
        "metrics",
        "attribution",
        "benchmark",
        "timeline",
    ] {
        assert!(cmd.get_subcommands().any(|c| c.get_name() == name));
    }
}

#[test]
fn report_performance_parses_days_and_format() {
    let cmd = parser(&ReportCommandBuilder::new().performance().build());
    let matches = cmd
        .try_get_matches_from([
            "report",
            "--format",
            "json",
            "performance",
            "--account",
            "acc-1",
            "--days",
            "30",
        ])
        .expect("report performance should parse");
    assert_eq!(
        matches.get_one::<String>("format").map(String::as_str),
        Some("json")
    );
    let sub = matches
        .subcommand_matches("performance")
        .expect("performance subcommand");
    assert_eq!(
        sub.get_one::<String>("account").map(String::as_str),
        Some("acc-1")
    );
    assert_eq!(sub.get_one::<u32>("days"), Some(&30));
}

#[test]
fn report_concentration_parses_open_only_flag() {
    let cmd = parser(&ReportCommandBuilder::new().concentration().build());
    let matches = cmd
        .try_get_matches_from(["report", "concentration", "--open-only"])
        .expect("report concentration should parse");
    let sub = matches
        .subcommand_matches("concentration")
        .expect("concentration subcommand");
    assert!(sub.get_flag("open-only"));
}

#[test]
fn report_other_subcommands_parse() {
    let drawdown = parser(&ReportCommandBuilder::new().drawdown().build());
    let drawdown_matches = drawdown
        .try_get_matches_from(["report", "drawdown", "--account", "acc-1"])
        .expect("drawdown should parse");
    let drawdown_sub = drawdown_matches
        .subcommand_matches("drawdown")
        .expect("drawdown subcommand");
    assert_eq!(
        drawdown_sub
            .get_one::<String>("account")
            .map(String::as_str),
        Some("acc-1")
    );

    let risk = parser(&ReportCommandBuilder::new().risk().build());
    let risk_matches = risk
        .try_get_matches_from(["report", "risk", "--account", "acc-2"])
        .expect("risk should parse");
    let risk_sub = risk_matches
        .subcommand_matches("risk")
        .expect("risk subcommand");
    assert_eq!(
        risk_sub.get_one::<String>("account").map(String::as_str),
        Some("acc-2")
    );

    let summary = parser(&ReportCommandBuilder::new().summary().build());
    let summary_matches = summary
        .try_get_matches_from(["report", "summary", "--account", "acc-3"])
        .expect("summary should parse");
    let summary_sub = summary_matches
        .subcommand_matches("summary")
        .expect("summary subcommand");
    assert_eq!(
        summary_sub.get_one::<String>("account").map(String::as_str),
        Some("acc-3")
    );

    let metrics = parser(&ReportCommandBuilder::new().metrics().build());
    let metrics_matches = metrics
        .try_get_matches_from(["report", "metrics", "--account", "acc-4", "--days", "14"])
        .expect("metrics should parse");
    let metrics_sub = metrics_matches
        .subcommand_matches("metrics")
        .expect("metrics subcommand");
    assert_eq!(
        metrics_sub.get_one::<String>("account").map(String::as_str),
        Some("acc-4")
    );
    assert_eq!(metrics_sub.get_one::<u32>("days"), Some(&14));
}

#[test]
fn report_default_matches_new() {
    let from_default = parser(&ReportCommandBuilder::default().summary().build());
    let from_new = parser(&ReportCommandBuilder::new().summary().build());
    assert_eq!(from_default.get_name(), from_new.get_name());
}

#[test]
fn report_attribution_benchmark_timeline_parse() {
    let attribution = parser(&ReportCommandBuilder::new().attribution().build());
    let attribution_matches = attribution
        .try_get_matches_from([
            "report",
            "attribution",
            "--account",
            "acc-1",
            "--by",
            "symbol",
            "--from",
            "2026-01-01",
            "--to",
            "2026-01-31",
        ])
        .expect("attribution should parse");
    let attribution_sub = attribution_matches
        .subcommand_matches("attribution")
        .expect("attribution subcommand");
    assert_eq!(
        attribution_sub
            .get_one::<String>("account")
            .map(String::as_str),
        Some("acc-1")
    );
    assert_eq!(
        attribution_sub.get_one::<String>("by").map(String::as_str),
        Some("symbol")
    );

    let benchmark = parser(&ReportCommandBuilder::new().benchmark().build());
    let benchmark_matches = benchmark
        .try_get_matches_from([
            "report",
            "benchmark",
            "--account",
            "acc-2",
            "--benchmark",
            "SPY",
            "--from",
            "2026-01-01",
            "--to",
            "2026-01-31",
        ])
        .expect("benchmark should parse");
    let benchmark_sub = benchmark_matches
        .subcommand_matches("benchmark")
        .expect("benchmark subcommand");
    assert_eq!(
        benchmark_sub
            .get_one::<String>("benchmark")
            .map(String::as_str),
        Some("SPY")
    );

    let timeline = parser(&ReportCommandBuilder::new().timeline().build());
    let timeline_matches = timeline
        .try_get_matches_from([
            "report",
            "timeline",
            "--account",
            "acc-3",
            "--granularity",
            "week",
            "--from",
            "2026-01-01",
            "--to",
            "2026-01-31",
        ])
        .expect("timeline should parse");
    let timeline_sub = timeline_matches
        .subcommand_matches("timeline")
        .expect("timeline subcommand");
    assert_eq!(
        timeline_sub
            .get_one::<String>("granularity")
            .map(String::as_str),
        Some("week")
    );
}

#[test]
fn rule_builder_registers_create_and_remove() {
    let cmd = parser(&RuleCommandBuilder::new()
        .create_rule()
        .remove_rule()
        .build());
    assert!(cmd.get_subcommands().any(|c| c.get_name() == "create"));
    assert!(cmd.get_subcommands().any(|c| c.get_name() == "remove"));
}

#[test]
fn rule_create_parses_confirm_keyword() {
    let cmd = parser(&RuleCommandBuilder::new().create_rule().build());
    let matches = cmd
        .try_get_matches_from(["rule", "create", "--confirm-protected", "keyword"])
        .expect("rule create should parse");
    let sub = matches
        .subcommand_matches("create")
        .expect("create subcommand");
    assert_eq!(
        sub.get_one::<String>("confirm-protected")
            .map(String::as_str),
        Some("keyword")
    );
}

#[test]
fn rule_remove_parses_confirm_keyword() {
    let cmd = parser(&RuleCommandBuilder::new().remove_rule().build());
    let matches = cmd
        .try_get_matches_from(["rule", "remove", "--confirm-protected", "keyword"])
        .expect("rule remove should parse");
    let sub = matches
        .subcommand_matches("remove")
        .expect("remove subcommand");
    assert_eq!(
        sub.get_one::<String>("confirm-protected")
            .map(String::as_str),
        Some("keyword")
    );
}

#[test]
fn builder_registers_session_subcommands() {
    let cmd = parser(&SessionCommandBuilder::new().open().close().list().build());
    let names: Vec<&str> = cmd.get_subcommands().map(|sub| sub.get_name()).collect();
    assert!(names.contains(&"open"));
    assert!(names.contains(&"close"));
    assert!(names.contains(&"list"));
}

#[test]
fn commands_parse_required_fields_and_formats() {
    let cmd = parser(&SessionCommandBuilder::new().open().close().list().build());

    let open = cmd
        .clone()
        .try_get_matches_from(["session", "open", "--account", "trading"])
        .expect("session open should parse");
    assert!(open.subcommand_matches("open").is_some());

    let close = cmd
        .clone()
        .try_get_matches_from(["session", "close"])
        .expect("session close should parse without account");
    assert!(close.subcommand_matches("close").is_some());

    let list = cmd
        .try_get_matches_from([
            "session",
            "--format",
            "json",
            "list",
            "--account",
            "trading",
        ])
        .expect("session list should parse");
    assert_eq!(
        list.get_one::<String>("format").map(String::as_str),
        Some("json")
    );
    assert!(list.subcommand_matches("list").is_some());
}

#[test]
fn trade_builder_registers_all_subcommands() {
    let cmd = full_trade_command();
    for name in [
        "create",
        "fund",
        "cancel",
        "submit",
        "sync",
        "watch",
        "manually-fill",
        "manually-stop",
        "modify-stop",
        "modify-target",
        "manually-target",
        "search",
        "list-open",
        "reconcile",
        "manually-close",
        "size-preview",
    ] {
        assert!(cmd.get_subcommands().any(|c| c.get_name() == name));
    }
}

#[test]
fn trade_create_parses_non_interactive_fields() {
    let cmd = parser(&TradeCommandBuilder::new().create_trade().build());
    let matches = cmd
        .try_get_matches_from([
            "trade",
            "create",
            "--account",
            "paper",
            "--symbol",
            "AAPL",
            "--category",
            "long",
            "--entry",
            "100",
            "--stop",
            "95",
            "--target",
            "110",
            "--quantity",
            "10",
            "--currency",
            "usd",
            "--thesis",
            "breakout",
            "--sector",
            "tech",
            "--asset-class",
            "equity",
            "--context",
            "swing",
            "--auto-submit",
        ])
        .expect("trade create should parse");
    let sub = matches
        .subcommand_matches("create")
        .expect("create subcommand");
    assert_eq!(
        sub.get_one::<String>("symbol").map(String::as_str),
        Some("AAPL")
    );
    assert_eq!(
        sub.get_one::<String>("category").map(String::as_str),
        Some("long")
    );
    assert!(sub.get_flag("auto-submit"));
}

#[test]
fn trade_size_preview_requires_account_entry_stop() {
    let cmd = parser(&TradeCommandBuilder::new().size_preview().build());
    let matches = cmd
        .try_get_matches_from([
            "trade",
            "size-preview",
            "--account",
            "acc-id",
            "--entry",
            "100",
            "--stop",
            "95",
            "--currency",
            "usd",
            "--format",
            "json",
        ])
        .expect("size-preview should parse");
    let sub = matches
        .subcommand_matches("size-preview")
        .expect("size-preview subcommand");
    assert_eq!(
        sub.get_one::<String>("account").map(String::as_str),
        Some("acc-id")
    );
    assert_eq!(
        sub.get_one::<String>("format").map(String::as_str),
        Some("json")
    );
}

#[test]
fn trade_watch_and_manual_close_flags_parse() {
    let cmd = full_trade_command();
    let watch = cmd
        .clone()
        .try_get_matches_from(["trade", "watch", "--latest"])
        .expect("watch should parse");
    assert!(watch
        .subcommand_matches("watch")
        .expect("watch subcommand")
        .get_flag("latest"));

    let close = cmd
        .try_get_matches_from(["trade", "manually-close", "--auto-distribute"])
        .expect("manually-close should parse");
    assert!(close
        .subcommand_matches("manually-close")
        .expect("manually-close subcommand")
        .get_flag("auto-distribute"));
}

#[test]
fn trade_search_list_open_and_reconcile_parse_filters() {
    let search = parser(&TradeCommandBuilder::new().search_trade().build());
    let search_matches = search
        .try_get_matches_from([
            "trade",
            "search",
            "--account",
            "acc-1",
            "--status",
            "submitted",
            "--symbol",
            "AAPL",
            "--from",
            "2026-01-01",
            "--to",
            "2026-01-31",
            "--format",
            "json",
        ])
        .expect("search should parse");
    let search_sub = search_matches
        .subcommand_matches("search")
        .expect("search subcommand");
    assert_eq!(
        search_sub.get_one::<String>("status").map(String::as_str),
        Some("submitted")
    );
    assert_eq!(
        search_sub.get_one::<String>("format").map(String::as_str),
        Some("json")
    );

    let list_open = parser(&TradeCommandBuilder::new().list_open().build());
    let list_open_matches = list_open
        .try_get_matches_from(["trade", "list-open", "--account", "acc-2"])
        .expect("list-open should parse");
    assert!(list_open_matches.subcommand_matches("list-open").is_some());

    let reconcile = parser(&TradeCommandBuilder::new().reconcile().build());
    let reconcile_matches = reconcile
        .try_get_matches_from([
            "trade",
            "reconcile",
            "--trade-id",
            "00000000-0000-0000-0000-000000000000",
            "--format",
            "json",
        ])
        .expect("reconcile should parse");
    let reconcile_sub = reconcile_matches
        .subcommand_matches("reconcile")
        .expect("reconcile subcommand");
    assert_eq!(
        reconcile_sub
            .get_one::<String>("format")
            .map(String::as_str),
        Some("json")
    );
}

#[test]
fn trading_vehicle_builder_registers_subcommands() {
    let cmd = parser(&TradingVehicleCommandBuilder::new()
        .create_trading_vehicle()
        .update_bond_terms()
        .search_trading_vehicle()
        .stats()
        .build());
    assert!(cmd.get_subcommands().any(|c| c.get_name() == "create"));
    assert!(cmd
        .get_subcommands()
        .any(|c| c.get_name() == "update-bond-terms"));
    assert!(cmd.get_subcommands().any(|c| c.get_name() == "search"));
    assert!(cmd.get_subcommands().any(|c| c.get_name() == "stats"));
}

#[test]
fn trading_vehicle_create_parses_broker_import_and_symbol_options() {
    let cmd = parser(&TradingVehicleCommandBuilder::new()
        .create_trading_vehicle()
        .build());
    let matches = cmd
        .try_get_matches_from([
            "trading-vehicle",
            "create",
            "--from-broker",
            "ibkr",
            "--account",
            "paper",
            "--symbol",
            "AAPL",
            "--category",
            "etf",
            "--face-value",
            "1000",
            "--coupon-rate",
            "4.625",
            "--maturity-date",
            "2034-05-15",
            "--coupon-frequency",
            "2",
            "--confirm-protected",
            "keyword",
        ])
        .expect("trading-vehicle create should parse");
    let sub = matches
        .subcommand_matches("create")
        .expect("create subcommand");
    assert_eq!(
        sub.get_one::<String>("from-broker").map(String::as_str),
        Some("ibkr")
    );
    assert_eq!(
        sub.get_one::<String>("account").map(String::as_str),
        Some("paper")
    );
    assert_eq!(
        sub.get_one::<String>("symbol").map(String::as_str),
        Some("AAPL")
    );
    assert_eq!(
        sub.get_one::<String>("category").map(String::as_str),
        Some("etf")
    );
    assert_eq!(
        sub.get_one::<String>("face-value").map(String::as_str),
        Some("1000")
    );
    assert_eq!(sub.get_one::<u16>("coupon-frequency"), Some(&2));
    assert_eq!(
        sub.get_one::<String>("confirm-protected")
            .map(String::as_str),
        Some("keyword")
    );
}

#[test]
fn trading_vehicle_update_bond_terms_parses_inputs() {
    let cmd = parser(&TradingVehicleCommandBuilder::new()
        .update_bond_terms()
        .build());
    let matches = cmd
        .try_get_matches_from([
            "trading-vehicle",
            "update-bond-terms",
            "--symbol",
            "9128285M8",
            "--broker",
            "ibkr",
            "--face-value",
            "1000",
            "--coupon-rate",
            "4.625",
            "--maturity-date",
            "2034-05-15",
            "--coupon-frequency",
            "2",
            "--confirm-protected",
            "keyword",
        ])
        .expect("trading-vehicle update-bond-terms should parse");
    let sub = matches
        .subcommand_matches("update-bond-terms")
        .expect("update-bond-terms subcommand");
    assert_eq!(
        sub.get_one::<String>("symbol").map(String::as_str),
        Some("9128285M8")
    );
    assert_eq!(
        sub.get_one::<String>("broker").map(String::as_str),
        Some("ibkr")
    );
    assert_eq!(sub.get_one::<u16>("coupon-frequency"), Some(&2));
}

#[test]
fn trading_vehicle_search_parses_non_interactive_filters() {
    let cmd = parser(&TradingVehicleCommandBuilder::new()
        .search_trading_vehicle()
        .build());
    let matches = cmd
        .try_get_matches_from([
            "trading-vehicle",
            "search",
            "--all",
            "--category",
            "bond",
            "--broker",
            "ibkr",
            "--symbol",
            "912",
            "--isin",
            "US",
            "--missing-bond-terms",
            "--format",
            "json",
        ])
        .expect("trading-vehicle search should parse");
    let sub = matches
        .subcommand_matches("search")
        .expect("search subcommand");
    assert!(sub.get_flag("all"));
    assert_eq!(
        sub.get_one::<String>("category").map(String::as_str),
        Some("bond")
    );
    assert_eq!(
        sub.get_one::<String>("broker").map(String::as_str),
        Some("ibkr")
    );
    assert!(sub.get_flag("missing-bond-terms"));
    assert_eq!(
        sub.get_one::<String>("format").map(String::as_str),
        Some("json")
    );
}

#[test]
fn trading_vehicle_stats_parses_format() {
    let cmd = parser(&TradingVehicleCommandBuilder::new().stats().build());
    let matches = cmd
        .try_get_matches_from(["trading-vehicle", "stats", "--format", "json"])
        .expect("trading-vehicle stats should parse");
    let sub = matches
        .subcommand_matches("stats")
        .expect("stats subcommand");
    assert_eq!(
        sub.get_one::<String>("format").map(String::as_str),
        Some("json")
    );
}

#[test]
fn transaction_builder_registers_deposit_and_withdraw() {
    let cmd = parser(&TransactionCommandBuilder::new()
        .deposit()
        .withdraw()
        .build());
    assert!(cmd.get_subcommands().any(|c| c.get_name() == "deposit"));
    assert!(cmd.get_subcommands().any(|c| c.get_name() == "withdraw"));
}

#[test]
fn transaction_deposit_parses_confirm_keyword() {
    let cmd = parser(&TransactionCommandBuilder::new().deposit().build());
    let matches = cmd
        .try_get_matches_from(["transaction", "deposit", "--confirm-protected", "keyword"])
        .expect("deposit should parse");
    let sub = matches
        .subcommand_matches("deposit")
        .expect("deposit subcommand");
    assert_eq!(
        sub.get_one::<String>("confirm-protected")
            .map(String::as_str),
        Some("keyword")
    );
}

#[test]
fn transaction_non_interactive_fields_parse() {
    let cmd = parser(&TransactionCommandBuilder::new().deposit().build());
    let matches = cmd
        .try_get_matches_from([
            "transaction",
            "deposit",
            "--account",
            "main",
            "--currency",
            "USD",
            "--amount",
            "100.25",
        ])
        .expect("deposit should parse non-interactive fields");
    let sub = matches
        .subcommand_matches("deposit")
        .expect("deposit subcommand");
    assert_eq!(
        sub.get_one::<String>("account").map(String::as_str),
        Some("main")
    );
    assert_eq!(
        sub.get_one::<String>("currency").map(String::as_str),
        Some("USD")
    );
    assert_eq!(
        sub.get_one::<String>("amount").map(String::as_str),
        Some("100.25")
    );
}

fn full_trade_command() -> clap::Command {
    parser(
        &TradeCommandBuilder::new()
            .create_trade()
            .fund_trade()
            .cancel_trade()
            .submit_trade()
            .sync_trade()
            .watch_trade()
            .manually_fill()
            .manually_stop()
            .modify_stop()
            .modify_target()
            .manually_target()
            .search_trade()
            .list_open()
            .reconcile()
            .manually_close()
            .size_preview()
            .build(),
    )
}
