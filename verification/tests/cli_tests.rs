use clap::builder::ValueParser;
use trust_cli::cli::build_cli;
use trust_cli::cli_clap::to_clap;

fn cli() -> clap::Command {
    to_clap(&build_cli(), &ValueParser::new(|s: &str| s.parse::<f64>()))
}

#[test]
fn cli_requires_subcommand() {
    let result = cli().try_get_matches_from(["trust"]);
    assert!(result.is_err());
}

#[test]
fn cli_registers_expected_top_level_subcommands() {
    let names: Vec<String> = cli()
        .get_subcommands()
        .map(|sc| sc.get_name().to_string())
        .collect();

    for expected in [
        "db",
        "keys",
        "accounts",
        "transaction",
        "rule",
        "trading-vehicle",
        "trade",
        "distribution",
        "report",
        "market-data",
        "grade",
        "level",
        "metrics",
        "advisor",
        "onboarding",
        "policy",
    ] {
        assert!(
            names.iter().any(|name| name == expected),
            "missing subcommand: {expected}"
        );
    }
}

#[test]
fn cli_parses_known_command_shape() {
    let matches = cli()
        .try_get_matches_from(["trust", "report", "summary", "--format", "json"])
        .expect("valid report command should parse");

    let (sub, report_matches) = matches
        .subcommand()
        .expect("top-level subcommand should exist");
    assert_eq!(sub, "report");
    let (nested, _) = report_matches
        .subcommand()
        .expect("nested report subcommand should exist");
    assert_eq!(nested, "summary");
}

#[test]
fn cli_description_lists_top_level_commands_in_order() {
    let spec = build_cli();
    assert_eq!(spec.name, "trust");
    let names: Vec<&str> = spec.subcommands.iter().map(|c| c.name).collect();
    assert_eq!(names.first(), Some(&"db"));
    assert!(spec.subcommand_required || spec.arg_required_else_help);
}

#[test]
fn accounts_command_answers_to_its_alias() {
    let matches = cli()
        .try_get_matches_from(["trust", "account", "list"])
        .expect("the singular alias should parse");
    let (sub, _) = matches.subcommand().expect("a subcommand");
    assert_eq!(sub, "accounts");
}
