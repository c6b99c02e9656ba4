use clap::builder::ValueParser;
use trust_cli::cli::build_cli;
use trust_cli::cli_clap::to_clap;
use trust_cli::command_routing::{
    try_parse_accounts_subcommand, try_parse_advisor_subcommand, try_parse_db_subcommand,
    try_parse_distribution_subcommand, try_parse_grade_subcommand, try_parse_keys_subcommand,
    try_parse_level_subcommand, try_parse_market_data_subcommand, try_parse_metrics_subcommand,
    try_parse_onboarding_subcommand, try_parse_report_subcommand, try_parse_rules_subcommand,
    try_parse_top_level_command, try_parse_trade_subcommand, try_parse_trading_vehicle_subcommand,
    try_parse_transactions_subcommand, TopLevelCommand,
};
use trust_cli::decimal::Decimal;
use trust_cli::display_precision::{fixed_decimal, trim_decimal};
use trust_cli::text::truncate;

/// The command names of a description, without their arguments, so that
/// each subcommand parses without its required values.
fn names_only(spec: &trust_cli::cli_spec::CommandSpec) -> clap::Command {
    let mut cmd = clap::Command::new(spec.name);
    if let Some(alias) = spec.visible_alias {
        cmd = cmd.visible_alias(alias);
    }
    for sub in &spec.subcommands {
        cmd = cmd.subcommand(names_only(sub));
    }
    cmd
}

fn bare_parser() -> clap::Command {
    names_only(&build_cli())
}

fn nested_is_routed(group: &str, matches: &clap::ArgMatches) -> bool {
    match group {
        "db" => try_parse_db_subcommand(matches).is_some(),
        "keys" => try_parse_keys_subcommand(matches).is_some(),
        "accounts" => try_parse_accounts_subcommand(matches).is_some(),
        "transaction" => try_parse_transactions_subcommand(matches).is_some(),
        "rule" => try_parse_rules_subcommand(matches).is_some(),
        "trading-vehicle" => try_parse_trading_vehicle_subcommand(matches).is_some(),
        "trade" => try_parse_trade_subcommand(matches).is_some(),
        "distribution" => try_parse_distribution_subcommand(matches).is_some(),
        "report" => try_parse_report_subcommand(matches).is_some(),
        "market-data" => try_parse_market_data_subcommand(matches).is_some(),
        "grade" => try_parse_grade_subcommand(matches).is_some(),
        "level" => try_parse_level_subcommand(matches).is_some(),
        "metrics" => try_parse_metrics_subcommand(matches).is_some(),
        "advisor" => try_parse_advisor_subcommand(matches).is_some(),
        "onboarding" => try_parse_onboarding_subcommand(matches).is_some(),
        other => panic!("unexpected group {other}"),
    }
}

#[test]
fn every_command_group_is_dispatched_by_name_and_alias() {
    let spec = build_cli();
    for group in &spec.subcommands {
        let mut names = vec![group.name];
        names.extend(group.visible_alias);
        for name in names {
            let matches = bare_parser().get_matches_from(["trust", name]);
            let routed = try_parse_top_level_command(&matches).expect("a command");
            assert!(
                !matches!(routed, TopLevelCommand::External { .. }),
                "{name} is taken for an external command"
            );
        }
    }
}

#[test]
fn every_subcommand_of_every_group_is_dispatched() {
    let spec = build_cli();
    for group in &spec.subcommands {
        for sub in &group.subcommands {
            if sub.subcommands.is_empty() {
                let matches = bare_parser().get_matches_from(["trust", group.name, sub.name]);
                let (_, group_matches) = matches.subcommand().expect("group");
                assert!(
                    nested_is_routed(group.name, group_matches),
                    "{} {} is not dispatched",
                    group.name,
                    sub.name
                );
            } else {
                for nested in &sub.subcommands {
                    let matches = bare_parser()
                        .get_matches_from(["trust", group.name, sub.name, nested.name]);
                    let (_, group_matches) = matches.subcommand().expect("group");
                    assert!(nested_is_routed(group.name, group_matches));
                }
            }
        }
    }
}

#[test]
fn the_full_parser_accepts_the_same_groups() {
    let cli = to_clap(&build_cli(), &ValueParser::new(|s: &str| s.parse::<f64>()));
    let names: Vec<&str> = cli.get_subcommands().map(|c| c.get_name()).collect();
    let spec = build_cli();
    let expected: Vec<&str> = spec.subcommands.iter().map(|c| c.name).collect();
    assert_eq!(names, expected);
}

#[test]
fn fixed_prices_always_show_the_places() {
    for (mantissa, scale) in [(0i128, 0u32), (5, 0), (-5, 1), (123456, 4), (1, 28), (-999, 2)] {
        for dp in [1u32, 2, 3, 8] {
            let text = fixed_decimal(Decimal::from_i128_with_scale(mantissa, scale), dp);
            let point = text.len() - dp as usize - 1;
            assert_eq!(&text[point..point + 1], ".", "{text}");
            assert!(text[point + 1..].chars().all(|c| c.is_ascii_digit()), "{text}");
        }
        let whole = fixed_decimal(Decimal::from_i128_with_scale(mantissa, scale), 0);
        assert!(!whole.contains('.'), "{whole}");
    }
}

#[test]
fn trimmed_values_keep_only_needed_places() {
    for (mantissa, scale) in [(0i128, 3u32), (1500, 3), (12345678, 4), (-20, 1), (7, 9)] {
        for dp in [0u32, 2, 6, 8] {
            let text = trim_decimal(Decimal::from_i128_with_scale(mantissa, scale), dp);
            if let Some(point) = text.find('.') {
                let places = text.len() - point - 1;
                assert!(places > 0 && places <= dp as usize, "{text}");
                assert!(!text.ends_with('0'), "{text}");
            }
        }
    }
}

#[test]
fn ascii_texts_fill_their_column_exactly() {
    for text in ["", "a", "abcdefghij", "abcdefghijk", "a much longer account name"] {
        for width in [3usize, 4, 10, 15] {
            assert_eq!(truncate(text, width).chars().count(), width, "{text:?} in {width}");
        }
    }
}
