//! The whole command line of the tool.

use vstd::prelude::*;
use crate::cli_spec::{CommandSpec, CommandView};
use crate::command_routing::{
    accounts_subcommand_route, advisor_subcommand_route, db_subcommand_route,
    distribution_subcommand_route, grade_subcommand_route, keys_subcommand_route, level_route,
    market_data_subcommand_route, metrics_subcommand_route, onboarding_subcommand_route,
    report_subcommand_route, rules_subcommand_route, top_level_route, trade_subcommand_route,
    trading_vehicle_subcommand_route, transactions_subcommand_route, TopLevelCommand,
};
use crate::commands::account_command::{AccountCommandBuilder, account_balance_accounts_view, account_create_account_view, account_list_accounts_view, account_read_account_view, account_root_view, account_transfer_account_view};
use crate::commands::advisor_command::{AdvisorCommandBuilder, advisor_check_view, advisor_configure_view, advisor_history_view, advisor_root_view, advisor_status_view};
use crate::commands::db_command::{DbCommandBuilder, db_export_view, db_import_view, db_root_view};
use crate::commands::distribution_command::{DistributionCommandBuilder, distribution_configure_distribution_view, distribution_execute_distribution_view, distribution_history_view, distribution_root_view, distribution_show_rules_view};
use crate::commands::grade_command::{GradeCommandBuilder, grade_root_view, grade_show_view, grade_summary_view};
use crate::commands::key_command::{KeysCommandBuilder, key_create_keys_view, key_delete_environment_view, key_protected_delete_view, key_protected_set_view, key_protected_show_view, key_read_environment_view, key_root_view};
use crate::commands::level_command::{LevelCommandBuilder, level_change_view, level_evaluate_view, level_history_view, level_progress_view, level_root_view, level_rules_view, level_status_view, level_triggers_view};
use crate::commands::market_data_command::{MarketDataCommandBuilder, market_data_bars_view, market_data_quote_view, market_data_root_view, market_data_session_view, market_data_snapshot_view, market_data_stream_view, market_data_trade_view};
use crate::commands::metrics_command::{MetricsCommandBuilder, metrics_advanced_view, metrics_compare_view, metrics_root_view};
use crate::commands::onboarding_command::{OnboardingCommandBuilder, onboarding_init_view, onboarding_root_view, onboarding_status_view};
use crate::commands::policy_command::{PolicyCommandBuilder, policy_root_view};
use crate::commands::report_command::{ReportCommandBuilder, report_attribution_view, report_benchmark_view, report_concentration_view, report_drawdown_view, report_metrics_view, report_performance_view, report_risk_view, report_root_view, report_summary_view, report_timeline_view};
use crate::commands::rule_command::{RuleCommandBuilder, rule_create_rule_view, rule_remove_rule_view, rule_root_view};
use crate::commands::trade_command::{TradeCommandBuilder, trade_cancel_trade_view, trade_create_trade_view, trade_fund_trade_view, trade_list_open_view, trade_manually_close_view, trade_manually_fill_view, trade_manually_stop_view, trade_manually_target_view, trade_modify_stop_view, trade_modify_target_view, trade_reconcile_view, trade_root_view, trade_search_trade_view, trade_size_preview_view, trade_submit_trade_view, trade_sync_trade_view, trade_watch_trade_view};
use crate::commands::trading_vehicle_command::{TradingVehicleCommandBuilder, trading_vehicle_create_trading_vehicle_view, trading_vehicle_root_view, trading_vehicle_search_trading_vehicle_view};
use crate::commands::transaction_command::{TransactionCommandBuilder, transaction_deposit_view, transaction_root_view, transaction_withdraw_view};

verus! {

/// The command that `build_keys_subcommand` builds.
pub open spec fn build_keys_subcommand_view() -> CommandView {
    key_root_view().subcommands(Seq::<CommandView>::empty().push(key_create_keys_view()).push(key_read_environment_view()).push(key_delete_environment_view()).push(key_protected_set_view()).push(key_protected_show_view()).push(key_protected_delete_view()))
}

/// Builds the command of the `keys` group.
pub fn build_keys_subcommand() -> (r: CommandSpec)
    ensures
        r@ == build_keys_subcommand_view(),
{
    KeysCommandBuilder::new()
        .create_keys()
        .read_environment()
        .delete_environment()
        .protected_set()
        .protected_show()
        .protected_delete()
        .build()
}

/// The command that `build_onboarding_subcommand` builds.
pub open spec fn build_onboarding_subcommand_view() -> CommandView {
    onboarding_root_view().subcommands(Seq::<CommandView>::empty().push(onboarding_init_view()).push(onboarding_status_view()))
}

/// Builds the command of the `onboarding` group.
pub fn build_onboarding_subcommand() -> (r: CommandSpec)
    ensures
        r@ == build_onboarding_subcommand_view(),
{
    OnboardingCommandBuilder::new().init().status().build()
}

/// The command that `build_policy_subcommand` builds.
pub open spec fn build_policy_subcommand_view() -> CommandView {
    policy_root_view()
}

/// Builds the command of the `policy` group.
pub fn build_policy_subcommand() -> (r: CommandSpec)
    ensures
        r@ == build_policy_subcommand_view(),
{
    PolicyCommandBuilder::new().build()
}

/// The tool's command line: a required subcommand for each command group.
pub open spec fn cli_view() -> CommandView {
    CommandView::new("trust")
        .about("A tool for managing tradings")
        .subcommand_required(true)
        .arg_required_else_help(true)
        .subcommand(db_root_view().subcommands(Seq::<CommandView>::empty().push(db_export_view()).push(db_import_view())))
        .subcommand(build_keys_subcommand_view())
        .subcommand(account_root_view().subcommands(Seq::<CommandView>::empty().push(account_create_account_view()).push(account_read_account_view()).push(account_list_accounts_view()).push(account_balance_accounts_view()).push(account_transfer_account_view())))
        .subcommand(transaction_root_view().subcommands(Seq::<CommandView>::empty().push(transaction_deposit_view()).push(transaction_withdraw_view())))
        .subcommand(rule_root_view().subcommands(Seq::<CommandView>::empty().push(rule_create_rule_view()).push(rule_remove_rule_view())))
        .subcommand(trading_vehicle_root_view().subcommands(Seq::<CommandView>::empty().push(trading_vehicle_create_trading_vehicle_view()).push(trading_vehicle_search_trading_vehicle_view())))
        .subcommand(trade_root_view().subcommands(Seq::<CommandView>::empty().push(trade_create_trade_view()).push(trade_search_trade_view()).push(trade_fund_trade_view()).push(trade_cancel_trade_view()).push(trade_submit_trade_view()).push(trade_sync_trade_view()).push(trade_watch_trade_view()).push(trade_manually_fill_view()).push(trade_manually_stop_view()).push(trade_manually_target_view()).push(trade_manually_close_view()).push(trade_modify_stop_view()).push(trade_modify_target_view()).push(trade_list_open_view()).push(trade_reconcile_view()).push(trade_size_preview_view())))
        .subcommand(distribution_root_view().subcommands(Seq::<CommandView>::empty().push(distribution_configure_distribution_view()).push(distribution_execute_distribution_view()).push(distribution_history_view()).push(distribution_show_rules_view())))
        .subcommand(report_root_view().subcommands(Seq::<CommandView>::empty().push(report_performance_view()).push(report_drawdown_view()).push(report_risk_view()).push(report_concentration_view()).push(report_summary_view()).push(report_metrics_view()).push(report_attribution_view()).push(report_benchmark_view()).push(report_timeline_view())))
        .subcommand(market_data_root_view().subcommands(Seq::<CommandView>::empty().push(market_data_snapshot_view()).push(market_data_bars_view()).push(market_data_stream_view()).push(market_data_quote_view()).push(market_data_trade_view()).push(market_data_session_view())))
        .subcommand(grade_root_view().subcommands(Seq::<CommandView>::empty().push(grade_show_view()).push(grade_summary_view())))
        .subcommand(level_root_view().subcommands(Seq::<CommandView>::empty().push(level_status_view()).push(level_triggers_view()).push(level_history_view()).push(level_change_view()).push(level_evaluate_view()).push(level_progress_view()).push(level_rules_view())))
        .subcommand(metrics_root_view().subcommands(Seq::<CommandView>::empty().push(metrics_advanced_view()).push(metrics_compare_view())))
        .subcommand(advisor_root_view().subcommands(Seq::<CommandView>::empty().push(advisor_configure_view()).push(advisor_check_view()).push(advisor_status_view()).push(advisor_history_view())))
        .subcommand(build_onboarding_subcommand_view())
        .subcommand(build_policy_subcommand_view())
}

/// Builds the tool's command line (its version is added by the program).
pub fn build_cli() -> (r: CommandSpec)
    ensures
        r@ == cli_view(),
{
    CommandSpec::new("trust")
        .about("A tool for managing tradings")
        .subcommand_required(true)
        .arg_required_else_help(true)
        .subcommand(DbCommandBuilder::new().export().import().build())
        .subcommand(build_keys_subcommand())
        .subcommand(AccountCommandBuilder::new() .create_account() .read_account() .list_accounts() .balance_accounts() .transfer_account() .build())
        .subcommand(TransactionCommandBuilder::new() .deposit() .withdraw() .build())
        .subcommand(RuleCommandBuilder::new() .create_rule() .remove_rule() .build())
        .subcommand(TradingVehicleCommandBuilder::new() .create_trading_vehicle() .search_trading_vehicle() .build())
        .subcommand(TradeCommandBuilder::new() .create_trade() .search_trade() .fund_trade() .cancel_trade() .submit_trade() .sync_trade() .watch_trade() .manually_fill() .manually_stop() .manually_target() .manually_close() .modify_stop() .modify_target() .list_open() .reconcile() .size_preview() .build())
        .subcommand(DistributionCommandBuilder::new() .configure_distribution() .execute_distribution() .history() .show_rules() .build())
        .subcommand(ReportCommandBuilder::new() .performance() .drawdown() .risk() .concentration() .summary() .metrics() .attribution() .benchmark() .timeline() .build())
        .subcommand(MarketDataCommandBuilder::new() .snapshot() .bars() .stream() .quote() .trade() .session() .build())
        .subcommand(GradeCommandBuilder::new().show().summary().build())
        .subcommand(LevelCommandBuilder::new() .status() .triggers() .history() .change() .evaluate() .progress() .rules() .build())
        .subcommand(MetricsCommandBuilder::new().advanced().compare().build())
        .subcommand(AdvisorCommandBuilder::new() .configure() .check() .status() .history() .build())
        .subcommand(build_onboarding_subcommand())
        .subcommand(build_policy_subcommand())
}

/// The names of the tool's command groups, in order.
pub open spec fn top_level_names() -> Seq<&'static str> {
    seq![
        "db",
        "keys",
        "accounts",
        "transaction",
        "rule",
        "trading-vehicle",
        "trade",
        "distribution",
        "report",
        "market-data",
        "grade",
        "level",
        "metrics",
        "advisor",
        "onboarding",
        "policy",
    ]
}

/// Whether a command line names a command group of the tool (and so is
/// not handed on as an external command).
pub open spec fn routes_to_group(route: Option<TopLevelCommand>) -> bool {
    route matches Some(c) && !(c is External)
}

/// The command line offers the command groups above, in that order, and
/// the dispatcher sends each of them, by name and by its alias, to its own
/// command: none is taken for an external command.
pub proof fn lemma_cli_groups_are_routed(i: int, args: &clap::ArgMatches)
    requires
        0 <= i < cli_view().subcommands.len(),
    ensures
        cli_view().subcommand_names() == top_level_names(),
        routes_to_group(top_level_route(Some((cli_view().subcommands[i].name, args)))),
        cli_view().subcommands[i].visible_alias matches Some(a) ==> routes_to_group(top_level_route(Some((a, args)))),
{
    assert(cli_view().subcommand_names() =~= top_level_names());
    reveal_strlit("db");
    reveal_strlit("keys");
    reveal_strlit("account");
    reveal_strlit("accounts");
    reveal_strlit("transaction");
    reveal_strlit("rule");
    reveal_strlit("trading-vehicle");
    reveal_strlit("trade");
    reveal_strlit("distribution");
    reveal_strlit("report");
    reveal_strlit("market-data");
    reveal_strlit("grade");
    reveal_strlit("level");
    reveal_strlit("onboarding");
    reveal_strlit("policy");
    reveal_strlit("metrics");
    reveal_strlit("advisor");
    let name = cli_view().subcommands[i].name;
    assert(name == top_level_names()[i]);
}

/// The command group at place `k` of the command line.
pub open spec fn group(k: int) -> CommandView {
    cli_view().subcommands[k]
}

/// Within each command group, the dispatcher sends every subcommand that
/// the command line offers to a command of its own; under `level rules`,
/// every nested subcommand too.
pub proof fn lemma_cli_subcommands_are_routed(args: &clap::ArgMatches)
    ensures
        forall|j: int| 0 <= j < group(0).subcommands.len() ==> #[trigger] db_subcommand_route(Some((group(0).subcommands[j].name, args))) is Some,
        forall|j: int| 0 <= j < group(1).subcommands.len() ==> #[trigger] keys_subcommand_route(Some((group(1).subcommands[j].name, args))) is Some,
        forall|j: int| 0 <= j < group(2).subcommands.len() ==> #[trigger] accounts_subcommand_route(Some((group(2).subcommands[j].name, args))) is Some,
        forall|j: int| 0 <= j < group(3).subcommands.len() ==> #[trigger] transactions_subcommand_route(Some((group(3).subcommands[j].name, args))) is Some,
        forall|j: int| 0 <= j < group(4).subcommands.len() ==> #[trigger] rules_subcommand_route(Some((group(4).subcommands[j].name, args))) is Some,
        forall|j: int| 0 <= j < group(5).subcommands.len() ==> #[trigger] trading_vehicle_subcommand_route(Some((group(5).subcommands[j].name, args))) is Some,
        forall|j: int| 0 <= j < group(6).subcommands.len() ==> #[trigger] trade_subcommand_route(Some((group(6).subcommands[j].name, args))) is Some,
        forall|j: int| 0 <= j < group(7).subcommands.len() ==> #[trigger] distribution_subcommand_route(Some((group(7).subcommands[j].name, args))) is Some,
        forall|j: int| 0 <= j < group(8).subcommands.len() ==> #[trigger] report_subcommand_route(Some((group(8).subcommands[j].name, args))) is Some,
        forall|j: int| 0 <= j < group(9).subcommands.len() ==> #[trigger] market_data_subcommand_route(Some((group(9).subcommands[j].name, args))) is Some,
        forall|j: int| 0 <= j < group(10).subcommands.len() ==> #[trigger] grade_subcommand_route(Some((group(10).subcommands[j].name, args))) is Some,
        forall|j: int| 0 <= j < group(12).subcommands.len() ==> #[trigger] metrics_subcommand_route(Some((group(12).subcommands[j].name, args))) is Some,
        forall|j: int| 0 <= j < group(13).subcommands.len() ==> #[trigger] advisor_subcommand_route(Some((group(13).subcommands[j].name, args))) is Some,
        forall|j: int| 0 <= j < group(14).subcommands.len() ==> #[trigger] onboarding_subcommand_route(Some((group(14).subcommands[j].name, args))) is Some,
        forall|j: int| 0 <= j < group(11).subcommands.len() && group(11).subcommands[j].name@ != "rules"@ ==> #[trigger] level_route(Some((group(11).subcommands[j].name, args)), None) is Some,
        forall|j: int, k: int| 0 <= j < group(11).subcommands.len() && group(11).subcommands[j].name@ == "rules"@ && 0 <= k < group(11).subcommands[j].subcommands.len() ==> #[trigger] level_route(Some((group(11).subcommands[j].name, args)), Some((group(11).subcommands[j].subcommands[k].name, args))) is Some,
{
    reveal_strlit("export");
    reveal_strlit("import");
    reveal_strlit("create");
    reveal_strlit("show");
    reveal_strlit("delete");
    reveal_strlit("protected-set");
    reveal_strlit("protected-show");
    reveal_strlit("protected-delete");
    reveal_strlit("search");
    reveal_strlit("list");
    reveal_strlit("balance");
    reveal_strlit("transfer");
    reveal_strlit("deposit");
    reveal_strlit("withdraw");
    reveal_strlit("remove");
    reveal_strlit("fund");
    reveal_strlit("cancel");
    reveal_strlit("submit");
    reveal_strlit("manually-fill");
    reveal_strlit("manually-stop");
    reveal_strlit("manually-target");
    reveal_strlit("manually-close");
    reveal_strlit("sync");
    reveal_strlit("watch");
    reveal_strlit("list-open");
    reveal_strlit("reconcile");
    reveal_strlit("modify-stop");
    reveal_strlit("modify-target");
    reveal_strlit("size-preview");
    reveal_strlit("configure");
    reveal_strlit("execute");
    reveal_strlit("history");
    reveal_strlit("rules");
    reveal_strlit("drawdown");
    reveal_strlit("performance");
    reveal_strlit("risk");
    reveal_strlit("concentration");
    reveal_strlit("summary");
    reveal_strlit("metrics");
    reveal_strlit("attribution");
    reveal_strlit("benchmark");
    reveal_strlit("timeline");
    reveal_strlit("snapshot");
    reveal_strlit("bars");
    reveal_strlit("stream");
    reveal_strlit("quote");
    reveal_strlit("trade");
    reveal_strlit("session");
    reveal_strlit("init");
    reveal_strlit("status");
    reveal_strlit("advanced");
    reveal_strlit("compare");
    reveal_strlit("check");
    reveal_strlit("triggers");
    reveal_strlit("change");
    reveal_strlit("evaluate");
    reveal_strlit("progress");
    reveal_strlit("set");
}

} // verus!
