//! The `level` command line.

use vstd::prelude::*;
use crate::cli_spec::{ArgSpec, ArgView, CommandSpec, CommandView, ValueKind, command_views, push_command};

verus! {

/// CLI builder for level management commands.
pub struct LevelCommandBuilder {
    command: CommandSpec,
    subcommands: Vec<CommandSpec>,
}

/// The `level` command before its subcommands are added.
pub open spec fn level_root_view() -> CommandView {
    CommandView::new("level")
    .about("Manage account risk levels")
    .arg(
        ArgView::new("format")
            .long("format")
            .value_name("FORMAT")
            .help("Output format")
            .choices(seq!["text", "json"])
            .default_value("text")
            .global(true),
    )
    .arg_required_else_help(true)
}

/// The `status` subcommand that `status` adds.
pub open spec fn level_status_view() -> CommandView {
    CommandView::new("status")
    .about("Show current level information")
    .arg(
        ArgView::new("account")
            .long("account")
            .short('a')
            .value_name("ACCOUNT_ID")
            .help("Account ID to inspect")
            .required(false),
    )
}

/// The `triggers` subcommand that `triggers` adds.
pub open spec fn level_triggers_view() -> CommandView {
    CommandView::new("triggers").about("List supported level trigger identifiers")
}

/// The `history` subcommand that `history` adds.
pub open spec fn level_history_view() -> CommandView {
    CommandView::new("history")
    .about("Show account level change history")
    .arg(
        ArgView::new("account")
            .long("account")
            .short('a')
            .value_name("ACCOUNT_ID")
            .help("Account ID to inspect")
            .required(false),
    )
    .arg(
        ArgView::new("days")
            .long("days")
            .short('d')
            .value_name("DAYS")
            .help("Optional days window filter")
            .value_kind(ValueKind::U32)
            .required(false),
    )
}

/// The `change` subcommand that `change` adds.
pub open spec fn level_change_view() -> CommandView {
    CommandView::new("change")
    .about("Manually change account level")
    .arg(
        ArgView::new("account")
            .long("account")
            .short('a')
            .value_name("ACCOUNT_ID")
            .help("Target account ID")
            .required(true),
    )
    .arg(
        ArgView::new("to")
            .long("to")
            .value_name("LEVEL")
            .help("Target level (0-4)")
            .value_kind(ValueKind::U8Range(0, 4))
            .required(true),
    )
    .arg(
        ArgView::new("reason")
            .long("reason")
            .value_name("TEXT")
            .help("Human-readable reason for the change")
            .required(true),
    )
    .arg(
        ArgView::new("trigger")
            .long("trigger")
            .value_name("TRIGGER")
            .help("Trigger type (manual_override, manual_review, risk_breach, performance_upgrade, or custom)")
            .default_value("manual_override")
            .required(false),
    )
    .arg(
        ArgView::new("confirm-protected")
            .long("confirm-protected")
            .value_name("KEYWORD")
            .help("Required confirmation keyword for protected level mutations")
            .required(false),
    )
}

/// The `evaluate` subcommand that `evaluate` adds.
pub open spec fn level_evaluate_view() -> CommandView {
    CommandView::new("evaluate")
    .about("Evaluate (and optionally apply) policy-based level transition")
    .arg(
        ArgView::new("account")
            .long("account")
            .short('a')
            .value_name("ACCOUNT_ID")
            .help("Target account ID")
            .required(true),
    )
    .arg(
        ArgView::new("profitable-trades")
            .long("profitable-trades")
            .value_name("COUNT")
            .help("Profitable trades in evaluation window")
            .value_kind(ValueKind::U32)
            .required(true),
    )
    .arg(
        ArgView::new("win-rate")
            .long("win-rate")
            .value_name("PERCENT")
            .help("Win rate percentage, e.g. 70")
            .required(true),
    )
    .arg(
        ArgView::new("monthly-loss")
            .long("monthly-loss")
            .value_name("PERCENT")
            .help("Monthly loss percentage, use negative values for losses")
            .required(true),
    )
    .arg(
        ArgView::new("largest-loss")
            .long("largest-loss")
            .value_name("PERCENT")
            .help("Largest single-trade loss percentage, negative for losses")
            .required(true),
    )
    .arg(
        ArgView::new("consecutive-wins")
            .long("consecutive-wins")
            .value_name("COUNT")
            .help("Current consecutive wins")
            .value_kind(ValueKind::U32)
            .default_value("0")
            .required(false),
    )
    .arg(
        ArgView::new("apply")
            .long("apply")
            .help("Apply decision if policy recommends a transition")
            .flag()
            .required(false),
    )
    .arg(
        ArgView::new("confirm-protected")
            .long("confirm-protected")
            .value_name("KEYWORD")
            .help("Required when --apply mutates levels")
            .required(false),
    )
}

/// The `progress` subcommand that `progress` adds.
pub open spec fn level_progress_view() -> CommandView {
    CommandView::new("progress")
    .about("Show what is missing to move one level up/down")
    .arg(
        ArgView::new("account")
            .long("account")
            .short('a')
            .value_name("ACCOUNT_ID")
            .help("Target account ID")
            .required(true),
    )
    .arg(
        ArgView::new("profitable-trades")
            .long("profitable-trades")
            .value_name("COUNT")
            .help("Profitable trades in evaluation window")
            .value_kind(ValueKind::U32)
            .required(true),
    )
    .arg(
        ArgView::new("win-rate")
            .long("win-rate")
            .value_name("PERCENT")
            .help("Win rate percentage, e.g. 70")
            .required(true),
    )
    .arg(
        ArgView::new("monthly-loss")
            .long("monthly-loss")
            .value_name("PERCENT")
            .help("Monthly loss percentage, use negative values for losses")
            .required(true),
    )
    .arg(
        ArgView::new("largest-loss")
            .long("largest-loss")
            .value_name("PERCENT")
            .help("Largest single-trade loss percentage, negative for losses")
            .required(true),
    )
    .arg(
        ArgView::new("consecutive-wins")
            .long("consecutive-wins")
            .value_name("COUNT")
            .help("Current consecutive wins")
            .value_kind(ValueKind::U32)
            .default_value("0")
            .required(false),
    )
}

/// The `rules` subcommand that `rules` adds.
pub open spec fn level_rules_view() -> CommandView {
    CommandView::new("rules")
    .about("Manage level-adjustment policy rules")
    .subcommand(
        CommandView::new("show")
            .about("Show policy rules for an account")
            .arg(
                ArgView::new("account")
                    .long("account")
                    .short('a')
                    .value_name("ACCOUNT_ID")
                    .help("Target account ID")
                    .required(true),
            ),
    )
    .subcommand(
        CommandView::new("set")
            .about("Set one policy rule value for an account")
            .arg(
                ArgView::new("account")
                    .long("account")
                    .short('a')
                    .value_name("ACCOUNT_ID")
                    .help("Target account ID")
                    .required(true),
            )
            .arg(
                ArgView::new("rule")
                    .long("rule")
                    .value_name("RULE_KEY")
                    .help("Rule key to update")
                    .choices(seq![
                        "monthly_loss_downgrade_pct",
                        "single_loss_downgrade_pct",
                        "upgrade_profitable_trades",
                        "upgrade_win_rate_pct",
                        "upgrade_consecutive_wins",
                        "cooldown_profitable_trades",
                        "cooldown_win_rate_pct",
                        "cooldown_consecutive_wins",
                        "recovery_profitable_trades",
                        "recovery_win_rate_pct",
                        "recovery_consecutive_wins",
                        "min_trades_at_level_for_upgrade",
                        "max_changes_in_30_days",
                    ])
                    .required(true),
            )
            .arg(
                ArgView::new("value")
                    .long("value")
                    .value_name("VALUE")
                    .help("New value for selected rule")
                    .required(true),
            )
            .arg(
                ArgView::new("confirm-protected")
                    .long("confirm-protected")
                    .value_name("KEYWORD")
                    .help("Required confirmation keyword for protected risk mutations")
                    .required(false),
            ),
    )
}

impl LevelCommandBuilder {
    /// The command being built, without the subcommands added so far.
    pub closed spec fn command_part(&self) -> CommandView {
        self.command@
    }

    /// The subcommands added so far.
    pub closed spec fn pending(&self) -> Seq<CommandView> {
        command_views(self.subcommands@)
    }

    /// A builder with the bare `level` command.
    pub fn new() -> (r: Self)
        ensures
            r.command_part() == level_root_view(),
            r.pending() == Seq::<CommandView>::empty(),
    {
        let subcommands: Vec<CommandSpec> = Vec::new();
        assert(command_views(subcommands@) =~= Seq::<CommandView>::empty());
        LevelCommandBuilder {
            command: CommandSpec::new("level")
            .about("Manage account risk levels")
            .arg(
                ArgSpec::new("format")
                    .long("format")
                    .value_name("FORMAT")
                    .help("Output format")
                    .choices(vec!["text", "json"])
                    .default_value("text")
                    .global(true),
            )
            .arg_required_else_help(true),
            subcommands,
        }
    }

    /// The command with the subcommands added so far.
    pub fn build(self) -> (r: CommandSpec)
        ensures
            r@ == self.command_part().subcommands(self.pending()),
    {
        self.command.subcommands(self.subcommands)
    }

    /// Adds the `status` subcommand.
    pub fn status(self) -> (r: Self)
        ensures
            r.command_part() == self.command_part(),
            r.pending() == self.pending().push(level_status_view()),
    {
        let mut b = self;
        push_command(
            &mut b.subcommands,
            CommandSpec::new("status")
            .about("Show current level information")
            .arg(
                ArgSpec::new("account")
                    .long("account")
                    .short('a')
                    .value_name("ACCOUNT_ID")
                    .help("Account ID to inspect")
                    .required(false),
            ),
        );
        b
    }

    /// Adds the `triggers` subcommand.
    pub fn triggers(self) -> (r: Self)
        ensures
            r.command_part() == self.command_part(),
            r.pending() == self.pending().push(level_triggers_view()),
    {
        let mut b = self;
        push_command(
            &mut b.subcommands,
            CommandSpec::new("triggers").about("List supported level trigger identifiers"),
        );
        b
    }

    /// Adds the `history` subcommand.
    pub fn history(self) -> (r: Self)
        ensures
            r.command_part() == self.command_part(),
            r.pending() == self.pending().push(level_history_view()),
    {
        let mut b = self;
        push_command(
            &mut b.subcommands,
            CommandSpec::new("history")
            .about("Show account level change history")
            .arg(
                ArgSpec::new("account")
                    .long("account")
                    .short('a')
                    .value_name("ACCOUNT_ID")
                    .help("Account ID to inspect")
                    .required(false),
            )
            .arg(
                ArgSpec::new("days")
                    .long("days")
                    .short('d')
                    .value_name("DAYS")
                    .help("Optional days window filter")
                    .value_kind(ValueKind::U32)
                    .required(false),
            ),
        );
        b
    }

    /// Adds the `change` subcommand.
    pub fn change(self) -> (r: Self)
        ensures
            r.command_part() == self.command_part(),
            r.pending() == self.pending().push(level_change_view()),
    {
        let mut b = self;
        push_command(
            &mut b.subcommands,
            CommandSpec::new("change")
            .about("Manually change account level")
            .arg(
                ArgSpec::new("account")
                    .long("account")
                    .short('a')
                    .value_name("ACCOUNT_ID")
                    .help("Target account ID")
                    .required(true),
            )
            .arg(
                ArgSpec::new("to")
                    .long("to")
                    .value_name("LEVEL")
                    .help("Target level (0-4)")
                    .value_kind(ValueKind::U8Range(0, 4))
                    .required(true),
            )
            .arg(
                ArgSpec::new("reason")
                    .long("reason")
                    .value_name("TEXT")
                    .help("Human-readable reason for the change")
                    .required(true),
            )
            .arg(
                ArgSpec::new("trigger")
                    .long("trigger")
                    .value_name("TRIGGER")
                    .help("Trigger type (manual_override, manual_review, risk_breach, performance_upgrade, or custom)")
                    .default_value("manual_override")
                    .required(false),
            )
            .arg(
                ArgSpec::new("confirm-protected")
                    .long("confirm-protected")
                    .value_name("KEYWORD")
                    .help("Required confirmation keyword for protected level mutations")
                    .required(false),
            ),
        );
        b
    }

    /// Adds the `evaluate` subcommand.
    pub fn evaluate(self) -> (r: Self)
        ensures
            r.command_part() == self.command_part(),
            r.pending() == self.pending().push(level_evaluate_view()),
    {
        let mut b = self;
        push_command(
            &mut b.subcommands,
            CommandSpec::new("evaluate")
            .about("Evaluate (and optionally apply) policy-based level transition")
            .arg(
                ArgSpec::new("account")
                    .long("account")
                    .short('a')
                    .value_name("ACCOUNT_ID")
                    .help("Target account ID")
                    .required(true),
            )
            .arg(
                ArgSpec::new("profitable-trades")
                    .long("profitable-trades")
                    .value_name("COUNT")
                    .help("Profitable trades in evaluation window")
                    .value_kind(ValueKind::U32)
                    .required(true),
            )
            .arg(
                ArgSpec::new("win-rate")
                    .long("win-rate")
                    .value_name("PERCENT")
                    .help("Win rate percentage, e.g. 70")
                    .required(true),
            )
            .arg(
                ArgSpec::new("monthly-loss")
                    .long("monthly-loss")
                    .value_name("PERCENT")
                    .help("Monthly loss percentage, use negative values for losses")
                    .required(true),
            )
            .arg(
                ArgSpec::new("largest-loss")
                    .long("largest-loss")
                    .value_name("PERCENT")
                    .help("Largest single-trade loss percentage, negative for losses")
                    .required(true),
            )
            .arg(
                ArgSpec::new("consecutive-wins")
                    .long("consecutive-wins")
                    .value_name("COUNT")
                    .help("Current consecutive wins")
                    .value_kind(ValueKind::U32)
                    .default_value("0")
                    .required(false),
            )
            .arg(
                ArgSpec::new("apply")
                    .long("apply")
                    .help("Apply decision if policy recommends a transition")
                    .flag()
                    .required(false),
            )
            .arg(
                ArgSpec::new("confirm-protected")
                    .long("confirm-protected")
                    .value_name("KEYWORD")
                    .help("Required when --apply mutates levels")
                    .required(false),
            ),
        );
        b
    }

    /// Adds the `progress` subcommand.
    pub fn progress(self) -> (r: Self)
        ensures
            r.command_part() == self.command_part(),
            r.pending() == self.pending().push(level_progress_view()),
    {
        let mut b = self;
        push_command(
            &mut b.subcommands,
            CommandSpec::new("progress")
            .about("Show what is missing to move one level up/down")
            .arg(
                ArgSpec::new("account")
                    .long("account")
                    .short('a')
                    .value_name("ACCOUNT_ID")
                    .help("Target account ID")
                    .required(true),
            )
            .arg(
                ArgSpec::new("profitable-trades")
                    .long("profitable-trades")
                    .value_name("COUNT")
                    .help("Profitable trades in evaluation window")
                    .value_kind(ValueKind::U32)
                    .required(true),
            )
            .arg(
                ArgSpec::new("win-rate")
                    .long("win-rate")
                    .value_name("PERCENT")
                    .help("Win rate percentage, e.g. 70")
                    .required(true),
            )
            .arg(
                ArgSpec::new("monthly-loss")
                    .long("monthly-loss")
                    .value_name("PERCENT")
                    .help("Monthly loss percentage, use negative values for losses")
                    .required(true),
            )
            .arg(
                ArgSpec::new("largest-loss")
                    .long("largest-loss")
                    .value_name("PERCENT")
                    .help("Largest single-trade loss percentage, negative for losses")
                    .required(true),
            )
            .arg(
                ArgSpec::new("consecutive-wins")
                    .long("consecutive-wins")
                    .value_name("COUNT")
                    .help("Current consecutive wins")
                    .value_kind(ValueKind::U32)
                    .default_value("0")
                    .required(false),
            ),
        );
        b
    }

    /// Adds the `rules` subcommand.
    pub fn rules(self) -> (r: Self)
        ensures
            r.command_part() == self.command_part(),
            r.pending() == self.pending().push(level_rules_view()),
    {
        let mut b = self;
        push_command(
            &mut b.subcommands,
            CommandSpec::new("rules")
            .about("Manage level-adjustment policy rules")
            .subcommand(
                CommandSpec::new("show")
                    .about("Show policy rules for an account")
                    .arg(
                        ArgSpec::new("account")
                            .long("account")
                            .short('a')
                            .value_name("ACCOUNT_ID")
                            .help("Target account ID")
                            .required(true),
                    ),
            )
            .subcommand(
                CommandSpec::new("set")
                    .about("Set one policy rule value for an account")
                    .arg(
                        ArgSpec::new("account")
                            .long("account")
                            .short('a')
                            .value_name("ACCOUNT_ID")
                            .help("Target account ID")
                            .required(true),
                    )
                    .arg(
                        ArgSpec::new("rule")
                            .long("rule")
                            .value_name("RULE_KEY")
                            .help("Rule key to update")
                            .choices(vec![
                                "monthly_loss_downgrade_pct",
                                "single_loss_downgrade_pct",
                                "upgrade_profitable_trades",
                                "upgrade_win_rate_pct",
                                "upgrade_consecutive_wins",
                                "cooldown_profitable_trades",
                                "cooldown_win_rate_pct",
                                "cooldown_consecutive_wins",
                                "recovery_profitable_trades",
                                "recovery_win_rate_pct",
                                "recovery_consecutive_wins",
                                "min_trades_at_level_for_upgrade",
                                "max_changes_in_30_days",
                            ])
                            .required(true),
                    )
                    .arg(
                        ArgSpec::new("value")
                            .long("value")
                            .value_name("VALUE")
                            .help("New value for selected rule")
                            .required(true),
                    )
                    .arg(
                        ArgSpec::new("confirm-protected")
                            .long("confirm-protected")
                            .value_name("KEYWORD")
                            .help("Required confirmation keyword for protected risk mutations")
                            .required(false),
                    ),
            ),
        );
        b
    }

}

impl Default for LevelCommandBuilder {
    fn default() -> (r: Self)
        ensures
            r.command_part() == level_root_view(),
            r.pending() == Seq::<CommandView>::empty(),
    {
        Self::new()
    }
}

} // verus!
