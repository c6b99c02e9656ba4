//! The `distribution` command line.

use vstd::prelude::*;
use crate::cli_spec::{ArgSpec, ArgView, CommandSpec, CommandView, command_views, push_command};

verus! {

/// Builder of the `distribution` command line.
pub struct DistributionCommandBuilder {
    command: CommandSpec,
    subcommands: Vec<CommandSpec>,
}

/// The `distribution` command before its subcommands are added.
pub open spec fn distribution_root_view() -> CommandView {
    CommandView::new("distribution")
    .about("Manage profit distribution rules and execution")
    .arg_required_else_help(true)
}

/// The `configure` subcommand that `configure_distribution` adds.
pub open spec fn distribution_configure_distribution_view() -> CommandView {
    CommandView::new("configure")
    .about("Configure distribution rules for an account")
    .arg(
        ArgView::new("account-id")
            .long("account-id")
            .short('a')
            .value_name("UUID")
            .help("Account ID to configure distribution rules for")
            .required(true),
    )
    .arg(
        ArgView::new("earnings")
            .long("earnings")
            .short('e')
            .value_name("PERCENT")
            .help("Percentage for earnings allocation (e.g., 40.0 for 40%)")
            .required(true),
    )
    .arg(
        ArgView::new("tax")
            .long("tax")
            .short('t')
            .value_name("PERCENT")
            .help("Percentage for tax reserve allocation (e.g., 30.0 for 30%)")
            .required(true),
    )
    .arg(
        ArgView::new("reinvestment")
            .long("reinvestment")
            .short('r')
            .value_name("PERCENT")
            .help("Percentage for reinvestment allocation (e.g., 30.0 for 30%)")
            .required(true),
    )
    .arg(
        ArgView::new("threshold")
            .long("threshold")
            .short('m')
            .value_name("DECIMAL")
            .help("Minimum profit threshold for distribution")
            .required(true),
    )
    .arg(
        ArgView::new("password")
            .long("password")
            .short('p')
            .value_name("STRING")
            .help("Password required to create/update distribution rules")
            .required(false),
    )
}

/// The `execute` subcommand that `execute_distribution` adds.
pub open spec fn distribution_execute_distribution_view() -> CommandView {
    CommandView::new("execute")
    .about("Execute profit distribution for an account")
    .arg(
        ArgView::new("account-id")
            .long("account-id")
            .short('a')
            .value_name("UUID")
            .help("Source account ID for distribution")
            .required(true),
    )
    .arg(
        ArgView::new("amount")
            .long("amount")
            .short('m')
            .value_name("DECIMAL")
            .help("Profit amount to distribute")
            .required(true),
    )
}

/// The `history` subcommand that `history` adds.
pub open spec fn distribution_history_view() -> CommandView {
    CommandView::new("history")
    .about("Show profit distribution execution history for an account")
    .arg(
        ArgView::new("account-id")
            .long("account-id")
            .short('a')
            .value_name("UUID")
            .help("Account ID to show distribution history for")
            .required(true),
    )
    .arg(
        ArgView::new("limit")
            .long("limit")
            .short('l')
            .value_name("N")
            .help("Maximum number of entries to show (default: 20)")
            .required(false),
    )
}

/// The `rules` subcommand that `show_rules` adds.
pub open spec fn distribution_show_rules_view() -> CommandView {
    CommandView::new("rules")
    .about("Show distribution rules for an account")
    .subcommand(
        CommandView::new("show")
            .about("Show distribution rules for an account")
            .arg(
                ArgView::new("account-id")
                    .long("account-id")
                    .value_name("UUID")
                    .help("Account ID to show distribution rules for")
                    .required(true),
            ),
    )
    .arg(
        ArgView::new("account-id")
            .long("account-id")
            .value_name("UUID")
            .help("Account ID to show distribution rules for (legacy: distribution rules --account-id ...)")
            .required(false),
    )
}

impl DistributionCommandBuilder {
    /// The command being built, without the subcommands added so far.
    pub closed spec fn command_part(&self) -> CommandView {
        self.command@
    }

    /// The subcommands added so far.
    pub closed spec fn pending(&self) -> Seq<CommandView> {
        command_views(self.subcommands@)
    }

    /// A builder with the bare `distribution` command.
    pub fn new() -> (r: Self)
        ensures
            r.command_part() == distribution_root_view(),
            r.pending() == Seq::<CommandView>::empty(),
    {
        let subcommands: Vec<CommandSpec> = Vec::new();
        assert(command_views(subcommands@) =~= Seq::<CommandView>::empty());
        DistributionCommandBuilder {
            command: CommandSpec::new("distribution")
            .about("Manage profit distribution rules and execution")
            .arg_required_else_help(true),
            subcommands,
        }
    }

    /// The command with the subcommands added so far.
    pub fn build(self) -> (r: CommandSpec)
        ensures
            r@ == self.command_part().subcommands(self.pending()),
    {
        self.command.subcommands(self.subcommands)
    }

    /// Adds the `configure` subcommand.
    pub fn configure_distribution(self) -> (r: Self)
        ensures
            r.command_part() == self.command_part(),
            r.pending() == self.pending().push(distribution_configure_distribution_view()),
    {
        let mut b = self;
        push_command(
            &mut b.subcommands,
            CommandSpec::new("configure")
            .about("Configure distribution rules for an account")
            .arg(
                ArgSpec::new("account-id")
                    .long("account-id")
                    .short('a')
                    .value_name("UUID")
                    .help("Account ID to configure distribution rules for")
                    .required(true),
            )
            .arg(
                ArgSpec::new("earnings")
                    .long("earnings")
                    .short('e')
                    .value_name("PERCENT")
                    .help("Percentage for earnings allocation (e.g., 40.0 for 40%)")
                    .required(true),
            )
            .arg(
                ArgSpec::new("tax")
                    .long("tax")
                    .short('t')
                    .value_name("PERCENT")
                    .help("Percentage for tax reserve allocation (e.g., 30.0 for 30%)")
                    .required(true),
            )
            .arg(
                ArgSpec::new("reinvestment")
                    .long("reinvestment")
                    .short('r')
                    .value_name("PERCENT")
                    .help("Percentage for reinvestment allocation (e.g., 30.0 for 30%)")
                    .required(true),
            )
            .arg(
                ArgSpec::new("threshold")
                    .long("threshold")
                    .short('m')
                    .value_name("DECIMAL")
                    .help("Minimum profit threshold for distribution")
                    .required(true),
            )
            .arg(
                ArgSpec::new("password")
                    .long("password")
                    .short('p')
                    .value_name("STRING")
                    .help("Password required to create/update distribution rules")
                    .required(false),
            ),
        );
        b
    }

    /// Adds the `execute` subcommand.
    pub fn execute_distribution(self) -> (r: Self)
        ensures
            r.command_part() == self.command_part(),
            r.pending() == self.pending().push(distribution_execute_distribution_view()),
    {
        let mut b = self;
        push_command(
            &mut b.subcommands,
            CommandSpec::new("execute")
            .about("Execute profit distribution for an account")
            .arg(
                ArgSpec::new("account-id")
                    .long("account-id")
                    .short('a')
                    .value_name("UUID")
                    .help("Source account ID for distribution")
                    .required(true),
            )
            .arg(
                ArgSpec::new("amount")
                    .long("amount")
                    .short('m')
                    .value_name("DECIMAL")
                    .help("Profit amount to distribute")
                    .required(true),
            ),
        );
        b
    }

    /// Adds the `history` subcommand.
    pub fn history(self) -> (r: Self)
        ensures
            r.command_part() == self.command_part(),
            r.pending() == self.pending().push(distribution_history_view()),
    {
        let mut b = self;
        push_command(
            &mut b.subcommands,
            CommandSpec::new("history")
            .about("Show profit distribution execution history for an account")
            .arg(
                ArgSpec::new("account-id")
                    .long("account-id")
                    .short('a')
                    .value_name("UUID")
                    .help("Account ID to show distribution history for")
                    .required(true),
            )
            .arg(
                ArgSpec::new("limit")
                    .long("limit")
                    .short('l')
                    .value_name("N")
                    .help("Maximum number of entries to show (default: 20)")
                    .required(false),
            ),
        );
        b
    }

    /// Adds the `rules` subcommand.
    pub fn show_rules(self) -> (r: Self)
        ensures
            r.command_part() == self.command_part(),
            r.pending() == self.pending().push(distribution_show_rules_view()),
    {
        let mut b = self;
        push_command(
            &mut b.subcommands,
            CommandSpec::new("rules")
            .about("Show distribution rules for an account")
            .subcommand(
                CommandSpec::new("show")
                    .about("Show distribution rules for an account")
                    .arg(
                        ArgSpec::new("account-id")
                            .long("account-id")
                            .value_name("UUID")
                            .help("Account ID to show distribution rules for")
                            .required(true),
                    ),
            )
            .arg(
                ArgSpec::new("account-id")
                    .long("account-id")
                    .value_name("UUID")
                    .help("Account ID to show distribution rules for (legacy: distribution rules --account-id ...)")
                    .required(false),
            ),
        );
        b
    }

}

} // verus!
