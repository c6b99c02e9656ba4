//! The `advisor` command line.

use vstd::prelude::*;
use crate::cli_spec::{ArgSpec, ArgView, CommandSpec, CommandView, command_views, push_command};

verus! {

/// Builder of the `advisor` command line.
pub struct AdvisorCommandBuilder {
    command: CommandSpec,
    subcommands: Vec<CommandSpec>,
}

/// The `advisor` command before its subcommands are added.
pub open spec fn advisor_root_view() -> CommandView {
    CommandView::new("advisor")
    .about("Configure and run advisory concentration checks")
    .arg_required_else_help(true)
}

/// The `configure` subcommand that `configure` adds.
pub open spec fn advisor_configure_view() -> CommandView {
    CommandView::new("configure")
    .about("Configure advisory thresholds for an account")
    .arg(
        ArgView::new("account")
            .long("account")
            .value_name("ACCOUNT_ID")
            .required(true),
    )
    .arg(
        ArgView::new("sector-limit")
            .long("sector-limit")
            .value_name("PERCENT")
            .required(true),
    )
    .arg(
        ArgView::new("asset-class-limit")
            .long("asset-class-limit")
            .value_name("PERCENT")
            .required(true),
    )
    .arg(
        ArgView::new("single-position-limit")
            .long("single-position-limit")
            .value_name("PERCENT")
            .required(true),
    )
    .arg(
        ArgView::new("confirm-protected")
            .long("confirm-protected")
            .value_name("KEYWORD")
            .required(false),
    )
}

/// The `check` subcommand that `check` adds.
pub open spec fn advisor_check_view() -> CommandView {
    CommandView::new("check")
    .about("Run advisory check for a proposed trade")
    .arg(ArgView::new("account").long("account").required(true))
    .arg(ArgView::new("symbol").long("symbol").required(true))
    .arg(ArgView::new("entry").long("entry").required(true))
    .arg(ArgView::new("quantity").long("quantity").required(true))
    .arg(ArgView::new("sector").long("sector").required(false))
    .arg(ArgView::new("asset-class").long("asset-class").required(false))
}

/// The `status` subcommand that `status` adds.
pub open spec fn advisor_status_view() -> CommandView {
    CommandView::new("status")
    .about("Show advisory portfolio status for an account")
    .arg(ArgView::new("account").long("account").required(true))
}

/// The `history` subcommand that `history` adds.
pub open spec fn advisor_history_view() -> CommandView {
    CommandView::new("history")
    .about("Show advisory history for an account")
    .arg(ArgView::new("account").long("account").required(true))
    .arg(ArgView::new("days").long("days").required(false))
}

impl AdvisorCommandBuilder {
    /// The command being built, without the subcommands added so far.
    pub closed spec fn command_part(&self) -> CommandView {
        self.command@
    }

    /// The subcommands added so far.
    pub closed spec fn pending(&self) -> Seq<CommandView> {
        command_views(self.subcommands@)
    }

    /// A builder with the bare `advisor` command.
    pub fn new() -> (r: Self)
        ensures
            r.command_part() == advisor_root_view(),
            r.pending() == Seq::<CommandView>::empty(),
    {
        let subcommands: Vec<CommandSpec> = Vec::new();
        assert(command_views(subcommands@) =~= Seq::<CommandView>::empty());
        AdvisorCommandBuilder {
            command: CommandSpec::new("advisor")
            .about("Configure and run advisory concentration checks")
            .arg_required_else_help(true),
            subcommands,
        }
    }

    /// The command with the subcommands added so far.
    pub fn build(self) -> (r: CommandSpec)
        ensures
            r@ == self.command_part().subcommands(self.pending()),
    {
        self.command.subcommands(self.subcommands)
    }

    /// Adds the `configure` subcommand.
    pub fn configure(self) -> (r: Self)
        ensures
            r.command_part() == self.command_part(),
            r.pending() == self.pending().push(advisor_configure_view()),
    {
        let mut b = self;
        push_command(
            &mut b.subcommands,
            CommandSpec::new("configure")
            .about("Configure advisory thresholds for an account")
            .arg(
                ArgSpec::new("account")
                    .long("account")
                    .value_name("ACCOUNT_ID")
                    .required(true),
            )
            .arg(
                ArgSpec::new("sector-limit")
                    .long("sector-limit")
                    .value_name("PERCENT")
                    .required(true),
            )
            .arg(
                ArgSpec::new("asset-class-limit")
                    .long("asset-class-limit")
                    .value_name("PERCENT")
                    .required(true),
            )
            .arg(
                ArgSpec::new("single-position-limit")
                    .long("single-position-limit")
                    .value_name("PERCENT")
                    .required(true),
            )
            .arg(
                ArgSpec::new("confirm-protected")
                    .long("confirm-protected")
                    .value_name("KEYWORD")
                    .required(false),
            ),
        );
        b
    }

    /// Adds the `check` subcommand.
    pub fn check(self) -> (r: Self)
        ensures
            r.command_part() == self.command_part(),
            r.pending() == self.pending().push(advisor_check_view()),
    {
        let mut b = self;
        push_command(
            &mut b.subcommands,
            CommandSpec::new("check")
            .about("Run advisory check for a proposed trade")
            .arg(ArgSpec::new("account").long("account").required(true))
            .arg(ArgSpec::new("symbol").long("symbol").required(true))
            .arg(ArgSpec::new("entry").long("entry").required(true))
            .arg(ArgSpec::new("quantity").long("quantity").required(true))
            .arg(ArgSpec::new("sector").long("sector").required(false))
            .arg(ArgSpec::new("asset-class").long("asset-class").required(false)),
        );
        b
    }

    /// Adds the `status` subcommand.
    pub fn status(self) -> (r: Self)
        ensures
            r.command_part() == self.command_part(),
            r.pending() == self.pending().push(advisor_status_view()),
    {
        let mut b = self;
        push_command(
            &mut b.subcommands,
            CommandSpec::new("status")
            .about("Show advisory portfolio status for an account")
            .arg(ArgSpec::new("account").long("account").required(true)),
        );
        b
    }

    /// Adds the `history` subcommand.
    pub fn history(self) -> (r: Self)
        ensures
            r.command_part() == self.command_part(),
            r.pending() == self.pending().push(advisor_history_view()),
    {
        let mut b = self;
        push_command(
            &mut b.subcommands,
            CommandSpec::new("history")
            .about("Show advisory history for an account")
            .arg(ArgSpec::new("account").long("account").required(true))
            .arg(ArgSpec::new("days").long("days").required(false)),
        );
        b
    }

}

impl Default for AdvisorCommandBuilder {
    fn default() -> (r: Self)
        ensures
            r.command_part() == advisor_root_view(),
            r.pending() == Seq::<CommandView>::empty(),
    {
        Self::new()
    }
}

} // verus!
