//! The `rule` command line.

use vstd::prelude::*;
use crate::cli_spec::{ArgSpec, ArgView, CommandSpec, CommandView, command_views, push_command};

verus! {

/// Builder of the `rule` command line.
pub struct RuleCommandBuilder {
    command: CommandSpec,
    subcommands: Vec<CommandSpec>,
}

/// The `rule` command before its subcommands are added.
pub open spec fn rule_root_view() -> CommandView {
    CommandView::new("rule")
    .about("Manage rules for your account")
    .arg_required_else_help(true)
}

/// The `create` subcommand that `create_rule` adds.
pub open spec fn rule_create_rule_view() -> CommandView {
    CommandView::new("create")
    .about("Create a new rule to your account")
    .arg(
        ArgView::new("confirm-protected")
            .long("confirm-protected")
            .value_name("KEYWORD")
            .help("Required confirmation keyword for protected risk mutations")
            .required(false),
    )
}

/// The `remove` subcommand that `remove_rule` adds.
pub open spec fn rule_remove_rule_view() -> CommandView {
    CommandView::new("remove")
    .about("Remove a new rule from your account")
    .arg(
        ArgView::new("confirm-protected")
            .long("confirm-protected")
            .value_name("KEYWORD")
            .help("Required confirmation keyword for protected risk mutations")
            .required(false),
    )
}

impl RuleCommandBuilder {
    /// The command being built, without the subcommands added so far.
    pub closed spec fn command_part(&self) -> CommandView {
        self.command@
    }

    /// The subcommands added so far.
    pub closed spec fn pending(&self) -> Seq<CommandView> {
        command_views(self.subcommands@)
    }

    /// A builder with the bare `rule` command.
    pub fn new() -> (r: Self)
        ensures
            r.command_part() == rule_root_view(),
            r.pending() == Seq::<CommandView>::empty(),
    {
        let subcommands: Vec<CommandSpec> = Vec::new();
        assert(command_views(subcommands@) =~= Seq::<CommandView>::empty());
        RuleCommandBuilder {
            command: CommandSpec::new("rule")
            .about("Manage rules for your account")
            .arg_required_else_help(true),
            subcommands,
        }
    }

    /// The command with the subcommands added so far.
    pub fn build(self) -> (r: CommandSpec)
        ensures
            r@ == self.command_part().subcommands(self.pending()),
    {
        self.command.subcommands(self.subcommands)
    }

    /// Adds the `create` subcommand.
    pub fn create_rule(self) -> (r: Self)
        ensures
            r.command_part() == self.command_part(),
            r.pending() == self.pending().push(rule_create_rule_view()),
    {
        let mut b = self;
        push_command(
            &mut b.subcommands,
            CommandSpec::new("create")
            .about("Create a new rule to your account")
            .arg(
                ArgSpec::new("confirm-protected")
                    .long("confirm-protected")
                    .value_name("KEYWORD")
                    .help("Required confirmation keyword for protected risk mutations")
                    .required(false),
            ),
        );
        b
    }

    /// Adds the `remove` subcommand.
    pub fn remove_rule(self) -> (r: Self)
        ensures
            r.command_part() == self.command_part(),
            r.pending() == self.pending().push(rule_remove_rule_view()),
    {
        let mut b = self;
        push_command(
            &mut b.subcommands,
            CommandSpec::new("remove")
            .about("Remove a new rule from your account")
            .arg(
                ArgSpec::new("confirm-protected")
                    .long("confirm-protected")
                    .value_name("KEYWORD")
                    .help("Required confirmation keyword for protected risk mutations")
                    .required(false),
            ),
        );
        b
    }

}

} // verus!
