//! The `onboarding` command line.

use vstd::prelude::*;
use crate::cli_spec::{ArgSpec, ArgView, CommandSpec, CommandView, command_views, push_command};

verus! {

/// Builder of the `onboarding` command line.
pub struct OnboardingCommandBuilder {
    command: CommandSpec,
    subcommands: Vec<CommandSpec>,
}

/// The `onboarding` command before its subcommands are added.
pub open spec fn onboarding_root_view() -> CommandView {
    CommandView::new("onboarding")
    .about("Initial secure setup and status for Trust CLI")
    .arg(
        ArgView::new("format")
            .long("format")
            .value_name("FORMAT")
            .help("Output format")
            .choices(seq!["text", "json"])
            .default_value("text")
            .global(true),
    )
    .arg_required_else_help(true)
}

/// The `init` subcommand that `init` adds.
pub open spec fn onboarding_init_view() -> CommandView {
    CommandView::new("init")
    .about("Initialize security controls for agent-safe usage")
    .arg(
        ArgView::new("protected-keyword")
            .long("protected-keyword")
            .value_name("KEYWORD")
            .help("Protected keyword to store in keychain")
            .required(true),
    )
}

/// The `status` subcommand that `status` adds.
pub open spec fn onboarding_status_view() -> CommandView {
    CommandView::new("status").about("Show onboarding and security-control readiness status")
}

impl OnboardingCommandBuilder {
    /// The command being built, without the subcommands added so far.
    pub closed spec fn command_part(&self) -> CommandView {
        self.command@
    }

    /// The subcommands added so far.
    pub closed spec fn pending(&self) -> Seq<CommandView> {
        command_views(self.subcommands@)
    }

    /// A builder with the bare `onboarding` command.
    pub fn new() -> (r: Self)
        ensures
            r.command_part() == onboarding_root_view(),
            r.pending() == Seq::<CommandView>::empty(),
    {
        let subcommands: Vec<CommandSpec> = Vec::new();
        assert(command_views(subcommands@) =~= Seq::<CommandView>::empty());
        OnboardingCommandBuilder {
            command: CommandSpec::new("onboarding")
            .about("Initial secure setup and status for Trust CLI")
            .arg(
                ArgSpec::new("format")
                    .long("format")
                    .value_name("FORMAT")
                    .help("Output format")
                    .choices(vec!["text", "json"])
                    .default_value("text")
                    .global(true),
            )
            .arg_required_else_help(true),
            subcommands,
        }
    }

    /// The command with the subcommands added so far.
    pub fn build(self) -> (r: CommandSpec)
        ensures
            r@ == self.command_part().subcommands(self.pending()),
    {
        self.command.subcommands(self.subcommands)
    }

    /// Adds the `init` subcommand.
    pub fn init(self) -> (r: Self)
        ensures
            r.command_part() == self.command_part(),
            r.pending() == self.pending().push(onboarding_init_view()),
    {
        let mut b = self;
        push_command(
            &mut b.subcommands,
            CommandSpec::new("init")
            .about("Initialize security controls for agent-safe usage")
            .arg(
                ArgSpec::new("protected-keyword")
                    .long("protected-keyword")
                    .value_name("KEYWORD")
                    .help("Protected keyword to store in keychain")
                    .required(true),
            ),
        );
        b
    }

    /// Adds the `status` subcommand.
    pub fn status(self) -> (r: Self)
        ensures
            r.command_part() == self.command_part(),
            r.pending() == self.pending().push(onboarding_status_view()),
    {
        let mut b = self;
        push_command(
            &mut b.subcommands,
            CommandSpec::new("status").about("Show onboarding and security-control readiness status"),
        );
        b
    }

}

impl Default for OnboardingCommandBuilder {
    fn default() -> (r: Self)
        ensures
            r.command_part() == onboarding_root_view(),
            r.pending() == Seq::<CommandView>::empty(),
    {
        Self::new()
    }
}

} // verus!
