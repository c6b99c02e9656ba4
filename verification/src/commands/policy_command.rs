//! The `policy` command line.

use vstd::prelude::*;
use crate::cli_spec::{ArgSpec, ArgView, CommandSpec, CommandView};

verus! {

/// Builder of the `policy` command line.
pub struct PolicyCommandBuilder {
    command: CommandSpec,
}

/// The `policy` command before its subcommands are added.
pub open spec fn policy_root_view() -> CommandView {
    CommandView::new("policy")
    .about("Show CLI operational policy and protection boundaries")
    .arg(
        ArgView::new("format")
            .long("format")
            .value_name("FORMAT")
            .help("Output format")
            .choices(seq!["text", "json"])
            .default_value("text"),
    )
}

impl PolicyCommandBuilder {
    /// The command being built, without the subcommands added so far.
    pub closed spec fn command_part(&self) -> CommandView {
        self.command@
    }

    /// A builder with the bare `policy` command.
    pub fn new() -> (r: Self)
        ensures
            r.command_part() == policy_root_view(),
    {
        PolicyCommandBuilder {
            command: CommandSpec::new("policy")
            .about("Show CLI operational policy and protection boundaries")
            .arg(
                ArgSpec::new("format")
                    .long("format")
                    .value_name("FORMAT")
                    .help("Output format")
                    .choices(vec!["text", "json"])
                    .default_value("text"),
            ),
        }
    }

    /// The command.
    pub fn build(self) -> (r: CommandSpec)
        ensures
            r@ == self.command_part(),
    {
        self.command
    }

}

impl Default for PolicyCommandBuilder {
    fn default() -> (r: Self)
        ensures
            r.command_part() == policy_root_view(),
    {
        Self::new()
    }
}

} // verus!
