//! The `session` command line.

use vstd::prelude::*;
use crate::cli_spec::{ArgSpec, ArgView, CommandSpec, CommandView, command_views, push_command};

verus! {

/// Builder of the `session` command line.
pub struct SessionCommandBuilder {
    command: CommandSpec,
    subcommands: Vec<CommandSpec>,
}

/// The `session` command before its subcommands are added.
pub open spec fn session_root_view() -> CommandView {
    CommandView::new("session")
    .about("Open, close, and review trading session plans")
    .arg(
        ArgView::new("format")
            .long("format")
            .value_name("FORMAT")
            .help("Output format")
            .choices(seq!["human", "text", "json"])
            .default_value("human")
            .global(true),
    )
    .arg_required_else_help(true)
}

/// The `open` subcommand that `open` adds.
pub open spec fn session_open_view() -> CommandView {
    CommandView::new("open")
    .about("Open a trading session and capture the pre-session plan")
    .arg(
        ArgView::new("account")
            .long("account")
            .value_name("ACCOUNT")
            .help("Account name or UUID")
            .required(true),
    )
}

/// The `close` subcommand that `close` adds.
pub open spec fn session_close_view() -> CommandView {
    CommandView::new("close")
    .about("Close the active trading session and capture the review")
    .arg(
        ArgView::new("account")
            .long("account")
            .value_name("ACCOUNT")
            .help("Account name or UUID; required when more than one session is open")
            .required(false),
    )
}

/// The `list` subcommand that `list` adds.
pub open spec fn session_list_view() -> CommandView {
    CommandView::new("list")
    .about("List session plan history for an account")
    .arg(
        ArgView::new("account")
            .long("account")
            .value_name("ACCOUNT")
            .help("Account name or UUID")
            .required(true),
    )
}

impl SessionCommandBuilder {
    /// The command being built, without the subcommands added so far.
    pub closed spec fn command_part(&self) -> CommandView {
        self.command@
    }

    /// The subcommands added so far.
    pub closed spec fn pending(&self) -> Seq<CommandView> {
        command_views(self.subcommands@)
    }

    /// A builder with the bare `session` command.
    pub fn new() -> (r: Self)
        ensures
            r.command_part() == session_root_view(),
            r.pending() == Seq::<CommandView>::empty(),
    {
        let subcommands: Vec<CommandSpec> = Vec::new();
        assert(command_views(subcommands@) =~= Seq::<CommandView>::empty());
        SessionCommandBuilder {
            command: CommandSpec::new("session")
            .about("Open, close, and review trading session plans")
            .arg(
                ArgSpec::new("format")
                    .long("format")
                    .value_name("FORMAT")
                    .help("Output format")
                    .choices(vec!["human", "text", "json"])
                    .default_value("human")
                    .global(true),
            )
            .arg_required_else_help(true),
            subcommands,
        }
    }

    /// The command with the subcommands added so far.
    pub fn build(self) -> (r: CommandSpec)
        ensures
            r@ == self.command_part().subcommands(self.pending()),
    {
        self.command.subcommands(self.subcommands)
    }

    /// Adds the `open` subcommand.
    pub fn open(self) -> (r: Self)
        ensures
            r.command_part() == self.command_part(),
            r.pending() == self.pending().push(session_open_view()),
    {
        let mut b = self;
        push_command(
            &mut b.subcommands,
            CommandSpec::new("open")
            .about("Open a trading session and capture the pre-session plan")
            .arg(
                ArgSpec::new("account")
                    .long("account")
                    .value_name("ACCOUNT")
                    .help("Account name or UUID")
                    .required(true),
            ),
        );
        b
    }

    /// Adds the `close` subcommand.
    pub fn close(self) -> (r: Self)
        ensures
            r.command_part() == self.command_part(),
            r.pending() == self.pending().push(session_close_view()),
    {
        let mut b = self;
        push_command(
            &mut b.subcommands,
            CommandSpec::new("close")
            .about("Close the active trading session and capture the review")
            .arg(
                ArgSpec::new("account")
                    .long("account")
                    .value_name("ACCOUNT")
                    .help("Account name or UUID; required when more than one session is open")
                    .required(false),
            ),
        );
        b
    }

    /// Adds the `list` subcommand.
    pub fn list(self) -> (r: Self)
        ensures
            r.command_part() == self.command_part(),
            r.pending() == self.pending().push(session_list_view()),
    {
        let mut b = self;
        push_command(
            &mut b.subcommands,
            CommandSpec::new("list")
            .about("List session plan history for an account")
            .arg(
                ArgSpec::new("account")
                    .long("account")
                    .value_name("ACCOUNT")
                    .help("Account name or UUID")
                    .required(true),
            ),
        );
        b
    }

}

impl Default for SessionCommandBuilder {
    fn default() -> (r: Self)
        ensures
            r.command_part() == session_root_view(),
            r.pending() == Seq::<CommandView>::empty(),
    {
        Self::new()
    }
}

} // verus!
