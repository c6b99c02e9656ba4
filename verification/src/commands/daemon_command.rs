//! The `daemon` command line.

use vstd::prelude::*;
use crate::cli_spec::{ArgSpec, ArgView, CommandSpec, CommandView, command_views, push_command};

verus! {

/// Builder of the `daemon` command line.
pub struct DaemonCommandBuilder {
    command: CommandSpec,
    subcommands: Vec<CommandSpec>,
}

/// The `daemon` command before its subcommands are added.
pub open spec fn daemon_root_view() -> CommandView {
    CommandView::new("daemon")
    .about("Manage the BrokerSync daemon process")
    .arg_required_else_help(true)
}

/// The `start` subcommand that `start` adds.
pub open spec fn daemon_start_view() -> CommandView {
    CommandView::new("start")
    .about("Start the BrokerSync daemon for real-time order synchronization")
    .long_about(
        "Start the BrokerSync daemon process that maintains a persistent WebSocket \
        connection to Alpaca for real-time order updates. The daemon runs in the \
        background and automatically syncs order status changes to the local database.",
    )
}

/// The `stop` subcommand that `stop` adds.
pub open spec fn daemon_stop_view() -> CommandView {
    CommandView::new("stop")
    .about("Stop the BrokerSync daemon")
    .long_about(
        "Gracefully stop the BrokerSync daemon process. This will close the WebSocket \
        connection and stop real-time synchronization.",
    )
}

/// The `status` subcommand that `status` adds.
pub open spec fn daemon_status_view() -> CommandView {
    CommandView::new("status")
    .about("Show the current status of the BrokerSync daemon")
    .long_about(
        "Display information about the BrokerSync daemon including connection status, \
        uptime, active accounts, and last synchronization time.",
    )
}

/// The `restart` subcommand that `restart` adds.
pub open spec fn daemon_restart_view() -> CommandView {
    CommandView::new("restart")
    .about("Restart the BrokerSync daemon")
    .long_about(
        "Stop the current daemon process (if running) and start a new one. \
        This is equivalent to running 'daemon stop' followed by 'daemon start'.",
    )
}

impl DaemonCommandBuilder {
    /// The command being built, without the subcommands added so far.
    pub closed spec fn command_part(&self) -> CommandView {
        self.command@
    }

    /// The subcommands added so far.
    pub closed spec fn pending(&self) -> Seq<CommandView> {
        command_views(self.subcommands@)
    }

    /// A builder with the bare `daemon` command.
    pub fn new() -> (r: Self)
        ensures
            r.command_part() == daemon_root_view(),
            r.pending() == Seq::<CommandView>::empty(),
    {
        let subcommands: Vec<CommandSpec> = Vec::new();
        assert(command_views(subcommands@) =~= Seq::<CommandView>::empty());
        DaemonCommandBuilder {
            command: CommandSpec::new("daemon")
            .about("Manage the BrokerSync daemon process")
            .arg_required_else_help(true),
            subcommands,
        }
    }

    /// The command with the subcommands added so far.
    pub fn build(self) -> (r: CommandSpec)
        ensures
            r@ == self.command_part().subcommands(self.pending()),
    {
        self.command.subcommands(self.subcommands)
    }

    /// Adds the `start` subcommand.
    pub fn start(self) -> (r: Self)
        ensures
            r.command_part() == self.command_part(),
            r.pending() == self.pending().push(daemon_start_view()),
    {
        let mut b = self;
        push_command(
            &mut b.subcommands,
            CommandSpec::new("start")
            .about("Start the BrokerSync daemon for real-time order synchronization")
            .long_about(
                "Start the BrokerSync daemon process that maintains a persistent WebSocket \
                connection to Alpaca for real-time order updates. The daemon runs in the \
                background and automatically syncs order status changes to the local database.",
            ),
        );
        b
    }

    /// Adds the `stop` subcommand.
    pub fn stop(self) -> (r: Self)
        ensures
            r.command_part() == self.command_part(),
            r.pending() == self.pending().push(daemon_stop_view()),
    {
        let mut b = self;
        push_command(
            &mut b.subcommands,
            CommandSpec::new("stop")
            .about("Stop the BrokerSync daemon")
            .long_about(
                "Gracefully stop the BrokerSync daemon process. This will close the WebSocket \
                connection and stop real-time synchronization.",
            ),
        );
        b
    }

    /// Adds the `status` subcommand.
    pub fn status(self) -> (r: Self)
        ensures
            r.command_part() == self.command_part(),
            r.pending() == self.pending().push(daemon_status_view()),
    {
        let mut b = self;
        push_command(
            &mut b.subcommands,
            CommandSpec::new("status")
            .about("Show the current status of the BrokerSync daemon")
            .long_about(
                "Display information about the BrokerSync daemon including connection status, \
                uptime, active accounts, and last synchronization time.",
            ),
        );
        b
    }

    /// Adds the `restart` subcommand.
    pub fn restart(self) -> (r: Self)
        ensures
            r.command_part() == self.command_part(),
            r.pending() == self.pending().push(daemon_restart_view()),
    {
        let mut b = self;
        push_command(
            &mut b.subcommands,
            CommandSpec::new("restart")
            .about("Restart the BrokerSync daemon")
            .long_about(
                "Stop the current daemon process (if running) and start a new one. \
                This is equivalent to running 'daemon stop' followed by 'daemon start'.",
            ),
        );
        b
    }

}

} // verus!
