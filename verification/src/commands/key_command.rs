//! The `key` command line.

use vstd::prelude::*;
use crate::cli_spec::{ArgSpec, ArgView, CommandSpec, CommandView, command_views, push_command};

verus! {

/// Builder of the `key` command line.
pub struct KeysCommandBuilder {
    command: CommandSpec,
    subcommands: Vec<CommandSpec>,
}

/// The `key` command before its subcommands are added.
pub open spec fn key_root_view() -> CommandView {
    CommandView::new("keys")
    .about("Manage the keys for the trading environment")
    .arg_required_else_help(true)
}

/// The `create` subcommand that `create_keys` adds.
pub open spec fn key_create_keys_view() -> CommandView {
    CommandView::new("create")
    .about("Create new keys for trading environment")
    .arg(
        ArgView::new("confirm-protected")
            .long("confirm-protected")
            .value_name("KEYWORD")
            .help("Protected mutation keyword")
            .required(false),
    )
}

/// The `show` subcommand that `read_environment` adds.
pub open spec fn key_read_environment_view() -> CommandView {
    CommandView::new("show").about("Show the current environment and url")
}

/// The `delete` subcommand that `delete_environment` adds.
pub open spec fn key_delete_environment_view() -> CommandView {
    CommandView::new("delete")
    .about("Delete the current environment and url")
    .arg(
        ArgView::new("confirm-protected")
            .long("confirm-protected")
            .value_name("KEYWORD")
            .help("Protected mutation keyword")
            .required(false),
    )
}

/// The `protected-set` subcommand that `protected_set` adds.
pub open spec fn key_protected_set_view() -> CommandView {
    CommandView::new("protected-set")
    .about("Store the protected mutation keyword in keychain")
    .arg(
        ArgView::new("value")
            .long("value")
            .value_name("KEYWORD")
            .help("Protected keyword to store in keychain")
            .required(true),
    )
    .arg(
        ArgView::new("confirm-protected")
            .long("confirm-protected")
            .value_name("CURRENT_KEYWORD")
            .help("Current keyword (required when rotating an existing keyword)")
            .required(false),
    )
}

/// The `protected-show` subcommand that `protected_show` adds.
pub open spec fn key_protected_show_view() -> CommandView {
    CommandView::new("protected-show")
    .about("Show whether protected mutation keyword is configured")
}

/// The `protected-delete` subcommand that `protected_delete` adds.
pub open spec fn key_protected_delete_view() -> CommandView {
    CommandView::new("protected-delete")
    .about("Delete protected mutation keyword")
    .arg(
        ArgView::new("confirm-protected")
            .long("confirm-protected")
            .value_name("CURRENT_KEYWORD")
            .help("Current keyword")
            .required(true),
    )
}

impl KeysCommandBuilder {
    /// The command being built, without the subcommands added so far.
    pub closed spec fn command_part(&self) -> CommandView {
        self.command@
    }

    /// The subcommands added so far.
    pub closed spec fn pending(&self) -> Seq<CommandView> {
        command_views(self.subcommands@)
    }

    /// A builder with the bare `key` command.
    pub fn new() -> (r: Self)
        ensures
            r.command_part() == key_root_view(),
            r.pending() == Seq::<CommandView>::empty(),
    {
        let subcommands: Vec<CommandSpec> = Vec::new();
        assert(command_views(subcommands@) =~= Seq::<CommandView>::empty());
        KeysCommandBuilder {
            command: CommandSpec::new("keys")
            .about("Manage the keys for the trading environment")
            .arg_required_else_help(true),
            subcommands,
        }
    }

    /// The command with the subcommands added so far.
    pub fn build(self) -> (r: CommandSpec)
        ensures
            r@ == self.command_part().subcommands(self.pending()),
    {
        self.command.subcommands(self.subcommands)
    }

    /// Adds the `create` subcommand.
    pub fn create_keys(self) -> (r: Self)
        ensures
            r.command_part() == self.command_part(),
            r.pending() == self.pending().push(key_create_keys_view()),
    {
        let mut b = self;
        push_command(
            &mut b.subcommands,
            CommandSpec::new("create")
            .about("Create new keys for trading environment")
            .arg(
                ArgSpec::new("confirm-protected")
                    .long("confirm-protected")
                    .value_name("KEYWORD")
                    .help("Protected mutation keyword")
                    .required(false),
            ),
        );
        b
    }

    /// Adds the `show` subcommand.
    pub fn read_environment(self) -> (r: Self)
        ensures
            r.command_part() == self.command_part(),
            r.pending() == self.pending().push(key_read_environment_view()),
    {
        let mut b = self;
        push_command(
            &mut b.subcommands,
            CommandSpec::new("show").about("Show the current environment and url"),
        );
        b
    }

    /// Adds the `delete` subcommand.
    pub fn delete_environment(self) -> (r: Self)
        ensures
            r.command_part() == self.command_part(),
            r.pending() == self.pending().push(key_delete_environment_view()),
    {
        let mut b = self;
        push_command(
            &mut b.subcommands,
            CommandSpec::new("delete")
            .about("Delete the current environment and url")
            .arg(
                ArgSpec::new("confirm-protected")
                    .long("confirm-protected")
                    .value_name("KEYWORD")
                    .help("Protected mutation keyword")
                    .required(false),
            ),
        );
        b
    }

    /// Adds the `protected-set` subcommand.
    pub fn protected_set(self) -> (r: Self)
        ensures
            r.command_part() == self.command_part(),
            r.pending() == self.pending().push(key_protected_set_view()),
    {
        let mut b = self;
        push_command(
            &mut b.subcommands,
            CommandSpec::new("protected-set")
            .about("Store the protected mutation keyword in keychain")
            .arg(
                ArgSpec::new("value")
                    .long("value")
                    .value_name("KEYWORD")
                    .help("Protected keyword to store in keychain")
                    .required(true),
            )
            .arg(
                ArgSpec::new("confirm-protected")
                    .long("confirm-protected")
                    .value_name("CURRENT_KEYWORD")
                    .help("Current keyword (required when rotating an existing keyword)")
                    .required(false),
            ),
        );
        b
    }

    /// Adds the `protected-show` subcommand.
    pub fn protected_show(self) -> (r: Self)
        ensures
            r.command_part() == self.command_part(),
            r.pending() == self.pending().push(key_protected_show_view()),
    {
        let mut b = self;
        push_command(
            &mut b.subcommands,
            CommandSpec::new("protected-show")
            .about("Show whether protected mutation keyword is configured"),
        );
        b
    }

    /// Adds the `protected-delete` subcommand.
    pub fn protected_delete(self) -> (r: Self)
        ensures
            r.command_part() == self.command_part(),
            r.pending() == self.pending().push(key_protected_delete_view()),
    {
        let mut b = self;
        push_command(
            &mut b.subcommands,
            CommandSpec::new("protected-delete")
            .about("Delete protected mutation keyword")
            .arg(
                ArgSpec::new("confirm-protected")
                    .long("confirm-protected")
                    .value_name("CURRENT_KEYWORD")
                    .help("Current keyword")
                    .required(true),
            ),
        );
        b
    }

}

} // verus!
