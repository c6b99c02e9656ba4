//! The `account` command line.

use vstd::prelude::*;
use crate::cli_spec::{ArgSpec, ArgView, CommandSpec, CommandView, command_views, push_command};

verus! {

/// Builder of the `account` command line.
pub struct AccountCommandBuilder {
    command: CommandSpec,
    subcommands: Vec<CommandSpec>,
}

/// The `account` command before its subcommands are added.
pub open spec fn account_root_view() -> CommandView {
    CommandView::new("accounts")
    .visible_alias("account")
    .about("Manage the trading account information")
    .arg_required_else_help(true)
}

/// The `create` subcommand that `create_account` adds.
pub open spec fn account_create_account_view() -> CommandView {
    CommandView::new("create")
    .about("Create a new account")
    .arg(
        ArgView::new("name")
            .long("name")
            .value_name("STRING")
            .help("Account name (non-interactive mode)")
            .required(false),
    )
    .arg(
        ArgView::new("description")
            .long("description")
            .value_name("STRING")
            .help("Account description (non-interactive mode)")
            .required(false),
    )
    .arg(
        ArgView::new("environment")
            .long("environment")
            .value_name("ENV")
            .help("Environment: paper|live (non-interactive mode)")
            .required(false),
    )
    .arg(
        ArgView::new("taxes")
            .long("taxes")
            .value_name("DECIMAL")
            .help("Tax percentage (e.g. 25.0) (non-interactive mode)")
            .required(false),
    )
    .arg(
        ArgView::new("earnings")
            .long("earnings")
            .value_name("DECIMAL")
            .help("Earnings percentage (e.g. 30.0) (non-interactive mode)")
            .required(false),
    )
    .arg(
        ArgView::new("type")
            .long("type")
            .value_name("TYPE")
            .help("Account type: primary|earnings|tax-reserve|reinvestment")
            .required(false),
    )
    .arg(
        ArgView::new("parent")
            .long("parent")
            .value_name("UUID")
            .help("Parent account ID for child account types")
            .required(false),
    )
    .arg(
        ArgView::new("confirm-protected")
            .long("confirm-protected")
            .value_name("KEYWORD")
            .help("Protected mutation keyword")
            .required(false),
    )
}

/// The `search` subcommand that `read_account` adds.
pub open spec fn account_read_account_view() -> CommandView {
    CommandView::new("search").about("search an account by name")
}

/// The `transfer` subcommand that `transfer_account` adds.
pub open spec fn account_transfer_account_view() -> CommandView {
    CommandView::new("transfer")
    .about("Transfer funds between accounts in hierarchy")
    .arg(
        ArgView::new("from")
            .long("from")
            .short('f')
            .value_name("UUID")
            .help("Source account ID")
            .required(true),
    )
    .arg(
        ArgView::new("to")
            .long("to")
            .short('t')
            .value_name("UUID")
            .help("Destination account ID")
            .required(true),
    )
    .arg(
        ArgView::new("amount")
            .long("amount")
            .short('a')
            .value_name("DECIMAL")
            .help("Amount to transfer")
            .required(true),
    )
    .arg(
        ArgView::new("reason")
            .long("reason")
            .short('r')
            .value_name("STRING")
            .help("Reason for transfer")
            .required(true),
    )
}

/// The `list` subcommand that `list_accounts` adds.
pub open spec fn account_list_accounts_view() -> CommandView {
    CommandView::new("list").about("List accounts").arg(
        ArgView::new("hierarchy")
            .long("hierarchy")
            .help("Display account hierarchy")
            .flag()
            .required(false),
    )
}

/// The `balance` subcommand that `balance_accounts` adds.
pub open spec fn account_balance_accounts_view() -> CommandView {
    CommandView::new("balance").about("Show account balances").arg(
        ArgView::new("detailed")
            .long("detailed")
            .help("Show detailed balances per account and currency")
            .flag()
            .required(false),
    )
}

impl AccountCommandBuilder {
    /// The command being built, without the subcommands added so far.
    pub closed spec fn command_part(&self) -> CommandView {
        self.command@
    }

    /// The subcommands added so far.
    pub closed spec fn pending(&self) -> Seq<CommandView> {
        command_views(self.subcommands@)
    }

    /// A builder with the bare `account` command.
    pub fn new() -> (r: Self)
        ensures
            r.command_part() == account_root_view(),
            r.pending() == Seq::<CommandView>::empty(),
    {
        let subcommands: Vec<CommandSpec> = Vec::new();
        assert(command_views(subcommands@) =~= Seq::<CommandView>::empty());
        AccountCommandBuilder {
            command: CommandSpec::new("accounts")
            .visible_alias("account")
            .about("Manage the trading account information")
            .arg_required_else_help(true),
            subcommands,
        }
    }

    /// The command with the subcommands added so far.
    pub fn build(self) -> (r: CommandSpec)
        ensures
            r@ == self.command_part().subcommands(self.pending()),
    {
        self.command.subcommands(self.subcommands)
    }

    /// Adds the `create` subcommand.
    pub fn create_account(self) -> (r: Self)
        ensures
            r.command_part() == self.command_part(),
            r.pending() == self.pending().push(account_create_account_view()),
    {
        let mut b = self;
        push_command(
            &mut b.subcommands,
            CommandSpec::new("create")
            .about("Create a new account")
            .arg(
                ArgSpec::new("name")
                    .long("name")
                    .value_name("STRING")
                    .help("Account name (non-interactive mode)")
                    .required(false),
            )
            .arg(
                ArgSpec::new("description")
                    .long("description")
                    .value_name("STRING")
                    .help("Account description (non-interactive mode)")
                    .required(false),
            )
            .arg(
                ArgSpec::new("environment")
                    .long("environment")
                    .value_name("ENV")
                    .help("Environment: paper|live (non-interactive mode)")
                    .required(false),
            )
            .arg(
                ArgSpec::new("taxes")
                    .long("taxes")
                    .value_name("DECIMAL")
                    .help("Tax percentage (e.g. 25.0) (non-interactive mode)")
                    .required(false),
            )
            .arg(
                ArgSpec::new("earnings")
                    .long("earnings")
                    .value_name("DECIMAL")
                    .help("Earnings percentage (e.g. 30.0) (non-interactive mode)")
                    .required(false),
            )
            .arg(
                ArgSpec::new("type")
                    .long("type")
                    .value_name("TYPE")
                    .help("Account type: primary|earnings|tax-reserve|reinvestment")
                    .required(false),
            )
            .arg(
                ArgSpec::new("parent")
                    .long("parent")
                    .value_name("UUID")
                    .help("Parent account ID for child account types")
                    .required(false),
            )
            .arg(
                ArgSpec::new("confirm-protected")
                    .long("confirm-protected")
                    .value_name("KEYWORD")
                    .help("Protected mutation keyword")
                    .required(false),
            ),
        );
        b
    }

    /// Adds the `search` subcommand.
    pub fn read_account(self) -> (r: Self)
        ensures
            r.command_part() == self.command_part(),
            r.pending() == self.pending().push(account_read_account_view()),
    {
        let mut b = self;
        push_command(
            &mut b.subcommands,
            CommandSpec::new("search").about("search an account by name"),
        );
        b
    }

    /// Adds the `transfer` subcommand.
    pub fn transfer_account(self) -> (r: Self)
        ensures
            r.command_part() == self.command_part(),
            r.pending() == self.pending().push(account_transfer_account_view()),
    {
        let mut b = self;
        push_command(
            &mut b.subcommands,
            CommandSpec::new("transfer")
            .about("Transfer funds between accounts in hierarchy")
            .arg(
                ArgSpec::new("from")
                    .long("from")
                    .short('f')
                    .value_name("UUID")
                    .help("Source account ID")
                    .required(true),
            )
            .arg(
                ArgSpec::new("to")
                    .long("to")
                    .short('t')
                    .value_name("UUID")
                    .help("Destination account ID")
                    .required(true),
            )
            .arg(
                ArgSpec::new("amount")
                    .long("amount")
                    .short('a')
                    .value_name("DECIMAL")
                    .help("Amount to transfer")
                    .required(true),
            )
            .arg(
                ArgSpec::new("reason")
                    .long("reason")
                    .short('r')
                    .value_name("STRING")
                    .help("Reason for transfer")
                    .required(true),
            ),
        );
        b
    }

    /// Adds the `list` subcommand.
    pub fn list_accounts(self) -> (r: Self)
        ensures
            r.command_part() == self.command_part(),
            r.pending() == self.pending().push(account_list_accounts_view()),
    {
        let mut b = self;
        push_command(
            &mut b.subcommands,
            CommandSpec::new("list").about("List accounts").arg(
                ArgSpec::new("hierarchy")
                    .long("hierarchy")
                    .help("Display account hierarchy")
                    .flag()
                    .required(false),
            ),
        );
        b
    }

    /// Adds the `balance` subcommand.
    pub fn balance_accounts(self) -> (r: Self)
        ensures
            r.command_part() == self.command_part(),
            r.pending() == self.pending().push(account_balance_accounts_view()),
    {
        let mut b = self;
        push_command(
            &mut b.subcommands,
            CommandSpec::new("balance").about("Show account balances").arg(
                ArgSpec::new("detailed")
                    .long("detailed")
                    .help("Show detailed balances per account and currency")
                    .flag()
                    .required(false),
            ),
        );
        b
    }

}

} // verus!
