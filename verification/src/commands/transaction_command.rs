//! The `transaction` command line.

use vstd::prelude::*;
use crate::cli_spec::{ArgSpec, ArgView, CommandSpec, CommandView, command_views, push_command};

verus! {

/// Builder of the `transaction` command line.
pub struct TransactionCommandBuilder {
    command: CommandSpec,
    subcommands: Vec<CommandSpec>,
}

/// The `transaction` command before its subcommands are added.
pub open spec fn transaction_root_view() -> CommandView {
    CommandView::new("transaction")
    .about("Withdraw or deposit money from an account")
    .arg_required_else_help(true)
}

/// The `deposit` subcommand that `deposit` adds.
pub open spec fn transaction_deposit_view() -> CommandView {
    CommandView::new("deposit")
    .about("Add money to an account")
    .arg(
        ArgView::new("account")
            .long("account")
            .value_name("ACCOUNT")
            .help("Account name or UUID for non-interactive mode")
            .required(false),
    )
    .arg(
        ArgView::new("currency")
            .long("currency")
            .value_name("CURRENCY")
            .help("Currency code (USD, EUR, BTC) for non-interactive mode")
            .required(false),
    )
    .arg(
        ArgView::new("amount")
            .long("amount")
            .value_name("AMOUNT")
            .help("Decimal amount for non-interactive mode")
            .required(false),
    )
    .arg(
        ArgView::new("confirm-protected")
            .long("confirm-protected")
            .value_name("KEYWORD")
            .help("Protected mutation keyword")
            .required(false),
    )
}

/// The `withdraw` subcommand that `withdraw` adds.
pub open spec fn transaction_withdraw_view() -> CommandView {
    CommandView::new("withdraw")
    .about("Withdraw money from an account")
    .arg(
        ArgView::new("account")
            .long("account")
            .value_name("ACCOUNT")
            .help("Account name or UUID for non-interactive mode")
            .required(false),
    )
    .arg(
        ArgView::new("currency")
            .long("currency")
            .value_name("CURRENCY")
            .help("Currency code (USD, EUR, BTC) for non-interactive mode")
            .required(false),
    )
    .arg(
        ArgView::new("amount")
            .long("amount")
            .value_name("AMOUNT")
            .help("Decimal amount for non-interactive mode")
            .required(false),
    )
    .arg(
        ArgView::new("confirm-protected")
            .long("confirm-protected")
            .value_name("KEYWORD")
            .help("Protected mutation keyword")
            .required(false),
    )
}

impl TransactionCommandBuilder {
    /// The command being built, without the subcommands added so far.
    pub closed spec fn command_part(&self) -> CommandView {
        self.command@
    }

    /// The subcommands added so far.
    pub closed spec fn pending(&self) -> Seq<CommandView> {
        command_views(self.subcommands@)
    }

    /// A builder with the bare `transaction` command.
    pub fn new() -> (r: Self)
        ensures
            r.command_part() == transaction_root_view(),
            r.pending() == Seq::<CommandView>::empty(),
    {
        let subcommands: Vec<CommandSpec> = Vec::new();
        assert(command_views(subcommands@) =~= Seq::<CommandView>::empty());
        TransactionCommandBuilder {
            command: CommandSpec::new("transaction")
            .about("Withdraw or deposit money from an account")
            .arg_required_else_help(true),
            subcommands,
        }
    }

    /// The command with the subcommands added so far.
    pub fn build(self) -> (r: CommandSpec)
        ensures
            r@ == self.command_part().subcommands(self.pending()),
    {
        self.command.subcommands(self.subcommands)
    }

    /// Adds the `deposit` subcommand.
    pub fn deposit(self) -> (r: Self)
        ensures
            r.command_part() == self.command_part(),
            r.pending() == self.pending().push(transaction_deposit_view()),
    {
        let mut b = self;
        push_command(
            &mut b.subcommands,
            CommandSpec::new("deposit")
            .about("Add money to an account")
            .arg(
                ArgSpec::new("account")
                    .long("account")
                    .value_name("ACCOUNT")
                    .help("Account name or UUID for non-interactive mode")
                    .required(false),
            )
            .arg(
                ArgSpec::new("currency")
                    .long("currency")
                    .value_name("CURRENCY")
                    .help("Currency code (USD, EUR, BTC) for non-interactive mode")
                    .required(false),
            )
            .arg(
                ArgSpec::new("amount")
                    .long("amount")
                    .value_name("AMOUNT")
                    .help("Decimal amount for non-interactive mode")
                    .required(false),
            )
            .arg(
                ArgSpec::new("confirm-protected")
                    .long("confirm-protected")
                    .value_name("KEYWORD")
                    .help("Protected mutation keyword")
                    .required(false),
            ),
        );
        b
    }

    /// Adds the `withdraw` subcommand.
    pub fn withdraw(self) -> (r: Self)
        ensures
            r.command_part() == self.command_part(),
            r.pending() == self.pending().push(transaction_withdraw_view()),
    {
        let mut b = self;
        push_command(
            &mut b.subcommands,
            CommandSpec::new("withdraw")
            .about("Withdraw money from an account")
            .arg(
                ArgSpec::new("account")
                    .long("account")
                    .value_name("ACCOUNT")
                    .help("Account name or UUID for non-interactive mode")
                    .required(false),
            )
            .arg(
                ArgSpec::new("currency")
                    .long("currency")
                    .value_name("CURRENCY")
                    .help("Currency code (USD, EUR, BTC) for non-interactive mode")
                    .required(false),
            )
            .arg(
                ArgSpec::new("amount")
                    .long("amount")
                    .value_name("AMOUNT")
                    .help("Decimal amount for non-interactive mode")
                    .required(false),
            )
            .arg(
                ArgSpec::new("confirm-protected")
                    .long("confirm-protected")
                    .value_name("KEYWORD")
                    .help("Protected mutation keyword")
                    .required(false),
            ),
        );
        b
    }

}

} // verus!
