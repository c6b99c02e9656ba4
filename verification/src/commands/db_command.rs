//! The `db` command line.

use vstd::prelude::*;
use crate::cli_spec::{ArgSpec, ArgView, CommandSpec, CommandView, command_views, push_command};

verus! {

/// Builder of the `db` command line.
pub struct DbCommandBuilder {
    command: CommandSpec,
    subcommands: Vec<CommandSpec>,
}

/// The `db` command before its subcommands are added.
pub open spec fn db_root_view() -> CommandView {
    CommandView::new("db")
    .about("Database backup/export and restore/import")
    .arg_required_else_help(true)
}

/// The `export` subcommand that `export` adds.
pub open spec fn db_export_view() -> CommandView {
    CommandView::new("export")
    .about("Export full SQLite DB contents to a JSON file")
    .arg(
        ArgView::new("output")
            .short('o')
            .long("output")
            .value_name("FILE")
            .help("Output file path (default: trust-backup.json)")
            .required(false),
    )
}

/// The `import` subcommand that `import` adds.
pub open spec fn db_import_view() -> CommandView {
    CommandView::new("import")
    .about("Import a full JSON backup into SQLite")
    .arg(
        ArgView::new("input")
            .short('i')
            .long("input")
            .value_name("FILE")
            .help("Backup JSON file to import")
            .required(true),
    )
    .arg(
        ArgView::new("mode")
            .long("mode")
            .value_name("MODE")
            .help("Import mode (strict|replace) (default: strict)")
            .choices(seq!["strict", "replace"])
            .required(false),
    )
    .arg(
        ArgView::new("dry-run")
            .long("dry-run")
            .help("Validate only; do not write anything")
            .required(false)
            .flag(),
    )
    .arg(
        ArgView::new("confirm-protected")
            .long("confirm-protected")
            .value_name("KEYWORD")
            .help("Protected mutation keyword")
            .required(false),
    )
}

impl DbCommandBuilder {
    /// The command being built, without the subcommands added so far.
    pub closed spec fn command_part(&self) -> CommandView {
        self.command@
    }

    /// The subcommands added so far.
    pub closed spec fn pending(&self) -> Seq<CommandView> {
        command_views(self.subcommands@)
    }

    /// A builder with the bare `db` command.
    pub fn new() -> (r: Self)
        ensures
            r.command_part() == db_root_view(),
            r.pending() == Seq::<CommandView>::empty(),
    {
        let subcommands: Vec<CommandSpec> = Vec::new();
        assert(command_views(subcommands@) =~= Seq::<CommandView>::empty());
        DbCommandBuilder {
            command: CommandSpec::new("db")
            .about("Database backup/export and restore/import")
            .arg_required_else_help(true),
            subcommands,
        }
    }

    /// The command with the subcommands added so far.
    pub fn build(self) -> (r: CommandSpec)
        ensures
            r@ == self.command_part().subcommands(self.pending()),
    {
        self.command.subcommands(self.subcommands)
    }

    /// Adds the `export` subcommand.
    pub fn export(self) -> (r: Self)
        ensures
            r.command_part() == self.command_part(),
            r.pending() == self.pending().push(db_export_view()),
    {
        let mut b = self;
        push_command(
            &mut b.subcommands,
            CommandSpec::new("export")
            .about("Export full SQLite DB contents to a JSON file")
            .arg(
                ArgSpec::new("output")
                    .short('o')
                    .long("output")
                    .value_name("FILE")
                    .help("Output file path (default: trust-backup.json)")
                    .required(false),
            ),
        );
        b
    }

    /// Adds the `import` subcommand.
    pub fn import(self) -> (r: Self)
        ensures
            r.command_part() == self.command_part(),
            r.pending() == self.pending().push(db_import_view()),
    {
        let mut b = self;
        push_command(
            &mut b.subcommands,
            CommandSpec::new("import")
            .about("Import a full JSON backup into SQLite")
            .arg(
                ArgSpec::new("input")
                    .short('i')
                    .long("input")
                    .value_name("FILE")
                    .help("Backup JSON file to import")
                    .required(true),
            )
            .arg(
                ArgSpec::new("mode")
                    .long("mode")
                    .value_name("MODE")
                    .help("Import mode (strict|replace) (default: strict)")
                    .choices(vec!["strict", "replace"])
                    .required(false),
            )
            .arg(
                ArgSpec::new("dry-run")
                    .long("dry-run")
                    .help("Validate only; do not write anything")
                    .required(false)
                    .flag(),
            )
            .arg(
                ArgSpec::new("confirm-protected")
                    .long("confirm-protected")
                    .value_name("KEYWORD")
                    .help("Protected mutation keyword")
                    .required(false),
            ),
        );
        b
    }

}

impl Default for DbCommandBuilder {
    fn default() -> (r: Self)
        ensures
            r.command_part() == db_root_view(),
            r.pending() == Seq::<CommandView>::empty(),
    {
        Self::new()
    }
}

} // verus!
