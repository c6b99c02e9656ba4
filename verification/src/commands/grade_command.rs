//! The `grade` command line.

use vstd::prelude::*;
use crate::cli_spec::{ArgSpec, ArgView, CommandSpec, CommandView, ValueKind, command_views, push_command};

verus! {

/// Builder of the `grade` command line.
pub struct GradeCommandBuilder {
    command: CommandSpec,
    subcommands: Vec<CommandSpec>,
}

/// The `grade` command before its subcommands are added.
pub open spec fn grade_root_view() -> CommandView {
    CommandView::new("grade")
    .about("Grade closed trades and report grading statistics")
    .arg(
        ArgView::new("format")
            .long("format")
            .value_name("FORMAT")
            .help("Output format")
            .choices(seq!["text", "json"])
            .default_value("text")
            .global(true),
    )
    .arg_required_else_help(true)
}

/// The `show` subcommand that `show` adds.
pub open spec fn grade_show_view() -> CommandView {
    CommandView::new("show")
    .about("Show a detailed grade report for a single trade")
    .arg(
        ArgView::new("trade_id")
            .value_name("TRADE_ID")
            .help("Trade UUID to grade/show")
            .required(true),
    )
    .arg(
        ArgView::new("regrade")
            .long("regrade")
            .help("Recompute and persist a fresh grade even if one already exists")
            .flag()
            .required(false),
    )
    .arg(
        ArgView::new("weights")
            .long("weights")
            .value_name("WEIGHTS")
            .help("Component weights as comma-separated percentages (e.g. 40,30,20,10) or permille (e.g. 400,300,200,100). Sum must be 100 or 1000.")
            .required(false),
    )
}

/// The `summary` subcommand that `summary` adds.
pub open spec fn grade_summary_view() -> CommandView {
    CommandView::new("summary")
    .about("Summarize grades over a time window")
    .arg(
        ArgView::new("account")
            .long("account")
            .value_name("ACCOUNT_ID")
            .help("Filter by specific account ID")
            .required(false),
    )
    .arg(
        ArgView::new("days")
            .long("days")
            .value_name("DAYS")
            .help("Window size in days (default: 30)")
            .value_kind(ValueKind::U32)
            .required(false),
    )
    .arg(
        ArgView::new("weights")
            .long("weights")
            .value_name("WEIGHTS")
            .help("Component weights as comma-separated percentages (e.g. 40,30,20,10) or permille (e.g. 400,300,200,100). Sum must be 100 or 1000.")
            .required(false),
    )
}

impl GradeCommandBuilder {
    /// The command being built, without the subcommands added so far.
    pub closed spec fn command_part(&self) -> CommandView {
        self.command@
    }

    /// The subcommands added so far.
    pub closed spec fn pending(&self) -> Seq<CommandView> {
        command_views(self.subcommands@)
    }

    /// A builder with the bare `grade` command.
    pub fn new() -> (r: Self)
        ensures
            r.command_part() == grade_root_view(),
            r.pending() == Seq::<CommandView>::empty(),
    {
        let subcommands: Vec<CommandSpec> = Vec::new();
        assert(command_views(subcommands@) =~= Seq::<CommandView>::empty());
        GradeCommandBuilder {
            command: CommandSpec::new("grade")
            .about("Grade closed trades and report grading statistics")
            .arg(
                ArgSpec::new("format")
                    .long("format")
                    .value_name("FORMAT")
                    .help("Output format")
                    .choices(vec!["text", "json"])
                    .default_value("text")
                    .global(true),
            )
            .arg_required_else_help(true),
            subcommands,
        }
    }

    /// The command with the subcommands added so far.
    pub fn build(self) -> (r: CommandSpec)
        ensures
            r@ == self.command_part().subcommands(self.pending()),
    {
        self.command.subcommands(self.subcommands)
    }

    /// Adds the `show` subcommand.
    pub fn show(self) -> (r: Self)
        ensures
            r.command_part() == self.command_part(),
            r.pending() == self.pending().push(grade_show_view()),
    {
        let mut b = self;
        push_command(
            &mut b.subcommands,
            CommandSpec::new("show")
            .about("Show a detailed grade report for a single trade")
            .arg(
                ArgSpec::new("trade_id")
                    .value_name("TRADE_ID")
                    .help("Trade UUID to grade/show")
                    .required(true),
            )
            .arg(
                ArgSpec::new("regrade")
                    .long("regrade")
                    .help("Recompute and persist a fresh grade even if one already exists")
                    .flag()
                    .required(false),
            )
            .arg(
                ArgSpec::new("weights")
                    .long("weights")
                    .value_name("WEIGHTS")
                    .help("Component weights as comma-separated percentages (e.g. 40,30,20,10) or permille (e.g. 400,300,200,100). Sum must be 100 or 1000.")
                    .required(false),
            ),
        );
        b
    }

    /// Adds the `summary` subcommand.
    pub fn summary(self) -> (r: Self)
        ensures
            r.command_part() == self.command_part(),
            r.pending() == self.pending().push(grade_summary_view()),
    {
        let mut b = self;
        push_command(
            &mut b.subcommands,
            CommandSpec::new("summary")
            .about("Summarize grades over a time window")
            .arg(
                ArgSpec::new("account")
                    .long("account")
                    .value_name("ACCOUNT_ID")
                    .help("Filter by specific account ID")
                    .required(false),
            )
            .arg(
                ArgSpec::new("days")
                    .long("days")
                    .value_name("DAYS")
                    .help("Window size in days (default: 30)")
                    .value_kind(ValueKind::U32)
                    .required(false),
            )
            .arg(
                ArgSpec::new("weights")
                    .long("weights")
                    .value_name("WEIGHTS")
                    .help("Component weights as comma-separated percentages (e.g. 40,30,20,10) or permille (e.g. 400,300,200,100). Sum must be 100 or 1000.")
                    .required(false),
            ),
        );
        b
    }

}

impl Default for GradeCommandBuilder {
    fn default() -> (r: Self)
        ensures
            r.command_part() == grade_root_view(),
            r.pending() == Seq::<CommandView>::empty(),
    {
        Self::new()
    }
}

} // verus!
