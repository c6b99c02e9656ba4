//! Turning a command-line description into the argument parser's command.
//! What a parser command or argument holds is named, and each builder method
//! of the parser is stated over that name.

use vstd::prelude::*;
use crate::cli_spec::{ArgSpec, ArgView, CommandSpec, CommandView, ValueKind, command_view, command_views};

verus! {

/// A command of the argument parser (`clap::Command`).
#[verifier::external_type_specification]
#[verifier::external_body]
pub struct ExClapCommand(clap::Command);

/// An argument of the argument parser (`clap::Arg`).
#[verifier::external_type_specification]
#[verifier::external_body]
pub struct ExClapArg(clap::Arg);

/// A value parser of the argument parser (`clap::builder::ValueParser`).
#[verifier::external_type_specification]
#[verifier::external_body]
pub struct ExValueParser(clap::builder::ValueParser);

/// What a parser command holds, in the terms of a command description: its
/// name, visible alias, texts, the two settings, its arguments and its
/// subcommands, in the order they were added.
pub uninterp spec fn clap_command_view(c: clap::Command) -> CommandView;

/// What a parser argument holds, in the terms of an argument description.
pub uninterp spec fn clap_arg_view(a: clap::Arg) -> ArgView;

/// What a value parser accepts.
pub uninterp spec fn clap_parser_view(p: clap::builder::ValueParser) -> ParserView;

/// What a value parser accepts: one of a list of texts, or a value of a kind.
pub enum ParserView {
    Choices(Seq<&'static str>),
    Kind(ValueKind),
}

/// An argument whose value parser was replaced by `p` (an argument has one
/// parser: setting it drops the one before).
pub open spec fn with_parser(a: ArgView, p: ParserView) -> ArgView {
    match p {
        ParserView::Choices(cs) => ArgView { choices: cs, kind: ValueKind::Text, ..a },
        ParserView::Kind(k) => ArgView { choices: seq![], kind: k, ..a },
    }
}

/// `Command::new`: a command with the name and nothing else set.
#[verifier::external_body]
fn command_new(name: &'static str) -> (r: clap::Command)
    ensures
        clap_command_view(r) == CommandView::new(name),
{
    clap::Command::new(name)
}

/// `Command::visible_alias`: adds an alias shown in help. The parser keeps
/// a list of aliases; on a command without one, the alias is the one.
#[verifier::external_body]
fn command_visible_alias(c: clap::Command, alias: &'static str) -> (r: clap::Command)
    ensures
        clap_command_view(c).visible_alias is None ==> clap_command_view(r) == clap_command_view(c).visible_alias(alias),
{
    c.visible_alias(alias)
}

/// `Command::about`: sets the short description.
#[verifier::external_body]
fn command_about(c: clap::Command, about: &'static str) -> (r: clap::Command)
    ensures
        clap_command_view(r) == clap_command_view(c).about(about),
{
    c.about(about)
}

/// `Command::long_about`: sets the long description.
#[verifier::external_body]
fn command_long_about(c: clap::Command, about: &'static str) -> (r: clap::Command)
    ensures
        clap_command_view(r) == clap_command_view(c).long_about(about),
{
    c.long_about(about)
}

/// `Command::arg_required_else_help`: sets or clears the setting.
#[verifier::external_body]
fn command_arg_required_else_help(c: clap::Command, yes: bool) -> (r: clap::Command)
    ensures
        clap_command_view(r) == clap_command_view(c).arg_required_else_help(yes),
{
    c.arg_required_else_help(yes)
}

/// `Command::subcommand_required`: sets or clears the setting.
#[verifier::external_body]
fn command_subcommand_required(c: clap::Command, yes: bool) -> (r: clap::Command)
    ensures
        clap_command_view(r) == clap_command_view(c).subcommand_required(yes),
{
    c.subcommand_required(yes)
}

/// `Command::arg`: appends the argument (the parser also fills in its
/// display order and help heading, which a description does not hold).
#[verifier::external_body]
fn command_arg(c: clap::Command, a: clap::Arg) -> (r: clap::Command)
    ensures
        clap_command_view(r) == clap_command_view(c).arg(clap_arg_view(a)),
{
    c.arg(a)
}

/// `Command::subcommand`: appends the subcommand (the parser also fills in
/// its display order).
#[verifier::external_body]
fn command_subcommand(c: clap::Command, sub: clap::Command) -> (r: clap::Command)
    ensures
        clap_command_view(r) == clap_command_view(c).subcommand(clap_command_view(sub)),
{
    c.subcommand(sub)
}

/// `Arg::new`: an argument with the id and nothing else set.
#[verifier::external_body]
fn arg_new(id: &'static str) -> (r: clap::Arg)
    ensures
        clap_arg_view(r) == ArgView::new(id),
{
    clap::Arg::new(id)
}

/// `Arg::long`: sets the long name.
#[verifier::external_body]
fn arg_long(a: clap::Arg, long: &'static str) -> (r: clap::Arg)
    ensures
        clap_arg_view(r) == clap_arg_view(a).long(long),
{
    a.long(long)
}

/// `Arg::short`: sets the short name; the parser refuses `-` as one.
#[verifier::external_body]
fn arg_short(a: clap::Arg, short: char) -> (r: clap::Arg)
    requires
        short != '-',
    ensures
        clap_arg_view(r) == clap_arg_view(a).short(short),
{
    a.short(short)
}

/// `Arg::value_name`: sets the one name shown for the value.
#[verifier::external_body]
fn arg_value_name(a: clap::Arg, name: &'static str) -> (r: clap::Arg)
    ensures
        clap_arg_view(r) == clap_arg_view(a).value_name(name),
{
    a.value_name(name)
}

/// `Arg::help`: sets the help text.
#[verifier::external_body]
fn arg_help(a: clap::Arg, help: &'static str) -> (r: clap::Arg)
    ensures
        clap_arg_view(r) == clap_arg_view(a).help(help),
{
    a.help(help)
}

/// `Arg::required`: sets or clears the setting.
#[verifier::external_body]
fn arg_required(a: clap::Arg, yes: bool) -> (r: clap::Arg)
    ensures
        clap_arg_view(r) == clap_arg_view(a).required(yes),
{
    a.required(yes)
}

/// `Arg::action` with `ArgAction::SetTrue`: a switch without a value.
#[verifier::external_body]
fn arg_set_true(a: clap::Arg) -> (r: clap::Arg)
    ensures
        clap_arg_view(r) == clap_arg_view(a).flag(),
{
    a.action(clap::ArgAction::SetTrue)
}

/// `Arg::default_value`: sets the one value used when the argument is absent.
#[verifier::external_body]
fn arg_default_value(a: clap::Arg, value: &'static str) -> (r: clap::Arg)
    ensures
        clap_arg_view(r) == clap_arg_view(a).default_value(value),
{
    a.default_value(value)
}

/// `Arg::global`: sets or clears the setting.
#[verifier::external_body]
fn arg_global(a: clap::Arg, yes: bool) -> (r: clap::Arg)
    ensures
        clap_arg_view(r) == clap_arg_view(a).global(yes),
{
    a.global(yes)
}

/// `PossibleValuesParser::new`: a parser accepting only `choices`.
#[verifier::external_body]
fn choices_parser(choices: Vec<&'static str>) -> (r: clap::builder::ValueParser)
    ensures
        clap_parser_view(r) == ParserView::Choices(choices@),
{
    clap::builder::PossibleValuesParser::new(choices).into()
}

/// The value parser of `u16` (`ValueParserFactory::value_parser`).
#[verifier::external_body]
fn u16_parser() -> (r: clap::builder::ValueParser)
    ensures
        clap_parser_view(r) == ParserView::Kind(ValueKind::U16),
{
    <u16 as clap::builder::ValueParserFactory>::value_parser().into()
}

/// The value parser of `u32` (`ValueParserFactory::value_parser`).
#[verifier::external_body]
fn u32_parser() -> (r: clap::builder::ValueParser)
    ensures
        clap_parser_view(r) == ParserView::Kind(ValueKind::U32),
{
    <u32 as clap::builder::ValueParserFactory>::value_parser().into()
}

/// The value parser of `i64` (`ValueParserFactory::value_parser`).
#[verifier::external_body]
fn i64_parser() -> (r: clap::builder::ValueParser)
    ensures
        clap_parser_view(r) == ParserView::Kind(ValueKind::I64),
{
    <i64 as clap::builder::ValueParserFactory>::value_parser().into()
}

/// The value parser of `u8` limited to `lo..=hi` (`RangedI64ValueParser::range`).
#[verifier::external_body]
fn u8_range_parser(lo: u8, hi: u8) -> (r: clap::builder::ValueParser)
    ensures
        clap_parser_view(r) == ParserView::Kind(ValueKind::U8Range(lo, hi)),
{
    <u8 as clap::builder::ValueParserFactory>::value_parser().range((lo as i64)..=(hi as i64)).into()
}

/// `Arg::value_parser`: replaces the argument's parser by a copy of `parser`.
#[verifier::external_body]
fn arg_parser(a: clap::Arg, parser: &clap::builder::ValueParser) -> (r: clap::Arg)
    ensures
        clap_arg_view(r) == with_parser(clap_arg_view(a), clap_parser_view(*parser)),
{
    a.value_parser(parser.clone())
}

/// Whether the parser can hold an argument as described: `-` is no short
/// name, and the argument has choices or a kind of value, not both (the
/// parser gives an argument one value parser).
pub open spec fn arg_ready(a: ArgView) -> bool {
    &&& a.short != Some('-')
    &&& a.choices.len() == 0 || a.kind == ValueKind::Text
}

/// Whether every argument in `c` or below it is one the parser can hold as
/// described.
pub open spec fn clap_ready(c: CommandView) -> bool
    decreases c,
{
    &&& forall|i: int| 0 <= i < c.args.len() ==> arg_ready(#[trigger] c.args[i])
    &&& forall|i: int|
        0 <= i < c.subcommands.len() ==> clap_ready(#[trigger] c.subcommands[i])
}

/// Whether `p` parses floating-point values.
pub open spec fn reads_floats(p: ParserView) -> bool {
    p == ParserView::Kind(ValueKind::Float)
}

proof fn lemma_command_views_index(s: Seq<CommandSpec>)
    ensures
        command_views(s).len() == s.len(),
        forall|i: int| 0 <= i < s.len() ==> command_views(s)[i] == command_view(#[trigger] s[i]),
    decreases s.len(),
{
    if s.len() > 0 {
        lemma_command_views_index(s.drop_first());
        assert forall|i: int| 0 <= i < s.len() implies command_views(s)[i] == command_view(#[trigger] s[i]) by {
            if i > 0 {
                assert(s.drop_first()[i - 1] == s[i]);
            }
        }
    }
}

/// The parser argument for `a`.
fn arg_to_clap(a: &ArgSpec, float_parser: &clap::builder::ValueParser) -> (r: clap::Arg)
    requires
        arg_ready(a@),
    ensures
        reads_floats(clap_parser_view(*float_parser)) ==> clap_arg_view(r) == a@,
{
    let mut arg = arg_new(a.id);
    if let Some(l) = a.long {
        arg = arg_long(arg, l);
    }
    if let Some(s) = a.short {
        arg = arg_short(arg, s);
    }
    if let Some(v) = a.value_name {
        arg = arg_value_name(arg, v);
    }
    if let Some(h) = a.help {
        arg = arg_help(arg, h);
    }
    if a.flag {
        arg = arg_set_true(arg);
    }
    if a.choices.len() > 0 {
        arg = arg_parser(arg, &choices_parser(a.choices.clone()));
    } else {
        assert(a.choices@ =~= seq![]);
    }
    match a.kind {
        ValueKind::Text => {},
        ValueKind::U16 => {
            arg = arg_parser(arg, &u16_parser());
        },
        ValueKind::U32 => {
            arg = arg_parser(arg, &u32_parser());
        },
        ValueKind::I64 => {
            arg = arg_parser(arg, &i64_parser());
        },
        ValueKind::Float => {
            arg = arg_parser(arg, float_parser);
        },
        ValueKind::U8Range(lo, hi) => {
            arg = arg_parser(arg, &u8_range_parser(lo, hi));
        },
    }
    if let Some(d) = a.default_value {
        arg = arg_default_value(arg, d);
    }
    if a.global {
        arg = arg_global(arg, true);
    }
    arg_required(arg, a.required)
}

/// The parser command for `c`: it holds what `c` describes, where
/// `float_parser` is the parser of floating-point values.
pub fn to_clap(c: &CommandSpec, float_parser: &clap::builder::ValueParser) -> (r: clap::Command)
    requires
        clap_ready(c@),
    ensures
        reads_floats(clap_parser_view(*float_parser)) ==> clap_command_view(r) == c@,
    decreases c,
{
    let mut cmd = command_new(c.name);
    if let Some(a) = c.visible_alias {
        cmd = command_visible_alias(cmd, a);
    }
    if let Some(a) = c.about {
        cmd = command_about(cmd, a);
    }
    if let Some(a) = c.long_about {
        cmd = command_long_about(cmd, a);
    }
    if c.subcommand_required {
        cmd = command_subcommand_required(cmd, true);
    }
    if c.arg_required_else_help {
        cmd = command_arg_required_else_help(cmd, true);
    }
    let ghost head = CommandView { args: seq![], subcommands: seq![], ..c@ };
    assert(c@.args.subrange(0, 0) =~= seq![]);
    assert(clap_command_view(cmd) == head);
    let mut i: usize = 0;
    while i < c.args.len()
        invariant
            clap_ready(c@),
            i <= c.args@.len(),
            c@.args.len() == c.args@.len(),
            head == (CommandView { args: seq![], subcommands: seq![], ..c@ }),
            reads_floats(clap_parser_view(*float_parser)) ==> clap_command_view(cmd) == (CommandView { args: c@.args.subrange(0, i as int), ..head }),
        decreases c.args@.len() - i,
    {
        assert(c@.args[i as int] == c.args@[i as int]@);
        let a = arg_to_clap(&c.args[i], float_parser);
        cmd = command_arg(cmd, a);
        assert(c@.args.subrange(0, i + 1) =~= c@.args.subrange(0, i as int).push(c@.args[i as int]));
        i = i + 1;
    }
    assert(c@.args.subrange(0, i as int) =~= c@.args);
    assert(c@.subcommands.subrange(0, 0) =~= seq![]);
    proof {
        lemma_command_views_index(c.subcommands@);
    }
    let mut j: usize = 0;
    while j < c.subcommands.len()
        invariant
            clap_ready(c@),
            j <= c.subcommands@.len(),
            c@.subcommands == command_views(c.subcommands@),
            command_views(c.subcommands@).len() == c.subcommands@.len(),
            forall|k: int| 0 <= k < c.subcommands@.len() ==> command_views(c.subcommands@)[k] == command_view(#[trigger] c.subcommands@[k]),
            reads_floats(clap_parser_view(*float_parser)) ==> clap_command_view(cmd) == (CommandView { subcommands: c@.subcommands.subrange(0, j as int), ..c@ }),
        decreases c.subcommands@.len() - j,
    {
        assert(c@.subcommands[j as int] == c.subcommands@[j as int]@);
        assert(decreases_to!(*c => c.subcommands));
        let sub = to_clap(&c.subcommands[j], float_parser);
        cmd = command_subcommand(cmd, sub);
        assert(c@.subcommands.subrange(0, j + 1) =~= c@.subcommands.subrange(0, j as int).push(c@.subcommands[j as int]));
        j = j + 1;
    }
    assert(c@.subcommands.subrange(0, j as int) =~= c@.subcommands);
    cmd
}

} // verus!
