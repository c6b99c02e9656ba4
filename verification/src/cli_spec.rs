//! A description of the tool's command line: commands, their arguments and
//! their subcommands, as plain data. The command builders produce it; the
//! program hands it to the argument parser.

use vstd::prelude::*;

verus! {

/// How an argument's value is parsed.
#[derive(Clone, Copy, Debug, PartialEq, Eq, Structural)]
pub enum ValueKind {
    /// Any text.
    Text,
    /// An unsigned 16-bit integer.
    U16,
    /// An unsigned 32-bit integer.
    U32,
    /// A signed 64-bit integer.
    I64,
    /// A floating-point number.
    Float,
    /// An unsigned 8-bit integer between the two bounds, inclusive.
    U8Range(u8, u8),
}

/// One argument of a command.
#[derive(Clone, Debug)]
pub struct ArgSpec {
    pub id: &'static str,
    pub long: Option<&'static str>,
    pub short: Option<char>,
    pub value_name: Option<&'static str>,
    pub help: Option<&'static str>,
    pub required: bool,
    /// A switch without a value (`ArgAction::SetTrue`).
    pub flag: bool,
    /// The only values accepted, when not empty.
    pub choices: Vec<&'static str>,
    pub kind: ValueKind,
    pub default_value: Option<&'static str>,
    /// Whether subcommands inherit the argument.
    pub global: bool,
}

/// The content of an argument description.
pub struct ArgView {
    pub id: &'static str,
    pub long: Option<&'static str>,
    pub short: Option<char>,
    pub value_name: Option<&'static str>,
    pub help: Option<&'static str>,
    pub required: bool,
    pub flag: bool,
    pub choices: Seq<&'static str>,
    pub kind: ValueKind,
    pub default_value: Option<&'static str>,
    pub global: bool,
}

impl View for ArgSpec {
    type V = ArgView;

    open spec fn view(&self) -> ArgView {
        ArgView {
            id: self.id,
            long: self.long,
            short: self.short,
            value_name: self.value_name,
            help: self.help,
            required: self.required,
            flag: self.flag,
            choices: self.choices@,
            kind: self.kind,
            default_value: self.default_value,
            global: self.global,
        }
    }
}

impl ArgView {
    /// An argument with the given id and nothing else set.
    pub open spec fn new(id: &'static str) -> ArgView {
        ArgView {
            id,
            long: None,
            short: None,
            value_name: None,
            help: None,
            required: false,
            flag: false,
            choices: seq![],
            kind: ValueKind::Text,
            default_value: None,
            global: false,
        }
    }

    pub open spec fn long(self, long: &'static str) -> ArgView {
        ArgView { long: Some(long), ..self }
    }

    pub open spec fn short(self, short: char) -> ArgView {
        ArgView { short: Some(short), ..self }
    }

    pub open spec fn value_name(self, name: &'static str) -> ArgView {
        ArgView { value_name: Some(name), ..self }
    }

    pub open spec fn help(self, help: &'static str) -> ArgView {
        ArgView { help: Some(help), ..self }
    }

    pub open spec fn required(self, required: bool) -> ArgView {
        ArgView { required, ..self }
    }

    pub open spec fn flag(self) -> ArgView {
        ArgView { flag: true, ..self }
    }

    pub open spec fn choices(self, choices: Seq<&'static str>) -> ArgView {
        ArgView { choices, ..self }
    }

    pub open spec fn value_kind(self, kind: ValueKind) -> ArgView {
        ArgView { kind, ..self }
    }

    pub open spec fn default_value(self, value: &'static str) -> ArgView {
        ArgView { default_value: Some(value), ..self }
    }

    pub open spec fn global(self, global: bool) -> ArgView {
        ArgView { global, ..self }
    }
}

impl ArgSpec {
    /// An argument with the given id and nothing else set.
    pub fn new(id: &'static str) -> (r: ArgSpec)
        ensures
            r@ == ArgView::new(id),
    {
        ArgSpec {
            id,
            long: None,
            short: None,
            value_name: None,
            help: None,
            required: false,
            flag: false,
            choices: Vec::new(),
            kind: ValueKind::Text,
            default_value: None,
            global: false,
        }
    }

    /// Sets the long name (`--long`).
    pub fn long(self, long: &'static str) -> (r: ArgSpec)
        ensures
            r@ == self@.long(long),
    {
        ArgSpec { long: Some(long), ..self }
    }

    /// Sets the short name (`-s`).
    pub fn short(self, short: char) -> (r: ArgSpec)
        ensures
            r@ == self@.short(short),
    {
        ArgSpec { short: Some(short), ..self }
    }

    /// Sets the name shown for the value.
    pub fn value_name(self, name: &'static str) -> (r: ArgSpec)
        ensures
            r@ == self@.value_name(name),
    {
        ArgSpec { value_name: Some(name), ..self }
    }

    /// Sets the help text.
    pub fn help(self, help: &'static str) -> (r: ArgSpec)
        ensures
            r@ == self@.help(help),
    {
        ArgSpec { help: Some(help), ..self }
    }

    /// Sets whether the argument must be given.
    pub fn required(self, required: bool) -> (r: ArgSpec)
        ensures
            r@ == self@.required(required),
    {
        ArgSpec { required, ..self }
    }

    /// Makes the argument a switch without a value.
    pub fn flag(self) -> (r: ArgSpec)
        ensures
            r@ == self@.flag(),
    {
        ArgSpec { flag: true, ..self }
    }

    /// Restricts the value to the given choices.
    pub fn choices(self, choices: Vec<&'static str>) -> (r: ArgSpec)
        ensures
            r@ == self@.choices(choices@),
    {
        ArgSpec { choices, ..self }
    }

    /// Sets how the value is parsed.
    pub fn value_kind(self, kind: ValueKind) -> (r: ArgSpec)
        ensures
            r@ == self@.value_kind(kind),
    {
        ArgSpec { kind, ..self }
    }

    /// Sets the value used when the argument is absent.
    pub fn default_value(self, value: &'static str) -> (r: ArgSpec)
        ensures
            r@ == self@.default_value(value),
    {
        ArgSpec { default_value: Some(value), ..self }
    }

    /// Sets whether subcommands inherit the argument.
    pub fn global(self, global: bool) -> (r: ArgSpec)
        ensures
            r@ == self@.global(global),
    {
        ArgSpec { global, ..self }
    }
}

/// A command with its arguments and subcommands.
#[derive(Debug)]
pub struct CommandSpec {
    pub name: &'static str,
    /// Another name the command answers to, shown in help.
    pub visible_alias: Option<&'static str>,
    pub about: Option<&'static str>,
    pub long_about: Option<&'static str>,
    pub arg_required_else_help: bool,
    pub subcommand_required: bool,
    pub args: Vec<ArgSpec>,
    pub subcommands: Vec<CommandSpec>,
}

/// The content of a command description.
pub struct CommandView {
    pub name: &'static str,
    pub visible_alias: Option<&'static str>,
    pub about: Option<&'static str>,
    pub long_about: Option<&'static str>,
    pub arg_required_else_help: bool,
    pub subcommand_required: bool,
    pub args: Seq<ArgView>,
    pub subcommands: Seq<CommandView>,
}

/// The contents of a sequence of argument descriptions.
pub open spec fn arg_views(s: Seq<ArgSpec>) -> Seq<ArgView> {
    s.map_values(|a: ArgSpec| a@)
}

/// The content of a command description.
pub open spec fn command_view(c: CommandSpec) -> CommandView
    decreases c, 1int,
{
    CommandView {
        name: c.name,
        visible_alias: c.visible_alias,
        about: c.about,
        long_about: c.long_about,
        arg_required_else_help: c.arg_required_else_help,
        subcommand_required: c.subcommand_required,
        args: arg_views(c.args@),
        subcommands: command_views(c.subcommands@),
    }
}

/// The contents of a sequence of command descriptions.
pub open spec fn command_views(s: Seq<CommandSpec>) -> Seq<CommandView>
    decreases s, 0int,
{
    if s.len() == 0 {
        seq![]
    } else {
        seq![command_view(s[0])] + command_views(s.drop_first())
    }
}


impl View for CommandSpec {
    type V = CommandView;

    open spec fn view(&self) -> CommandView {
        command_view(*self)
    }
}

/// Appending a command appends its content.
pub proof fn lemma_command_views_push(s: Seq<CommandSpec>, c: CommandSpec)
    ensures
        command_views(s.push(c)) == command_views(s).push(command_view(c)),
    decreases s.len(),
{
    if s.len() == 0 {
        assert(s.push(c).drop_first() =~= seq![]);
        assert(command_views(seq![]) == Seq::<CommandView>::empty());
        assert(command_views(s.push(c)) =~= seq![command_view(c)]);
    } else {
        lemma_command_views_push(s.drop_first(), c);
        assert(s.push(c).drop_first() =~= s.drop_first().push(c));
        assert(command_views(s.push(c)) =~= command_views(s).push(command_view(c)));
    }
}

/// Appends a command to a list of commands.
pub fn push_command(v: &mut Vec<CommandSpec>, c: CommandSpec)
    ensures
        command_views(final(v)@) == command_views(old(v)@).push(c@),
{
    proof {
        lemma_command_views_push(v@, c);
    }
    v.push(c);
}

impl CommandView {
    /// A command with the given name and nothing else set.
    pub open spec fn new(name: &'static str) -> CommandView {
        CommandView {
            name,
            visible_alias: None,
            about: None,
            long_about: None,
            arg_required_else_help: false,
            subcommand_required: false,
            args: seq![],
            subcommands: seq![],
        }
    }

    pub open spec fn visible_alias(self, alias: &'static str) -> CommandView {
        CommandView { visible_alias: Some(alias), ..self }
    }

    pub open spec fn about(self, about: &'static str) -> CommandView {
        CommandView { about: Some(about), ..self }
    }

    pub open spec fn long_about(self, about: &'static str) -> CommandView {
        CommandView { long_about: Some(about), ..self }
    }

    pub open spec fn arg_required_else_help(self, yes: bool) -> CommandView {
        CommandView { arg_required_else_help: yes, ..self }
    }

    pub open spec fn subcommand_required(self, yes: bool) -> CommandView {
        CommandView { subcommand_required: yes, ..self }
    }

    pub open spec fn arg(self, a: ArgView) -> CommandView {
        CommandView { args: self.args.push(a), ..self }
    }

    pub open spec fn subcommand(self, c: CommandView) -> CommandView {
        CommandView { subcommands: self.subcommands.push(c), ..self }
    }

    pub open spec fn subcommands(self, cs: Seq<CommandView>) -> CommandView {
        CommandView { subcommands: self.subcommands + cs, ..self }
    }

    /// The names of the subcommands, in order.
    pub open spec fn subcommand_names(self) -> Seq<&'static str> {
        self.subcommands.map_values(|c: CommandView| c.name)
    }
}

impl CommandSpec {
    /// A command with the given name and nothing else set.
    pub fn new(name: &'static str) -> (r: CommandSpec)
        ensures
            r@ == CommandView::new(name),
    {
        let r = CommandSpec {
            name,
            visible_alias: None,
            about: None,
            long_about: None,
            arg_required_else_help: false,
            subcommand_required: false,
            args: Vec::new(),
            subcommands: Vec::new(),
        };
        assert(r@.args =~= seq![]);
        assert(r@.subcommands =~= seq![]);
        r
    }

    /// Adds a visible alias.
    pub fn visible_alias(self, alias: &'static str) -> (r: CommandSpec)
        ensures
            r@ == self@.visible_alias(alias),
    {
        CommandSpec { visible_alias: Some(alias), ..self }
    }

    /// Sets the short description.
    pub fn about(self, about: &'static str) -> (r: CommandSpec)
        ensures
            r@ == self@.about(about),
    {
        CommandSpec { about: Some(about), ..self }
    }

    /// Sets the long description.
    pub fn long_about(self, about: &'static str) -> (r: CommandSpec)
        ensures
            r@ == self@.long_about(about),
    {
        CommandSpec { long_about: Some(about), ..self }
    }

    /// Sets whether help is shown when no argument is given.
    pub fn arg_required_else_help(self, yes: bool) -> (r: CommandSpec)
        ensures
            r@ == self@.arg_required_else_help(yes),
    {
        CommandSpec { arg_required_else_help: yes, ..self }
    }

    /// Sets whether a subcommand must be given.
    pub fn subcommand_required(self, yes: bool) -> (r: CommandSpec)
        ensures
            r@ == self@.subcommand_required(yes),
    {
        CommandSpec { subcommand_required: yes, ..self }
    }

    /// Adds an argument.
    pub fn arg(self, a: ArgSpec) -> (r: CommandSpec)
        ensures
            r@ == self@.arg(a@),
    {
        let mut r = self;
        r.args.push(a);
        assert(arg_views(r.args@) =~= arg_views(self.args@).push(a@));
        r
    }

    /// Adds a subcommand.
    pub fn subcommand(self, c: CommandSpec) -> (r: CommandSpec)
        ensures
            r@ == self@.subcommand(c@),
    {
        let mut r = self;
        push_command(&mut r.subcommands, c);
        r
    }

    /// Adds subcommands, in order.
    pub fn subcommands(self, cs: Vec<CommandSpec>) -> (r: CommandSpec)
        ensures
            r@ == self@.subcommands(command_views(cs@)),
    {
        let mut r = self;
        let mut rest = cs;
        let n = rest.len();
        let mut k: usize = 0;
        while rest.len() > 0
            invariant
                k <= n,
                n == cs@.len(),
                rest@ == cs@.subrange(k as int, n as int),
                command_views(r.subcommands@) == command_views(self.subcommands@) + command_views(
                    cs@.subrange(0, k as int),
                ),
                r.name == self.name,
                r.visible_alias == self.visible_alias,
                r.about == self.about,
                r.long_about == self.long_about,
                r.arg_required_else_help == self.arg_required_else_help,
                r.subcommand_required == self.subcommand_required,
                r.args == self.args,
            decreases rest.len(),
        {
            let c = rest.remove(0);
            assert(c == cs@[k as int]);
            proof {
                lemma_command_views_push(cs@.subrange(0, k as int), c);
                assert(cs@.subrange(0, k as int).push(c) =~= cs@.subrange(0, k + 1));
            }
            push_command(&mut r.subcommands, c);
            k = k + 1;
            assert(rest@ =~= cs@.subrange(k as int, n as int));
        }
        assert(cs@.subrange(0, k as int) =~= cs@);
        assert(command_views(r.subcommands@) == command_views(self.subcommands@) + command_views(cs@));
        r
    }
}

} // verus!
