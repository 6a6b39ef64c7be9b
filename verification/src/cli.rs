//! The command line: what can be asked for, and what is told of it.
use vstd::prelude::*;

use crate::models;
use crate::text;

verus! {

/// The port of the server where none is given.
pub const DEFAULT_PORT: u16 = 19820;

/// When output is coloured.
#[derive(Debug, Clone, Copy, PartialEq, Eq, Structural)]
pub enum ColorWhen {
    Auto,
    Always,
    Never,
}

/// What the program is asked to do.
#[derive(Debug, PartialEq)]
pub struct Cli {
    pub account: Option<String>,
    pub json: bool,
    pub ids: bool,
    pub compact: bool,
    pub jsonl: bool,
    pub command: Option<Commands>,
}

/// The commands.
#[derive(Debug, PartialEq)]
pub enum Commands {
    Daemon { port: u16 },
    Accounts,
    Login { host: String },
    Logout { target: String },
    Post {
        text: String,
        cw: Option<String>,
        visibility: String,
        reply_to: Option<String>,
        local_only: bool,
    },
    Tl { timeline: String, limit: i64 },
    Search { query: String, limit: i64 },
    Notifications { limit: i64 },
    Mentions { limit: i64 },
    Note { id: String },
    Replies { id: String, limit: i64 },
    Thread { id: String, limit: i64 },
    Delete { id: String },
    Update { id: String, text: String, cw: Option<String> },
    React { note_id: String, reaction: String },
    Unreact { note_id: String },
    Renote { note_id: String },
    User { target: String },
    UserNotes { user_id: String, limit: i64 },
    Follow { user_id: String },
    Unfollow { user_id: String },
    Favorite { note_id: String },
    Unfavorite { note_id: String },
    Favorites { limit: i64 },
    Emojis,
}

impl Cli {
    /// The port to serve on, where the program is to serve.
    pub open spec fn serves_on(self) -> Option<u16> {
        match self.command {
            None => Some(DEFAULT_PORT),
            Some(Commands::Daemon { port }) => Some(port),
            Some(_) => None,
        }
    }

    /// The port to serve on, where the program is to serve: it does so where no
    /// command is given, too.
    pub fn daemon_port(&self) -> (r: Option<u16>)
        ensures
            r == self.serves_on(),
    {
        match &self.command {
            None => Some(DEFAULT_PORT),
            Some(Commands::Daemon { port }) => Some(*port),
            Some(_) => None,
        }
    }
}

/// An argument of a command.
#[derive(Debug, PartialEq)]
pub struct CliArgInfo {
    pub name: String,
    pub help: Option<String>,
    pub required: bool,
    pub default_value: Option<String>,
}

/// A command.
#[derive(Debug, PartialEq)]
pub struct CliCommandInfo {
    pub name: String,
    pub about: Option<String>,
    pub args: Vec<CliArgInfo>,
}

/// An argument as the parser of the command line describes it. A default value
/// that is not text is `None`.
#[derive(Debug)]
pub struct ParserArg {
    pub name: String,
    pub help: Option<String>,
    pub required: bool,
    pub default_values: Vec<Option<String>>,
}

/// A command as the parser of the command line describes it.
#[derive(Debug)]
pub struct ParserCommand {
    pub name: String,
    pub about: Option<String>,
    pub args: Vec<ParserArg>,
}

/// The mathematical value of a [`CliArgInfo`].
pub struct ArgV {
    pub name: Seq<char>,
    pub help: Option<Seq<char>>,
    pub required: bool,
    pub default_value: Option<Seq<char>>,
}

impl CliArgInfo {
    pub open spec fn view(&self) -> ArgV {
        ArgV {
            name: self.name@,
            help: text::opt_text(self.help),
            required: self.required,
            default_value: text::opt_text(self.default_value),
        }
    }
}

/// The arguments of a list.
pub open spec fn args_view(v: Seq<CliArgInfo>) -> Seq<ArgV> {
    Seq::new(v.len(), |i: int| v[i]@)
}

/// The first default value, where it is text.
pub open spec fn first_default(v: Seq<Option<String>>) -> Option<Seq<char>> {
    if v.len() > 0 {
        text::opt_text(v[0])
    } else {
        None
    }
}

/// Whether the parser adds an argument to every command by itself.
pub open spec fn is_built_in(name: Seq<char>) -> bool {
    name == "help"@ || name == "version"@
}

/// What is told of the arguments of a command: all but those that the parser
/// adds by itself.
pub open spec fn told_args(args: Seq<ParserArg>) -> Seq<ArgV>
    decreases args.len(),
{
    if args.len() == 0 {
        Seq::empty()
    } else {
        let rest = told_args(args.drop_last());
        let a = args.last();
        if is_built_in(a.name@) {
            rest
        } else {
            rest.push(
                ArgV {
                    name: a.name@,
                    help: text::opt_text(a.help),
                    required: a.required,
                    default_value: first_default(a.default_values@),
                },
            )
        }
    }
}

fn tell_args(args: &Vec<ParserArg>) -> (r: Vec<CliArgInfo>)
    ensures
        args_view(r@) == told_args(args@),
{
    let mut out: Vec<CliArgInfo> = Vec::new();
    proof {
        assert(args_view(out@) =~= told_args(args@.take(0)));
    }
    let mut i: usize = 0;
    while i < args.len()
        invariant
            0 <= i <= args@.len(),
            args_view(out@) == told_args(args@.take(i as int)),
        decreases args@.len() - i,
    {
        let ghost before = out@;
        proof {
            assert(args@.take(i + 1).drop_last() =~= args@.take(i as int));
            assert(args@.take(i + 1).last() == args@[i as int]);
        }
        let a = &args[i];
        if !text::same(a.name.as_str(), "help") && !text::same(a.name.as_str(), "version") {
            let default_value = if a.default_values.len() > 0 {
                models::copy_opt(&a.default_values[0])
            } else {
                None
            };
            let info = CliArgInfo {
                name: a.name.clone(),
                help: models::copy_opt(&a.help),
                required: a.required,
                default_value,
            };
            out.push(info);
            proof {
                assert(args_view(out@) =~= args_view(before).push(info@));
            }
        }
        i += 1;
    }
    proof {
        assert(args@.take(i as int) =~= args@);
    }
    out
}

/// What is told of the commands, given what the parser of the command line
/// describes: each of them, with its arguments but for those that the parser
/// adds by itself.
pub fn command_metadata(commands: &Vec<ParserCommand>) -> (r: Vec<CliCommandInfo>)
    ensures
        r@.len() == commands@.len(),
        forall|i: int|
            0 <= i < r@.len() ==> {
                &&& (#[trigger] r@[i]).name@ == commands@[i].name@
                &&& text::opt_text(r@[i].about) == text::opt_text(commands@[i].about)
                &&& args_view(r@[i].args@) == told_args(commands@[i].args@)
            },
{
    let mut out: Vec<CliCommandInfo> = Vec::new();
    let mut i: usize = 0;
    while i < commands.len()
        invariant
            0 <= i <= commands@.len(),
            out@.len() == i,
            forall|k: int|
                0 <= k < i ==> {
                    &&& (#[trigger] out@[k]).name@ == commands@[k].name@
                    &&& text::opt_text(out@[k].about) == text::opt_text(commands@[k].about)
                    &&& args_view(out@[k].args@) == told_args(commands@[k].args@)
                },
        decreases commands@.len() - i,
    {
        let c = &commands[i];
        out.push(
            CliCommandInfo {
                name: c.name.clone(),
                about: models::copy_opt(&c.about),
                args: tell_args(&c.args),
            },
        );
        i += 1;
    }
    out
}

/// The program serves where it is told to, on the port that it is told, and where
/// it is told nothing, on its own port; with any other command it does not serve.
pub proof fn law_serves_where_nothing_else_is_asked(cli: Cli)
    ensures
        cli.command is None ==> cli.serves_on() == Some(19820u16),
        cli.command matches Some(Commands::Daemon { port }) ==> cli.serves_on() == Some(port),
        cli.command matches Some(c) ==> (cli.serves_on() is Some <==> c is Daemon),
{
}

/// Every argument of a command is told, in order and as the parser describes it,
/// but for those that the parser adds by itself, help and version.
pub proof fn law_arguments_are_told(args: Seq<ParserArg>, a: ParserArg)
    ensures
        told_args(Seq::<ParserArg>::empty()).len() == 0,
        a.name@ == "help"@ || a.name@ == "version"@ ==> told_args(args.push(a)) == told_args(args),
        a.name@ != "help"@ && a.name@ != "version"@ ==> {
            let all = told_args(args.push(a));
            &&& all.len() == told_args(args).len() + 1
            &&& all.drop_last() == told_args(args)
            &&& all.last().name == a.name@
            &&& all.last().help == text::opt_text(a.help)
            &&& all.last().required == a.required
            &&& a.default_values@.len() == 0 ==> all.last().default_value is None
            &&& a.default_values@.len() > 0 ==> all.last().default_value == text::opt_text(
                a.default_values@[0],
            )
        },
{
    assert(args.push(a).drop_last() =~= args);
    if !is_built_in(a.name@) {
        assert(told_args(args.push(a)).drop_last() =~= told_args(args));
    }
}

} // verus!
