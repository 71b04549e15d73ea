//! The command-line grammar: the commands the tool understands and a
//! parser from an argument vector to them, specified by the recursive
//! functions `parse_spec` and its helpers. The first argument is the
//! program name; a name may be given positionally or through `--name`,
//! and the flag wins when both are present.
use vstd::prelude::*;

use crate::strutil::str_eq;

verus! {

/// Why an argument vector was rejected.
#[derive(Clone, Copy, Debug, PartialEq, Eq, Structural)]
pub enum ParseError {
    /// No command (or no subcommand) was given.
    MissingCommand,
    /// The command word is not one the grammar knows.
    UnknownCommand,
    /// A flag is not one the command accepts.
    UnknownFlag,
    /// A flag that takes a value stood last, or a flag that takes values
    /// was followed by none.
    MissingValue,
    /// A positional argument stood where none is accepted.
    UnexpectedArgument,
    /// A value is outside the accepted set.
    InvalidValue,
}

/// The parsed command line.
#[derive(Debug)]
pub struct Cli {
    pub commands: Option<Commands>,
}

/// The top-level commands.
#[derive(Debug)]
pub enum Commands {
    Activate { name: Option<String>, name_pos: Option<String> },
    Check,
    Create {
        name: Option<String>,
        python_version: String,
        packages: Vec<String>,
        requirements: String,
        name_pos: Option<String>,
        default: bool,
    },
    Delete { name: Option<String>, name_pos: Option<String> },
    List,
    Install { update: bool },
    Uninstall,
    Uv { command: UvCommands },
    Venv { command: VenvCommands },
    Complete { shell: Option<String> },
}

/// The subcommands that manage the external tool itself.
#[derive(Clone, Copy, Debug, PartialEq, Eq, Structural)]
pub enum UvCommands {
    Install,
    Update,
    Uninstall,
    Check,
}

/// The subcommands that manage environments under the `venv` group.
#[derive(Debug)]
pub enum VenvCommands {
    Create {
        name: Option<String>,
        python_version: String,
        packages: Vec<String>,
        requirements: String,
        name_pos: Option<String>,
        default: bool,
    },
    Delete { name: Option<String>, name_pos: Option<String> },
    List,
    Activate { name: Option<String>, name_pos: Option<String> },
}

/// The abstract value of a parsed `create`: what each flag accumulated.
pub struct CreateAcc {
    pub name: Option<Seq<char>>,
    pub python_version: Seq<char>,
    pub packages: Seq<Seq<char>>,
    pub requirements: Seq<char>,
    pub name_pos: Option<Seq<char>>,
    pub default: bool,
}

/// The abstract value of a parsed command.
pub enum CmdSpec {
    Activate { name: Option<Seq<char>>, name_pos: Option<Seq<char>> },
    Check,
    Create { acc: CreateAcc },
    Delete { name: Option<Seq<char>>, name_pos: Option<Seq<char>> },
    List,
    Install { update: bool },
    Uninstall,
    Uv { command: UvCommands },
    Venv { command: VenvSpec },
    Complete { shell: Option<Seq<char>> },
}

/// The abstract value of a parsed `venv` subcommand.
pub enum VenvSpec {
    Create { acc: CreateAcc },
    Delete { name: Option<Seq<char>>, name_pos: Option<Seq<char>> },
    List,
    Activate { name: Option<Seq<char>>, name_pos: Option<Seq<char>> },
}

/// The abstract value of an exec `Commands` value.
pub open spec fn abs_commands(c: Commands) -> CmdSpec {
    match c {
        Commands::Activate { name, name_pos } => CmdSpec::Activate {
            name: name.deep_view(),
            name_pos: name_pos.deep_view(),
        },
        Commands::Check => CmdSpec::Check,
        Commands::Create { name, python_version, packages, requirements, name_pos, default } => CmdSpec::Create {
            acc: CreateAcc {
                name: name.deep_view(),
                python_version: python_version@,
                packages: packages.deep_view(),
                requirements: requirements@,
                name_pos: name_pos.deep_view(),
                default: default,
            },
        },
        Commands::Delete { name, name_pos } => CmdSpec::Delete {
            name: name.deep_view(),
            name_pos: name_pos.deep_view(),
        },
        Commands::List => CmdSpec::List,
        Commands::Install { update } => CmdSpec::Install { update },
        Commands::Uninstall => CmdSpec::Uninstall,
        Commands::Uv { command } => CmdSpec::Uv { command },
        Commands::Venv { command } => CmdSpec::Venv { command: abs_venv_commands(command) },
        Commands::Complete { shell } => CmdSpec::Complete { shell: shell.deep_view() },
    }
}

/// The abstract value of an exec `VenvCommands` value.
pub open spec fn abs_venv_commands(c: VenvCommands) -> VenvSpec {
    match c {
        VenvCommands::Create { name, python_version, packages, requirements, name_pos, default } => VenvSpec::Create {
            acc: CreateAcc {
                name: name.deep_view(),
                python_version: python_version@,
                packages: packages.deep_view(),
                requirements: requirements@,
                name_pos: name_pos.deep_view(),
                default: default,
            },
        },
        VenvCommands::Delete { name, name_pos } => VenvSpec::Delete {
            name: name.deep_view(),
            name_pos: name_pos.deep_view(),
        },
        VenvCommands::List => VenvSpec::List,
        VenvCommands::Activate { name, name_pos } => VenvSpec::Activate {
            name: name.deep_view(),
            name_pos: name_pos.deep_view(),
        },
    }
}

/// Whether a token is a flag: it starts with `-`.
pub open spec fn is_flag_tok(t: Seq<char>) -> bool {
    t.len() > 0 && t[0] == '-'
}

/// How many tokens at the front of `rest` are not flags.
pub open spec fn leading_nonflags(rest: Seq<Seq<char>>) -> nat
    decreases rest.len(),
{
    if rest.len() == 0 || is_flag_tok(rest[0]) {
        0
    } else {
        1 + leading_nonflags(rest.drop_first())
    }
}

pub proof fn lemma_leading_nonflags_le(rest: Seq<Seq<char>>)
    ensures
        leading_nonflags(rest) <= rest.len(),
    decreases rest.len(),
{
    if rest.len() > 0 && !is_flag_tok(rest[0]) {
        lemma_leading_nonflags_le(rest.drop_first());
    }
}

/// The `name` / positional grammar shared by activate and delete:
/// `--name`/`-n` takes the next token (the last one wins), one bare token
/// is the positional name, any other flag and any second bare token are
/// rejected.
pub open spec fn name_args_spec(
    rest: Seq<Seq<char>>,
    name: Option<Seq<char>>,
    pos: Option<Seq<char>>,
) -> Result<(Option<Seq<char>>, Option<Seq<char>>), ParseError>
    decreases rest.len(),
{
    if rest.len() == 0 {
        Ok((name, pos))
    } else {
        let t = rest[0];
        if t == "--name"@ || t == "-n"@ {
            if rest.len() >= 2 {
                name_args_spec(rest.subrange(2, rest.len() as int), Some(rest[1]), pos)
            } else {
                Err(ParseError::MissingValue)
            }
        } else if is_flag_tok(t) {
            Err(ParseError::UnknownFlag)
        } else if pos is None {
            name_args_spec(rest.drop_first(), name, Some(t))
        } else {
            Err(ParseError::UnexpectedArgument)
        }
    }
}

/// The `create` grammar: value flags for name, interpreter version and
/// requirements file, a greedy multi-value flag for packages, a boolean
/// flag for the default-package union, and one positional name.
pub open spec fn create_args_spec(rest: Seq<Seq<char>>, acc: CreateAcc) -> Result<
    CreateAcc,
    ParseError,
>
    decreases rest.len(),
    via create_args_spec_decreases
{
    if rest.len() == 0 {
        Ok(acc)
    } else {
        let t = rest[0];
        if t == "--name"@ || t == "-n"@ {
            if rest.len() >= 2 {
                create_args_spec(
                    rest.subrange(2, rest.len() as int),
                    CreateAcc { name: Some(rest[1]), ..acc },
                )
            } else {
                Err(ParseError::MissingValue)
            }
        } else if t == "--python-version"@ || t == "-v"@ || t == "--pv"@ {
            if rest.len() >= 2 {
                create_args_spec(
                    rest.subrange(2, rest.len() as int),
                    CreateAcc { python_version: rest[1], ..acc },
                )
            } else {
                Err(ParseError::MissingValue)
            }
        } else if t == "--packages"@ || t == "-p"@ || t == "--pkg"@ {
            let k = leading_nonflags(rest.drop_first());
            if k == 0 {
                Err(ParseError::MissingValue)
            } else {
                create_args_spec(
                    rest.subrange(1 + k as int, rest.len() as int),
                    CreateAcc { packages: rest.subrange(1, 1 + k as int), ..acc },
                )
            }
        } else if t == "--requirements"@ || t == "-r"@ {
            if rest.len() >= 2 {
                create_args_spec(
                    rest.subrange(2, rest.len() as int),
                    CreateAcc { requirements: rest[1], ..acc },
                )
            } else {
                Err(ParseError::MissingValue)
            }
        } else if t == "--default"@ || t == "-d"@ {
            create_args_spec(rest.drop_first(), CreateAcc { default: true, ..acc })
        } else if is_flag_tok(t) {
            Err(ParseError::UnknownFlag)
        } else if acc.name_pos is None {
            create_args_spec(rest.drop_first(), CreateAcc { name_pos: Some(t), ..acc })
        } else {
            Err(ParseError::UnexpectedArgument)
        }
    }
}

#[via_fn]
proof fn create_args_spec_decreases(rest: Seq<Seq<char>>, acc: CreateAcc) {
    if rest.len() > 0 {
        lemma_leading_nonflags_le(rest.drop_first());
    }
}

/// The starting accumulator of a `create`: version `3.10`, no packages,
/// empty requirements path, no name, defaults off.
pub open spec fn create_acc_init() -> CreateAcc {
    CreateAcc {
        name: None,
        python_version: "3.10"@,
        packages: Seq::empty(),
        requirements: ""@,
        name_pos: None,
        default: false,
    }
}

/// The `install` grammar: only the boolean `--update`/`-u` flag.
pub open spec fn install_args_spec(rest: Seq<Seq<char>>, update: bool) -> Result<bool, ParseError>
    decreases rest.len(),
{
    if rest.len() == 0 {
        Ok(update)
    } else {
        let t = rest[0];
        if t == "--update"@ || t == "-u"@ {
            install_args_spec(rest.drop_first(), true)
        } else if is_flag_tok(t) {
            Err(ParseError::UnknownFlag)
        } else {
            Err(ParseError::UnexpectedArgument)
        }
    }
}

/// A subcommand that takes nothing: any further token is rejected.
pub open spec fn no_args_ok(rest: Seq<Seq<char>>) -> bool {
    rest.len() == 0
}

/// The `uv` group grammar.
pub open spec fn uv_spec(rest: Seq<Seq<char>>) -> Result<UvCommands, ParseError> {
    if rest.len() == 0 {
        Err(ParseError::MissingCommand)
    } else {
        let t = rest[0];
        let tail = rest.drop_first();
        if t == "install"@ || t == "i"@ {
            if no_args_ok(tail) {
                Ok(UvCommands::Install)
            } else {
                Err(ParseError::UnexpectedArgument)
            }
        } else if t == "update"@ || t == "up"@ {
            if no_args_ok(tail) {
                Ok(UvCommands::Update)
            } else {
                Err(ParseError::UnexpectedArgument)
            }
        } else if t == "uninstall"@ || t == "u"@ {
            if no_args_ok(tail) {
                Ok(UvCommands::Uninstall)
            } else {
                Err(ParseError::UnexpectedArgument)
            }
        } else if t == "check"@ || t == "c"@ {
            if no_args_ok(tail) {
                Ok(UvCommands::Check)
            } else {
                Err(ParseError::UnexpectedArgument)
            }
        } else {
            Err(ParseError::UnknownCommand)
        }
    }
}

/// The `venv` group grammar.
pub open spec fn venv_spec(rest: Seq<Seq<char>>) -> Result<VenvSpec, ParseError> {
    if rest.len() == 0 {
        Err(ParseError::MissingCommand)
    } else {
        let t = rest[0];
        let tail = rest.drop_first();
        if t == "create"@ || t == "c"@ {
            match create_args_spec(tail, create_acc_init()) {
                Ok(acc) => Ok(VenvSpec::Create { acc }),
                Err(e) => Err(e),
            }
        } else if t == "delete"@ || t == "d"@ || t == "del"@ {
            match name_args_spec(tail, None, None) {
                Ok((n, p)) => Ok(VenvSpec::Delete { name: n, name_pos: p }),
                Err(e) => Err(e),
            }
        } else if t == "list"@ || t == "l"@ || t == "ls"@ {
            if no_args_ok(tail) {
                Ok(VenvSpec::List)
            } else {
                Err(ParseError::UnexpectedArgument)
            }
        } else if t == "activate"@ || t == "a"@ {
            match name_args_spec(tail, None, None) {
                Ok((n, p)) => Ok(VenvSpec::Activate { name: n, name_pos: p }),
                Err(e) => Err(e),
            }
        } else {
            Err(ParseError::UnknownCommand)
        }
    }
}

/// Whether a token names a shell the completion command supports.
pub open spec fn is_shell_name(t: Seq<char>) -> bool {
    t == "bash"@ || t == "zsh"@ || t == "fish"@ || t == "powershell"@ || t == "elvish"@
}

/// The `complete` grammar: at most one shell name, `bash` when none is
/// given.
pub open spec fn complete_spec(rest: Seq<Seq<char>>) -> Result<Option<Seq<char>>, ParseError> {
    if rest.len() == 0 {
        Ok(Some("bash"@))
    } else if rest.len() == 1 {
        if is_shell_name(rest[0]) {
            Ok(Some(rest[0]))
        } else {
            Err(ParseError::InvalidValue)
        }
    } else {
        Err(ParseError::UnexpectedArgument)
    }
}

/// The whole grammar: the first argument is the program name, the second
/// the command word, and the rest belongs to that command.
pub open spec fn parse_spec(args: Seq<Seq<char>>) -> Result<CmdSpec, ParseError> {
    if args.len() <= 1 {
        Err(ParseError::MissingCommand)
    } else {
        let cmd = args[1];
        let rest = args.subrange(2, args.len() as int);
        if cmd == "activate"@ {
            match name_args_spec(rest, None, None) {
                Ok((n, p)) => Ok(CmdSpec::Activate { name: n, name_pos: p }),
                Err(e) => Err(e),
            }
        } else if cmd == "check"@ {
            if no_args_ok(rest) {
                Ok(CmdSpec::Check)
            } else {
                Err(ParseError::UnexpectedArgument)
            }
        } else if cmd == "create"@ {
            match create_args_spec(rest, create_acc_init()) {
                Ok(acc) => Ok(CmdSpec::Create { acc }),
                Err(e) => Err(e),
            }
        } else if cmd == "delete"@ {
            match name_args_spec(rest, None, None) {
                Ok((n, p)) => Ok(CmdSpec::Delete { name: n, name_pos: p }),
                Err(e) => Err(e),
            }
        } else if cmd == "list"@ {
            if no_args_ok(rest) {
                Ok(CmdSpec::List)
            } else {
                Err(ParseError::UnexpectedArgument)
            }
        } else if cmd == "install"@ {
            match install_args_spec(rest, false) {
                Ok(u) => Ok(CmdSpec::Install { update: u }),
                Err(e) => Err(e),
            }
        } else if cmd == "uninstall"@ {
            if no_args_ok(rest) {
                Ok(CmdSpec::Uninstall)
            } else {
                Err(ParseError::UnexpectedArgument)
            }
        } else if cmd == "uv"@ || cmd == "u"@ {
            match uv_spec(rest) {
                Ok(c) => Ok(CmdSpec::Uv { command: c }),
                Err(e) => Err(e),
            }
        } else if cmd == "venv"@ || cmd == "v"@ {
            match venv_spec(rest) {
                Ok(c) => Ok(CmdSpec::Venv { command: c }),
                Err(e) => Err(e),
            }
        } else if cmd == "complete"@ || cmd == "c"@ {
            match complete_spec(rest) {
                Ok(s) => Ok(CmdSpec::Complete { shell: s }),
                Err(e) => Err(e),
            }
        } else {
            Err(ParseError::UnknownCommand)
        }
    }
}

fn is_flag(t: &String) -> (r: bool)
    ensures
        r == is_flag_tok(t@),
{
    t.as_str().unicode_len() > 0 && t.as_str().get_char(0) == '-'
}

fn count_nonflags(args: &Vec<String>, start: usize) -> (k: usize)
    requires
        start <= args.len(),
    ensures
        k == leading_nonflags(args.deep_view().subrange(start as int, args.deep_view().len() as int)),
        k <= args.len() - start,
    decreases args.len() - start,
{
    let ghost rest = args.deep_view().subrange(start as int, args.deep_view().len() as int);
    if start == args.len() {
        return 0;
    }
    proof {
        assert(rest[0] == args.deep_view()[start as int]);
        assert(rest.drop_first() =~= args.deep_view().subrange(
            start as int + 1,
            args.deep_view().len() as int,
        ));
    }
    if is_flag(&args[start]) {
        0
    } else {
        1 + count_nonflags(args, start + 1)
    }
}

fn slice_strings(args: &Vec<String>, from: usize, to: usize) -> (r: Vec<String>)
    requires
        from <= to <= args.len(),
    ensures
        r.deep_view() == args.deep_view().subrange(from as int, to as int),
{
    let mut out: Vec<String> = Vec::new();
    let mut i: usize = from;
    proof {
        assert(out.deep_view() =~= args.deep_view().subrange(from as int, from as int));
    }
    while i < to
        invariant
            from <= i <= to <= args.len(),
            out.deep_view() == args.deep_view().subrange(from as int, i as int),
        decreases to - i,
    {
        let ghost pre = out.deep_view();
        out.push(args[i].clone());
        proof {
            assert(out.deep_view() =~= pre.push(args.deep_view()[i as int]));
            assert(out.deep_view() =~= args.deep_view().subrange(from as int, i as int + 1));
        }
        i = i + 1;
    }
    out
}

fn parse_name_args(
    args: &Vec<String>,
    start: usize,
    name: Option<String>,
    pos: Option<String>,
) -> (r: Result<(Option<String>, Option<String>), ParseError>)
    requires
        start <= args.len(),
    ensures
        ({
            let s = name_args_spec(
                args.deep_view().subrange(start as int, args.deep_view().len() as int),
                name.deep_view(),
                pos.deep_view(),
            );
            match r {
                Ok((n, p)) => s == Ok::<_, ParseError>((n.deep_view(), p.deep_view())),
                Err(e) => s == Err::<(Option<Seq<char>>, Option<Seq<char>>), _>(e),
            }
        }),
    decreases args.len() - start,
{
    let ghost rest = args.deep_view().subrange(start as int, args.deep_view().len() as int);
    if start == args.len() {
        return Ok((name, pos));
    }
    proof {
        assert(rest[0] == args.deep_view()[start as int]);
        assert(rest.drop_first() =~= args.deep_view().subrange(
            start as int + 1,
            args.deep_view().len() as int,
        ));
        if args.len() - start >= 2 {
            assert(rest.subrange(2, rest.len() as int) =~= args.deep_view().subrange(
                start as int + 2,
                args.deep_view().len() as int,
            ));
            assert(rest[1] == args.deep_view()[start as int + 1]);
        }
    }
    let t = &args[start];
    if str_eq(t.as_str(), "--name") || str_eq(t.as_str(), "-n") {
        if args.len() - start >= 2 {
            parse_name_args(args, start + 2, Some(args[start + 1].clone()), pos)
        } else {
            Err(ParseError::MissingValue)
        }
    } else if is_flag(t) {
        Err(ParseError::UnknownFlag)
    } else if pos.is_none() {
        parse_name_args(args, start + 1, name, Some(t.clone()))
    } else {
        Err(ParseError::UnexpectedArgument)
    }
}

struct CreateArgs {
    name: Option<String>,
    python_version: String,
    packages: Vec<String>,
    requirements: String,
    name_pos: Option<String>,
    default: bool,
}

spec fn abs_create(a: CreateArgs) -> CreateAcc {
    CreateAcc {
        name: a.name.deep_view(),
        python_version: a.python_version@,
        packages: a.packages.deep_view(),
        requirements: a.requirements@,
        name_pos: a.name_pos.deep_view(),
        default: a.default,
    }
}

fn parse_create_args(args: &Vec<String>, start: usize, acc: CreateArgs) -> (r: Result<
    CreateArgs,
    ParseError,
>)
    requires
        start <= args.len(),
    ensures
        ({
            let s = create_args_spec(
                args.deep_view().subrange(start as int, args.deep_view().len() as int),
                abs_create(acc),
            );
            match r {
                Ok(a) => s == Ok::<_, ParseError>(abs_create(a)),
                Err(e) => s == Err::<CreateAcc, _>(e),
            }
        }),
    decreases args.len() - start,
{
    let ghost rest = args.deep_view().subrange(start as int, args.deep_view().len() as int);
    if start == args.len() {
        return Ok(acc);
    }
    proof {
        assert(rest[0] == args.deep_view()[start as int]);
        assert(rest.drop_first() =~= args.deep_view().subrange(
            start as int + 1,
            args.deep_view().len() as int,
        ));
        if args.len() - start >= 2 {
            assert(rest.subrange(2, rest.len() as int) =~= args.deep_view().subrange(
                start as int + 2,
                args.deep_view().len() as int,
            ));
            assert(rest[1] == args.deep_view()[start as int + 1]);
        }
    }
    let t = &args[start];
    if str_eq(t.as_str(), "--name") || str_eq(t.as_str(), "-n") {
        if args.len() - start >= 2 {
            let next = CreateArgs { name: Some(args[start + 1].clone()), ..acc };
            parse_create_args(args, start + 2, next)
        } else {
            Err(ParseError::MissingValue)
        }
    } else if str_eq(t.as_str(), "--python-version") || str_eq(t.as_str(), "-v") || str_eq(
        t.as_str(),
        "--pv",
    ) {
        if args.len() - start >= 2 {
            let next = CreateArgs { python_version: args[start + 1].clone(), ..acc };
            parse_create_args(args, start + 2, next)
        } else {
            Err(ParseError::MissingValue)
        }
    } else if str_eq(t.as_str(), "--packages") || str_eq(t.as_str(), "-p") || str_eq(
        t.as_str(),
        "--pkg",
    ) {
        let k = count_nonflags(args, start + 1);
        if k == 0 {
            Err(ParseError::MissingValue)
        } else {
            let pkgs = slice_strings(args, start + 1, start + 1 + k);
            proof {
                assert(rest.subrange(1, 1 + k as int) =~= args.deep_view().subrange(
                    start as int + 1,
                    start as int + 1 + k as int,
                ));
                assert(rest.subrange(1 + k as int, rest.len() as int) =~= args.deep_view()
                    .subrange(start as int + 1 + k as int, args.deep_view().len() as int));
            }
            let next = CreateArgs { packages: pkgs, ..acc };
            parse_create_args(args, start + 1 + k, next)
        }
    } else if str_eq(t.as_str(), "--requirements") || str_eq(t.as_str(), "-r") {
        if args.len() - start >= 2 {
            let next = CreateArgs { requirements: args[start + 1].clone(), ..acc };
            parse_create_args(args, start + 2, next)
        } else {
            Err(ParseError::MissingValue)
        }
    } else if str_eq(t.as_str(), "--default") || str_eq(t.as_str(), "-d") {
        let next = CreateArgs { default: true, ..acc };
        parse_create_args(args, start + 1, next)
    } else if is_flag(t) {
        Err(ParseError::UnknownFlag)
    } else if acc.name_pos.is_none() {
        let next = CreateArgs { name_pos: Some(t.clone()), ..acc };
        parse_create_args(args, start + 1, next)
    } else {
        Err(ParseError::UnexpectedArgument)
    }
}

fn create_args_init() -> (r: CreateArgs)
    ensures
        abs_create(r) == create_acc_init(),
{
    let r = CreateArgs {
        name: None,
        python_version: "3.10".to_owned(),
        packages: Vec::new(),
        requirements: "".to_owned(),
        name_pos: None,
        default: false,
    };
    proof {
        assert(r.packages.deep_view() =~= Seq::<Seq<char>>::empty());
    }
    r
}

fn parse_install_args(args: &Vec<String>, start: usize, update: bool) -> (r: Result<
    bool,
    ParseError,
>)
    requires
        start <= args.len(),
    ensures
        ({
            let s = install_args_spec(
                args.deep_view().subrange(start as int, args.deep_view().len() as int),
                update,
            );
            match r {
                Ok(u) => s == Ok::<_, ParseError>(u),
                Err(e) => s == Err::<bool, _>(e),
            }
        }),
    decreases args.len() - start,
{
    let ghost rest = args.deep_view().subrange(start as int, args.deep_view().len() as int);
    if start == args.len() {
        return Ok(update);
    }
    proof {
        assert(rest[0] == args.deep_view()[start as int]);
        assert(rest.drop_first() =~= args.deep_view().subrange(
            start as int + 1,
            args.deep_view().len() as int,
        ));
    }
    let t = &args[start];
    if str_eq(t.as_str(), "--update") || str_eq(t.as_str(), "-u") {
        parse_install_args(args, start + 1, true)
    } else if is_flag(t) {
        Err(ParseError::UnknownFlag)
    } else {
        Err(ParseError::UnexpectedArgument)
    }
}

fn parse_uv_args(args: &Vec<String>, start: usize) -> (r: Result<UvCommands, ParseError>)
    requires
        start <= args.len(),
    ensures
        ({
            let s = uv_spec(args.deep_view().subrange(start as int, args.deep_view().len() as int));
            match r {
                Ok(c) => s == Ok::<_, ParseError>(c),
                Err(e) => s == Err::<UvCommands, _>(e),
            }
        }),
{
    let ghost rest = args.deep_view().subrange(start as int, args.deep_view().len() as int);
    if start == args.len() {
        return Err(ParseError::MissingCommand);
    }
    proof {
        assert(rest[0] == args.deep_view()[start as int]);
        assert(rest.drop_first() =~= args.deep_view().subrange(
            start as int + 1,
            args.deep_view().len() as int,
        ));
    }
    let t = &args[start];
    let none_left = start + 1 == args.len();
    if str_eq(t.as_str(), "install") || str_eq(t.as_str(), "i") {
        if none_left {
            Ok(UvCommands::Install)
        } else {
            Err(ParseError::UnexpectedArgument)
        }
    } else if str_eq(t.as_str(), "update") || str_eq(t.as_str(), "up") {
        if none_left {
            Ok(UvCommands::Update)
        } else {
            Err(ParseError::UnexpectedArgument)
        }
    } else if str_eq(t.as_str(), "uninstall") || str_eq(t.as_str(), "u") {
        if none_left {
            Ok(UvCommands::Uninstall)
        } else {
            Err(ParseError::UnexpectedArgument)
        }
    } else if str_eq(t.as_str(), "check") || str_eq(t.as_str(), "c") {
        if none_left {
            Ok(UvCommands::Check)
        } else {
            Err(ParseError::UnexpectedArgument)
        }
    } else {
        Err(ParseError::UnknownCommand)
    }
}

fn parse_venv_args(args: &Vec<String>, start: usize) -> (r: Result<VenvCommands, ParseError>)
    requires
        start <= args.len(),
    ensures
        ({
            let s = venv_spec(
                args.deep_view().subrange(start as int, args.deep_view().len() as int),
            );
            match r {
                Ok(c) => s == Ok::<_, ParseError>(abs_venv_commands(c)),
                Err(e) => s == Err::<VenvSpec, _>(e),
            }
        }),
{
    let ghost rest = args.deep_view().subrange(start as int, args.deep_view().len() as int);
    if start == args.len() {
        return Err(ParseError::MissingCommand);
    }
    proof {
        assert(rest[0] == args.deep_view()[start as int]);
        assert(rest.drop_first() =~= args.deep_view().subrange(
            start as int + 1,
            args.deep_view().len() as int,
        ));
    }
    let t = &args[start];
    if str_eq(t.as_str(), "create") || str_eq(t.as_str(), "c") {
        match parse_create_args(args, start + 1, create_args_init()) {
            Ok(a) => Ok(
                VenvCommands::Create {
                    name: a.name,
                    python_version: a.python_version,
                    packages: a.packages,
                    requirements: a.requirements,
                    name_pos: a.name_pos,
                    default: a.default,
                },
            ),
            Err(e) => Err(e),
        }
    } else if str_eq(t.as_str(), "delete") || str_eq(t.as_str(), "d") || str_eq(t.as_str(), "del") {
        match parse_name_args(args, start + 1, None, None) {
            Ok((n, p)) => Ok(VenvCommands::Delete { name: n, name_pos: p }),
            Err(e) => Err(e),
        }
    } else if str_eq(t.as_str(), "list") || str_eq(t.as_str(), "l") || str_eq(t.as_str(), "ls") {
        if start + 1 == args.len() {
            Ok(VenvCommands::List)
        } else {
            Err(ParseError::UnexpectedArgument)
        }
    } else if str_eq(t.as_str(), "activate") || str_eq(t.as_str(), "a") {
        match parse_name_args(args, start + 1, None, None) {
            Ok((n, p)) => Ok(VenvCommands::Activate { name: n, name_pos: p }),
            Err(e) => Err(e),
        }
    } else {
        Err(ParseError::UnknownCommand)
    }
}

fn parse_complete_args(args: &Vec<String>, start: usize) -> (r: Result<Option<String>, ParseError>)
    requires
        start <= args.len(),
    ensures
        ({
            let s = complete_spec(
                args.deep_view().subrange(start as int, args.deep_view().len() as int),
            );
            match r {
                Ok(sh) => s == Ok::<_, ParseError>(sh.deep_view()),
                Err(e) => s == Err::<Option<Seq<char>>, _>(e),
            }
        }),
{
    let ghost rest = args.deep_view().subrange(start as int, args.deep_view().len() as int);
    if start == args.len() {
        return Ok(Some("bash".to_owned()));
    }
    proof {
        assert(rest[0] == args.deep_view()[start as int]);
    }
    if start + 1 == args.len() {
        let t = &args[start];
        if str_eq(t.as_str(), "bash") || str_eq(t.as_str(), "zsh") || str_eq(t.as_str(), "fish")
            || str_eq(t.as_str(), "powershell") || str_eq(t.as_str(), "elvish") {
            Ok(Some(t.clone()))
        } else {
            Err(ParseError::InvalidValue)
        }
    } else {
        Err(ParseError::UnexpectedArgument)
    }
}

impl Cli {
    /// Parses an argument vector, program name first, against the
    /// grammar `parse_spec`. A successful parse always carries a
    /// command.
    pub fn try_parse_from(args: Vec<String>) -> (r: Result<Cli, ParseError>)
        ensures
            ({
                let s = parse_spec(args.deep_view());
                match r {
                    Ok(cli) => match cli.commands {
                        Some(c) => s == Ok::<_, ParseError>(abs_commands(c)),
                        None => false,
                    },
                    Err(e) => s == Err::<CmdSpec, _>(e),
                }
            }),
    {
        if args.len() <= 1 {
            return Err(ParseError::MissingCommand);
        }
        let ghost rest = args.deep_view().subrange(2, args.deep_view().len() as int);
        proof {
            assert(args.deep_view()[1] == args@[1].deep_view());
            assert(rest =~= args.deep_view().subrange(2, args.deep_view().len() as int));
        }
        let cmd = &args[1];
        let c: Commands = if str_eq(cmd.as_str(), "activate") {
            match parse_name_args(&args, 2, None, None) {
                Ok((n, p)) => Commands::Activate { name: n, name_pos: p },
                Err(e) => {
                    return Err(e);
                },
            }
        } else if str_eq(cmd.as_str(), "check") {
            if args.len() == 2 {
                Commands::Check
            } else {
                return Err(ParseError::UnexpectedArgument);
            }
        } else if str_eq(cmd.as_str(), "create") {
            match parse_create_args(&args, 2, create_args_init()) {
                Ok(a) => Commands::Create {
                    name: a.name,
                    python_version: a.python_version,
                    packages: a.packages,
                    requirements: a.requirements,
                    name_pos: a.name_pos,
                    default: a.default,
                },
                Err(e) => {
                    return Err(e);
                },
            }
        } else if str_eq(cmd.as_str(), "delete") {
            match parse_name_args(&args, 2, None, None) {
                Ok((n, p)) => Commands::Delete { name: n, name_pos: p },
                Err(e) => {
                    return Err(e);
                },
            }
        } else if str_eq(cmd.as_str(), "list") {
            if args.len() == 2 {
                Commands::List
            } else {
                return Err(ParseError::UnexpectedArgument);
            }
        } else if str_eq(cmd.as_str(), "install") {
            match parse_install_args(&args, 2, false) {
                Ok(u) => Commands::Install { update: u },
                Err(e) => {
                    return Err(e);
                },
            }
        } else if str_eq(cmd.as_str(), "uninstall") {
            if args.len() == 2 {
                Commands::Uninstall
            } else {
                return Err(ParseError::UnexpectedArgument);
            }
        } else if str_eq(cmd.as_str(), "uv") || str_eq(cmd.as_str(), "u") {
            match parse_uv_args(&args, 2) {
                Ok(c) => Commands::Uv { command: c },
                Err(e) => {
                    return Err(e);
                },
            }
        } else if str_eq(cmd.as_str(), "venv") || str_eq(cmd.as_str(), "v") {
            match parse_venv_args(&args, 2) {
                Ok(c) => Commands::Venv { command: c },
                Err(e) => {
                    return Err(e);
                },
            }
        } else if str_eq(cmd.as_str(), "complete") || str_eq(cmd.as_str(), "c") {
            match parse_complete_args(&args, 2) {
                Ok(s) => Commands::Complete { shell: s },
                Err(e) => {
                    return Err(e);
                },
            }
        } else {
            return Err(ParseError::UnknownCommand);
        };
        Ok(Cli { commands: Some(c) })
    }
}

} // verus!
