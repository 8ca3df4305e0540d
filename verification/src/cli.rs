//! The command line.
use vstd::prelude::*;
use crate::text::str_eq;
use crate::format::views;

verus! {

/// The options of a run of the dashboard or the snapshot.
#[derive(Clone, Debug, Default, PartialEq, Eq)]
pub struct RunOptions {
    /// Print a snapshot and exit.
    pub once: bool,
    pub theme_override: Option<String>,
    pub config_path: Option<String>,
    pub fancy_override: Option<bool>,
    pub logo_override: Option<bool>,
}

/// What the command line asks for.
#[derive(Clone, Debug, PartialEq, Eq)]
pub enum Command {
    Help,
    Version,
    GenConfig,
    Run(RunOptions),
    /// An argument that is no option; the program reports it and exits with status 2.
    Unknown(String),
}

/// The options of a run, as character sequences.
pub struct OptionsModel {
    pub once: bool,
    pub theme: Option<Seq<char>>,
    pub config: Option<Seq<char>>,
    pub fancy: Option<bool>,
    pub logo: Option<bool>,
}

/// A command, as character sequences.
pub enum CommandModel {
    Help,
    Version,
    GenConfig,
    Run(OptionsModel),
    Unknown(Seq<char>),
}

/// The characters of an optional string.
pub open spec fn opt_chars(o: Option<String>) -> Option<Seq<char>> {
    match o {
        Some(s) => Some(s@),
        None => None,
    }
}

/// The model of run options.
pub open spec fn options_model(o: RunOptions) -> OptionsModel {
    OptionsModel {
        once: o.once,
        theme: opt_chars(o.theme_override),
        config: opt_chars(o.config_path),
        fancy: o.fancy_override,
        logo: o.logo_override,
    }
}

/// The model of a command.
pub open spec fn command_model(c: Command) -> CommandModel {
    match c {
        Command::Help => CommandModel::Help,
        Command::Version => CommandModel::Version,
        Command::GenConfig => CommandModel::GenConfig,
        Command::Run(o) => CommandModel::Run(options_model(o)),
        Command::Unknown(a) => CommandModel::Unknown(a@),
    }
}

/// No option given.
pub open spec fn no_options() -> OptionsModel {
    OptionsModel { once: false, theme: None, config: None, fancy: None, logo: None }
}

/// The argument after position `i`, if there is one.
pub open spec fn arg_after(args: Seq<Seq<char>>, i: int) -> Option<Seq<char>> {
    if i + 1 < args.len() {
        Some(args[i + 1])
    } else {
        None
    }
}

/// Reads the arguments from position `i` on, with the options `o` read so far. Help,
/// version and sample-config requests end the reading where they stand, as does an
/// unknown argument; `-t`/`--theme` and `--config` take the next argument (none at the
/// end); a later flag overrides an earlier one.
pub open spec fn parse_from(args: Seq<Seq<char>>, i: int, o: OptionsModel) -> CommandModel
    decreases (if 0 <= i < args.len() { args.len() - i } else { 0 }),
{
    if i < 0 || i >= args.len() {
        CommandModel::Run(o)
    } else {
        let a = args[i];
        if a == "-h"@ || a == "--help"@ {
            CommandModel::Help
        } else if a == "-V"@ || a == "--version"@ {
            CommandModel::Version
        } else if a == "--gen-config"@ {
            CommandModel::GenConfig
        } else if a == "-o"@ || a == "--once"@ {
            parse_from(args, i + 1, OptionsModel { once: true, ..o })
        } else if a == "--no-fancy"@ {
            parse_from(args, i + 1, OptionsModel { fancy: Some(false), ..o })
        } else if a == "--fancy"@ {
            parse_from(args, i + 1, OptionsModel { fancy: Some(true), ..o })
        } else if a == "--no-logo"@ {
            parse_from(args, i + 1, OptionsModel { logo: Some(false), ..o })
        } else if a == "-t"@ || a == "--theme"@ {
            parse_from(args, i + 2, OptionsModel { theme: arg_after(args, i), ..o })
        } else if a == "--config"@ {
            parse_from(args, i + 2, OptionsModel { config: arg_after(args, i), ..o })
        } else {
            CommandModel::Unknown(a)
        }
    }
}

/// What a command line (without the program name) asks for.
pub open spec fn parse_args_spec(args: Seq<Seq<char>>) -> CommandModel {
    parse_from(args, 0, no_options())
}

fn next_arg(args: &Vec<String>, i: usize) -> (r: Option<String>)
    requires
        i < args.len(),
    ensures
        opt_chars(r) == arg_after(views(args@), i as int),
{
    if i + 1 < args.len() {
        Some(args[i + 1].clone())
    } else {
        None
    }
}

/// Reads the command line arguments (without the program name).
pub fn parse_args(args: &Vec<String>) -> (c: Command)
    ensures
        command_model(c) == parse_args_spec(views(args@)),
{
    let ghost va = views(args@);
    let mut opts = RunOptions {
        once: false,
        theme_override: None,
        config_path: None,
        fancy_override: None,
        logo_override: None,
    };
    let n = args.len();
    let mut i: usize = 0;
    while i < n
        invariant
            n == args.len(),
            va == views(args@),
            parse_args_spec(va) == parse_from(va, i as int, options_model(opts)),
        decreases n - i,
    {
        let a = args[i].as_str();
        let ghost o = options_model(opts);
        assert(va[i as int] == a@);
        if str_eq(a, "-h") || str_eq(a, "--help") {
            return Command::Help;
        } else if str_eq(a, "-V") || str_eq(a, "--version") {
            return Command::Version;
        } else if str_eq(a, "--gen-config") {
            return Command::GenConfig;
        } else if str_eq(a, "-o") || str_eq(a, "--once") {
            opts.once = true;
            i = i + 1;
        } else if str_eq(a, "--no-fancy") {
            opts.fancy_override = Some(false);
            i = i + 1;
        } else if str_eq(a, "--fancy") {
            opts.fancy_override = Some(true);
            i = i + 1;
        } else if str_eq(a, "--no-logo") {
            opts.logo_override = Some(false);
            i = i + 1;
        } else if str_eq(a, "-t") || str_eq(a, "--theme") {
            opts.theme_override = next_arg(args, i);
            let ghost at = i as int;
            i = if i + 1 < n { i + 2 } else { n };
            proof {
                let o2 = options_model(opts);
                assert(parse_from(va, at, o) == parse_from(va, at + 2, o2));
                if at + 1 >= n {
                    assert(parse_from(va, at + 2, o2) == CommandModel::Run(o2));
                    assert(parse_from(va, n as int, o2) == CommandModel::Run(o2));
                }
            }
        } else if str_eq(a, "--config") {
            opts.config_path = next_arg(args, i);
            let ghost at = i as int;
            i = if i + 1 < n { i + 2 } else { n };
            proof {
                let o2 = options_model(opts);
                assert(parse_from(va, at, o) == parse_from(va, at + 2, o2));
                if at + 1 >= n {
                    assert(parse_from(va, at + 2, o2) == CommandModel::Run(o2));
                    assert(parse_from(va, n as int, o2) == CommandModel::Run(o2));
                }
            }
        } else {
            return Command::Unknown(args[i].clone());
        }
    }
    Command::Run(opts)
}

/// Whether the reading from position `i` on ends on an option that awaits a value
/// (`-t`, `--theme` or `--config` as the last argument).
pub open spec fn ends_awaiting_value(args: Seq<Seq<char>>, i: int) -> bool
    decreases (if 0 <= i < args.len() { args.len() - i } else { 0 }),
{
    if i < 0 || i >= args.len() {
        false
    } else {
        let a = args[i];
        if a == "-t"@ || a == "--theme"@ || a == "--config"@ {
            if i + 1 >= args.len() { true } else { ends_awaiting_value(args, i + 2) }
        } else if a == "-o"@ || a == "--once"@ || a == "--no-fancy"@ || a == "--fancy"@ || a == "--no-logo"@ {
            ends_awaiting_value(args, i + 1)
        } else {
            false
        }
    }
}

proof fn lemma_fancy_flags_are_plain(flag_on: bool)
    ensures
        ({
            let flag = if flag_on { "--fancy"@ } else { "--no-fancy"@ };
            &&& flag != "-h"@ && flag != "--help"@ && flag != "-V"@ && flag != "--version"@
            &&& flag != "--gen-config"@ && flag != "-o"@ && flag != "--once"@
            &&& (flag == "--no-fancy"@) == !flag_on
            &&& (flag == "--fancy"@) == flag_on
        }),
{
    reveal_strlit("--fancy");
    reveal_strlit("--no-fancy");
    reveal_strlit("-h");
    reveal_strlit("--help");
    reveal_strlit("-V");
    reveal_strlit("--version");
    reveal_strlit("--gen-config");
    reveal_strlit("-o");
    reveal_strlit("--once");
    assert("--fancy"@.len() != "--no-fancy"@.len());
    assert("--fancy"@[2] != "--once"@[2]);
    assert("--no-fancy"@[2] != "--version"@[2]);
}

proof fn lemma_value_options_are_not_flags(a: Seq<char>)
    ensures
        (a == "-o"@ || a == "--once"@ || a == "--no-fancy"@ || a == "--fancy"@ || a == "--no-logo"@)
            ==> !(a == "-t"@ || a == "--theme"@ || a == "--config"@),
{
    reveal_strlit("-o");
    reveal_strlit("--once");
    reveal_strlit("--no-fancy");
    reveal_strlit("--fancy");
    reveal_strlit("--no-logo");
    reveal_strlit("-t");
    reveal_strlit("--theme");
    reveal_strlit("--config");
    assert("-o"@[1] != "-t"@[1]);
    assert("--fancy"@[2] != "--theme"@[2]);
    assert("--once"@.len() != "--theme"@.len() && "--once"@.len() != "--config"@.len());
    assert("--no-fancy"@.len() != "--theme"@.len() && "--no-fancy"@.len() != "--config"@.len());
    assert("--no-logo"@.len() != "--theme"@.len() && "--no-logo"@.len() != "--config"@.len());
    assert("--fancy"@.len() != "--config"@.len());
}

proof fn lemma_last_fancy(args: Seq<Seq<char>>, i: int, o: OptionsModel, flag_on: bool)
    requires
        0 <= i <= args.len(),
        parse_from(args, i, o) is Run,
        !ends_awaiting_value(args, i),
    ensures
        ({
            let flag = if flag_on { "--fancy"@ } else { "--no-fancy"@ };
            let r = parse_from(args.push(flag), i, o);
            &&& r is Run
            &&& r->Run_0.fancy == Some(flag_on)
        }),
    decreases args.len() - i,
{
    let flag = if flag_on { "--fancy"@ } else { "--no-fancy"@ };
    let ext = args.push(flag);
    lemma_fancy_flags_are_plain(flag_on);
    if i == args.len() {
        assert(ext[i] == flag);
        let o2 = OptionsModel { fancy: Some(flag_on), ..o };
        assert(parse_from(ext, i + 1, o2) == CommandModel::Run(o2));
        if flag_on {
            assert(parse_from(ext, i, o) == parse_from(ext, i + 1, o2));
        } else {
            assert(parse_from(ext, i, o) == parse_from(ext, i + 1, o2));
        }
    } else {
        let a = args[i];
        assert(ext[i] == a);
        lemma_value_options_are_not_flags(a);
        if a == "-h"@ || a == "--help"@ || a == "-V"@ || a == "--version"@ || a == "--gen-config"@ {
        } else if a == "-o"@ || a == "--once"@ {
            lemma_last_fancy(args, i + 1, OptionsModel { once: true, ..o }, flag_on);
        } else if a == "--no-fancy"@ {
            lemma_last_fancy(args, i + 1, OptionsModel { fancy: Some(false), ..o }, flag_on);
        } else if a == "--fancy"@ {
            lemma_last_fancy(args, i + 1, OptionsModel { fancy: Some(true), ..o }, flag_on);
        } else if a == "--no-logo"@ {
            lemma_last_fancy(args, i + 1, OptionsModel { logo: Some(false), ..o }, flag_on);
        } else if a == "-t"@ || a == "--theme"@ {
            assert(arg_after(ext, i) == arg_after(args, i));
            lemma_last_fancy(args, i + 2, OptionsModel { theme: arg_after(args, i), ..o }, flag_on);
        } else if a == "--config"@ {
            assert(arg_after(ext, i) == arg_after(args, i));
            lemma_last_fancy(args, i + 2, OptionsModel { config: arg_after(args, i), ..o }, flag_on);
        }
    }
}

/// A later `--fancy` or `--no-fancy` overrides an earlier one: appending a fancy flag to
/// a command line that runs the program leaves a run whose fancy setting is that flag's,
/// unless the line ends on an option that awaits a value (which then takes the flag).
pub proof fn law_last_fancy_flag_wins(args: Seq<Seq<char>>, flag_on: bool)
    requires
        parse_args_spec(args) is Run,
        !ends_awaiting_value(args, 0),
    ensures
        ({
            let flag = if flag_on { "--fancy"@ } else { "--no-fancy"@ };
            let r = parse_args_spec(args.push(flag));
            &&& r is Run
            &&& r->Run_0.fancy == Some(flag_on)
        }),
{
    lemma_last_fancy(args, 0, no_options(), flag_on);
}


/// The option names, told apart by their lengths and their first letter.
proof fn lemma_option_names_distinct()
    ensures
        "-h"@.len() == 2 && "-h"@[1] == 'h',
        "--help"@.len() == 6 && "--help"@[2] == 'h',
        "-V"@.len() == 2 && "-V"@[1] == 'V',
        "--version"@.len() == 9 && "--version"@[2] == 'v',
        "--gen-config"@.len() == 12 && "--gen-config"@[2] == 'g',
        "-o"@.len() == 2 && "-o"@[1] == 'o',
        "--once"@.len() == 6 && "--once"@[2] == 'o',
        "--no-fancy"@.len() == 10 && "--no-fancy"@[2] == 'n',
        "--fancy"@.len() == 7 && "--fancy"@[2] == 'f',
        "--no-logo"@.len() == 9 && "--no-logo"@[2] == 'n',
        "-t"@.len() == 2 && "-t"@[1] == 't',
        "--theme"@.len() == 7 && "--theme"@[2] == 't',
        "--config"@.len() == 8 && "--config"@[2] == 'c',
{
    reveal_strlit("-h");
    reveal_strlit("--help");
    reveal_strlit("-V");
    reveal_strlit("--version");
    reveal_strlit("--gen-config");
    reveal_strlit("-o");
    reveal_strlit("--once");
    reveal_strlit("--no-fancy");
    reveal_strlit("--fancy");
    reveal_strlit("--no-logo");
    reveal_strlit("-t");
    reveal_strlit("--theme");
    reveal_strlit("--config");
}

proof fn lemma_request_names_distinct()
    ensures
        "-h"@ != "-V"@ && "-h"@ != "--version"@ && "-h"@ != "--gen-config"@,
        "--help"@ != "-V"@ && "--help"@ != "--version"@ && "--help"@ != "--gen-config"@,
        "-V"@ != "--gen-config"@ && "--version"@ != "--gen-config"@,
{
    reveal_strlit("-h");
    reveal_strlit("--help");
    reveal_strlit("-V");
    reveal_strlit("--version");
    reveal_strlit("--gen-config");
    assert("-h"@[1] != "-V"@[1]);
    assert("-h"@.len() != "--version"@.len() && "-h"@.len() != "--gen-config"@.len());
    assert("--help"@.len() != "-V"@.len() && "--help"@.len() != "--version"@.len());
    assert("--help"@.len() != "--gen-config"@.len());
    assert("-V"@.len() != "--gen-config"@.len() && "--version"@.len() != "--gen-config"@.len());
}

/// The requests: a command line whose first argument is `-h`/`--help` asks for help,
/// `-V`/`--version` for the version, `--gen-config` for a sample configuration, whatever
/// follows; and a lone argument asks for the version exactly when it is `-V` or
/// `--version` (likewise help and the sample configuration).
pub proof fn law_requests_are_recognised(args: Seq<Seq<char>>, a: Seq<char>)
    ensures
        args.len() > 0 && (args[0] == "-h"@ || args[0] == "--help"@) ==> parse_args_spec(args)
            is Help,
        args.len() > 0 && (args[0] == "-V"@ || args[0] == "--version"@) ==> parse_args_spec(args)
            is Version,
        args.len() > 0 && args[0] == "--gen-config"@ ==> parse_args_spec(args) is GenConfig,
        parse_args_spec(seq![a]) is Version <==> (a == "-V"@ || a == "--version"@),
        parse_args_spec(seq![a]) is Help <==> (a == "-h"@ || a == "--help"@),
        parse_args_spec(seq![a]) is GenConfig <==> a == "--gen-config"@,
{
    lemma_request_names_distinct();
    let one = seq![a];
    assert(one[0] == a);
    assert(parse_args_spec(one) == parse_from(one, 0, no_options()));
    assert forall|i: int, o: OptionsModel| i >= 1 implies #[trigger] parse_from(one, i, o) is Run by {}
    let r = parse_from(one, 0, no_options());
    if a == "-h"@ || a == "--help"@ {
        assert(r is Help);
    } else if a == "-V"@ || a == "--version"@ {
        assert(r is Version);
    } else if a == "--gen-config"@ {
        assert(r is GenConfig);
    } else {
        let o = no_options();
        if a == "-o"@ || a == "--once"@ {
            assert(r == parse_from(one, 1, OptionsModel { once: true, ..o }));
        } else if a == "--no-fancy"@ {
            assert(r == parse_from(one, 1, OptionsModel { fancy: Some(false), ..o }));
        } else if a == "--fancy"@ {
            assert(r == parse_from(one, 1, OptionsModel { fancy: Some(true), ..o }));
        } else if a == "--no-logo"@ {
            assert(r == parse_from(one, 1, OptionsModel { logo: Some(false), ..o }));
        } else if a == "-t"@ || a == "--theme"@ {
            assert(r == parse_from(one, 2, OptionsModel { theme: arg_after(one, 0), ..o }));
        } else if a == "--config"@ {
            assert(r == parse_from(one, 2, OptionsModel { config: arg_after(one, 0), ..o }));
        } else {
            assert(r == CommandModel::Unknown(a));
        }
        assert(!(r is Help) && !(r is Version) && !(r is GenConfig));
    }
}


proof fn lemma_shift(x: Seq<char>, args: Seq<Seq<char>>, i: int, o: OptionsModel)
    requires
        0 <= i,
    ensures
        parse_from(seq![x] + args, i + 1, o) == parse_from(args, i, o),
    decreases (if i < args.len() { args.len() - i } else { 0 }),
{
    let ext = seq![x] + args;
    if i < args.len() {
        assert(ext[i + 1] == args[i]);
        assert(arg_after(ext, i + 1) == arg_after(args, i));
        let a = args[i];
        if a == "-h"@ || a == "--help"@ || a == "-V"@ || a == "--version"@ || a == "--gen-config"@ {
        } else if a == "-o"@ || a == "--once"@ {
            lemma_shift(x, args, i + 1, OptionsModel { once: true, ..o });
        } else if a == "--no-fancy"@ {
            lemma_shift(x, args, i + 1, OptionsModel { fancy: Some(false), ..o });
        } else if a == "--fancy"@ {
            lemma_shift(x, args, i + 1, OptionsModel { fancy: Some(true), ..o });
        } else if a == "--no-logo"@ {
            lemma_shift(x, args, i + 1, OptionsModel { logo: Some(false), ..o });
        } else if a == "-t"@ || a == "--theme"@ {
            lemma_shift(x, args, i + 2, OptionsModel { theme: arg_after(args, i), ..o });
        } else if a == "--config"@ {
            lemma_shift(x, args, i + 2, OptionsModel { config: arg_after(args, i), ..o });
        }
    }
}

/// What each option sets: a command line that starts with an option reads as the rest of
/// the line with that option's setting already made — `-o`/`--once` the snapshot,
/// `--fancy`/`--no-fancy` fancy glyphs on/off, `--no-logo` the logo off, and `-t`/`--theme`
/// or `--config` followed by a value that theme or configuration file.
pub proof fn law_options_set_their_setting(args: Seq<Seq<char>>, flag: Seq<char>, v: Seq<char>)
    ensures
        (flag == "-o"@ || flag == "--once"@) ==> parse_args_spec(seq![flag] + args)
            == parse_from(args, 0, OptionsModel { once: true, ..no_options() }),
        flag == "--fancy"@ ==> parse_args_spec(seq![flag] + args)
            == parse_from(args, 0, OptionsModel { fancy: Some(true), ..no_options() }),
        flag == "--no-fancy"@ ==> parse_args_spec(seq![flag] + args)
            == parse_from(args, 0, OptionsModel { fancy: Some(false), ..no_options() }),
        flag == "--no-logo"@ ==> parse_args_spec(seq![flag] + args)
            == parse_from(args, 0, OptionsModel { logo: Some(false), ..no_options() }),
        (flag == "-t"@ || flag == "--theme"@) ==> parse_args_spec(seq![flag, v] + args)
            == parse_from(args, 0, OptionsModel { theme: Some(v), ..no_options() }),
        flag == "--config"@ ==> parse_args_spec(seq![flag, v] + args)
            == parse_from(args, 0, OptionsModel { config: Some(v), ..no_options() }),
{
    lemma_option_names_distinct();
    let one = seq![flag] + args;
    assert(one[0] == flag);
    lemma_shift(flag, args, 0, OptionsModel { once: true, ..no_options() });
    lemma_shift(flag, args, 0, OptionsModel { fancy: Some(true), ..no_options() });
    lemma_shift(flag, args, 0, OptionsModel { fancy: Some(false), ..no_options() });
    lemma_shift(flag, args, 0, OptionsModel { logo: Some(false), ..no_options() });
    let two = seq![flag, v] + args;
    assert(two[0] == flag);
    assert(arg_after(two, 0) == Some(v));
    assert(two == seq![flag] + (seq![v] + args));
    lemma_shift(v, args, 0, OptionsModel { theme: Some(v), ..no_options() });
    lemma_shift(flag, seq![v] + args, 1, OptionsModel { theme: Some(v), ..no_options() });
    lemma_shift(v, args, 0, OptionsModel { config: Some(v), ..no_options() });
    lemma_shift(flag, seq![v] + args, 1, OptionsModel { config: Some(v), ..no_options() });
}

} // verus!
