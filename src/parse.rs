//! The parser: from argument tokens to an invocation, a help request or a
//! refusal, exactly as the grammar's model says.
use vstd::prelude::*;
use crate::cli::{
    opt_text, CheckArgument, Commands, DirectVolAddArgs, DirectVolRemoveArgs, DirectVolResizeArgs,
    DirectVolStatsArgs, DirectVolSubcommand, DirectVolumeCommand, EnvArgument, ExecArguments,
    IpTablesArguments, IptablesCommand, KataCtlCli, MetricsCommand,
};
use crate::grammar::{
    build, empty_scan, first_eq_from, is_help, lemma_first_eq_bound, option_required, parse_model,
    positional_count, scan, text_ok, verb_of, Leaf, Outcome, ParseError, Scan, DEFAULT_VPORT,
};
use crate::text::{number_within, parse_u64};

verus! {

/// The result of parsing one command line.
#[derive(Clone, Debug)]
pub enum ParseOutcome {
    /// A complete invocation, to hand to its command.
    Run(KataCtlCli),
    /// Help was asked for the scope named by this many leading tokens.
    Help(usize),
    /// The command line breaks the grammar.
    Failed(ParseError),
}

impl View for ParseOutcome {
    type V = Outcome;

    open spec fn view(&self) -> Outcome {
        match self {
            ParseOutcome::Run(c) => Outcome::Run(c@),
            ParseOutcome::Help(n) => Outcome::Help(*n as nat),
            ParseOutcome::Failed(e) => Outcome::Failed(*e),
        }
    }
}

impl ParseOutcome {
    /// The process exit status that this outcome calls for: 0 for an
    /// invocation (before its command runs) and for help, 2 for a refusal.
    pub fn exit_code(&self) -> (r: i32)
        ensures
            r == (if self is Failed {
                2i32
            } else {
                0i32
            }),
    {
        match self {
            ParseOutcome::Failed(_) => 2,
            _ => 0,
        }
    }
}

/// The characters of each token.
pub open spec fn tokens(args: Seq<String>) -> Seq<Seq<char>> {
    args.map_values(|s: String| s@)
}

/// What the parser has read of a leaf's tokens, as the model sees it.
pub open spec fn scan_of(switch: bool, value: Option<String>, positionals: Seq<String>) -> Scan {
    Scan { switch, value: opt_text(value), positionals: tokens(positionals) }
}

fn is_text(s: &String) -> (r: bool)
    ensures
        r == text_ok(s@),
{
    s.as_str().unicode_len() > 0
}

/// The position of the first `=` in `s`, or its length where there is none.
fn first_eq(s: &str) -> (r: usize)
    ensures
        r == first_eq_from(s@, 0),
{
    let n = s.unicode_len();
    let mut i: usize = 0;
    while i < n
        invariant
            n == s@.len(),
            i <= n,
            first_eq_from(s@, i as int) == first_eq_from(s@, 0),
        decreases n - i,
    {
        if s.get_char(i) == '=' {
            return i;
        }
        i = i + 1;
    }
    i
}

fn run_outcome(command: Commands) -> (r: ParseOutcome)
    ensures
        r@ == Outcome::Run(command@),
{
    ParseOutcome::Run(KataCtlCli { command })
}

/// Converts the values read for a leaf, once every required flag and
/// positional is there.
fn build_leaf(leaf: Leaf, switch: bool, value: Option<String>, positionals: &Vec<String>) -> (r: ParseOutcome)
    requires
        positionals.len() >= positional_count(leaf),
        !(option_required(leaf) && value is None),
    ensures
        r@ == build(leaf, scan_of(switch, value, positionals@)),
{
    let ghost st = scan_of(switch, value, positionals@);
    let invalid = ParseOutcome::Failed(ParseError::InvalidValue);
    match leaf {
        Leaf::Check(c) => run_outcome(Commands::Check(CheckArgument { command: c })),
        Leaf::Factory => run_outcome(Commands::Factory),
        Leaf::Metrics(m) => run_outcome(Commands::Metrics(MetricsCommand { metrics_cmd: m })),
        Leaf::Version => run_outcome(Commands::Version),
        Leaf::Env => match value {
            None => run_outcome(Commands::Env(EnvArgument { json: switch, file: None })),
            Some(f) => if is_text(&f) {
                run_outcome(Commands::Env(EnvArgument { json: switch, file: Some(f) }))
            } else {
                invalid
            },
        },
        Leaf::Exec => {
            let id = positionals[0].clone();
            assert(st.positionals[0] == id@);
            if !is_text(&id) {
                invalid
            } else {
                match value {
                    None => run_outcome(
                        Commands::Exec(ExecArguments { sandbox_id: id, vport: DEFAULT_VPORT }),
                    ),
                    Some(t) => match parse_u64(t.as_str()) {
                        Some(n) => if n <= u32::MAX as u64 {
                            run_outcome(
                                Commands::Exec(ExecArguments { sandbox_id: id, vport: n as u32 }),
                            )
                        } else {
                            invalid
                        },
                        None => {
                            assert(number_within(t@, u32::MAX as nat) is None);
                            invalid
                        },
                    },
                }
            }
        },
        Leaf::VolumeAdd => {
            let path = positionals[0].clone();
            let info = positionals[1].clone();
            assert(st.positionals[0] == path@ && st.positionals[1] == info@);
            if is_text(&path) && is_text(&info) {
                run_outcome(
                    Commands::DirectVolume(DirectVolumeCommand {
                        directvol_cmd: DirectVolSubcommand::Add(
                            DirectVolAddArgs { volume_path: path, mount_info: info },
                        ),
                    }),
                )
            } else {
                invalid
            }
        },
        Leaf::VolumeRemove => {
            let path = positionals[0].clone();
            assert(st.positionals[0] == path@);
            if is_text(&path) {
                run_outcome(
                    Commands::DirectVolume(DirectVolumeCommand {
                        directvol_cmd: DirectVolSubcommand::Remove(
                            DirectVolRemoveArgs { volume_path: path },
                        ),
                    }),
                )
            } else {
                invalid
            }
        },
        Leaf::VolumeStats => {
            let path = positionals[0].clone();
            assert(st.positionals[0] == path@);
            if is_text(&path) {
                run_outcome(
                    Commands::DirectVolume(DirectVolumeCommand {
                        directvol_cmd: DirectVolSubcommand::Stats(
                            DirectVolStatsArgs { volume_path: path },
                        ),
                    }),
                )
            } else {
                invalid
            }
        },
        Leaf::VolumeResize => {
            let path = positionals[0].clone();
            assert(st.positionals[0] == path@ && st.positionals[1] == positionals@[1]@);
            if !is_text(&path) {
                invalid
            } else {
                match parse_u64(positionals[1].as_str()) {
                    Some(n) => run_outcome(
                        Commands::DirectVolume(DirectVolumeCommand {
                            directvol_cmd: DirectVolSubcommand::Resize(
                                DirectVolResizeArgs { volume_path: path, resize_size: n },
                            ),
                        }),
                    ),
                    None => invalid,
                }
            }
        },
        Leaf::IptablesGet => {
            let id = value.unwrap();
            if is_text(&id) {
                run_outcome(
                    Commands::Iptables(IptablesCommand {
                        iptables: IpTablesArguments::Get { sandbox_id: id, v6: switch },
                    }),
                )
            } else {
                invalid
            }
        },
        Leaf::IptablesSet => {
            let id = value.unwrap();
            let file = positionals[0].clone();
            assert(st.positionals[0] == file@);
            if is_text(&id) && is_text(&file) {
                run_outcome(
                    Commands::Iptables(IptablesCommand {
                        iptables: IpTablesArguments::SetRules { sandbox_id: id, v6: switch, file },
                    }),
                )
            } else {
                invalid
            }
        },
    }
}


/// Reads the tokens of a leaf command from `start` on, where the first
/// `start` tokens name it.
fn parse_leaf(leaf: Leaf, args: &Vec<String>, start: usize) -> (r: ParseOutcome)
    requires
        start <= args.len(),
    ensures
        r@ == scan(leaf, tokens(args@), start as nat, start as int, empty_scan()),
{
    let ghost toks = tokens(args@);
    let mut switch = false;
    let mut value: Option<String> = None;
    let mut positionals: Vec<String> = Vec::new();
    assert(scan_of(switch, value, positionals@) == empty_scan()) by {
        assert(tokens(positionals@) =~= Seq::<Seq<char>>::empty());
    }
    let mut i: usize = start;
    while i < args.len()
        invariant
            start <= i <= args.len(),
            toks == tokens(args@),
            scan(leaf, toks, start as nat, i as int, scan_of(switch, value, positionals@)) == scan(
                leaf,
                toks,
                start as nat,
                start as int,
                empty_scan(),
            ),
        decreases args.len() - i,
    {
        let ghost st = scan_of(switch, value, positionals@);
        let t: &str = args[i].as_str();
        assert(toks[i as int] == t@);
        let n = t.unicode_len();
        if is_help(t) {
            return ParseOutcome::Help(start);
        } else if n >= 2 && t.get_char(0) == '-' && t.get_char(1) == '-' {
            let body = t.substring_char(2, n);
            assert(body@ =~= t@.skip(2));
            let k = first_eq(body);
            let blen = body.unicode_len();
            proof {
                assert(k <= blen) by {
                    lemma_first_eq_bound(body@, 0);
                }
            }
            let name = body.substring_char(0, k);
            assert(name@ =~= body@.take(k as int));
            if leaf.is_switch(name) {
                if k < blen {
                    return ParseOutcome::Failed(ParseError::UnexpectedArgument);
                }
                switch = true;
                i = i + 1;
            } else if leaf.is_option(name) {
                if k < blen {
                    let v = body.substring_char(k + 1, blen);
                    assert(v@ =~= body@.skip(k + 1));
                    value = Some(v.to_owned());
                    i = i + 1;
                } else if i + 1 < args.len() {
                    value = Some(args[i + 1].clone());
                    assert(toks[i + 1] == args@[i + 1]@);
                    i = i + 2;
                } else {
                    return ParseOutcome::Failed(ParseError::MissingRequired);
                }
            } else {
                return ParseOutcome::Failed(ParseError::UnknownFlag);
            }
        } else if n >= 2 && t.get_char(0) == '-' {
            if n == 2 && leaf.is_option_short(t.get_char(1)) {
                if i + 1 < args.len() {
                    value = Some(args[i + 1].clone());
                    assert(toks[i + 1] == args@[i + 1]@);
                    i = i + 2;
                } else {
                    return ParseOutcome::Failed(ParseError::MissingRequired);
                }
            } else {
                return ParseOutcome::Failed(ParseError::UnknownFlag);
            }
        } else if positionals.len() < leaf.positional_count() {
            positionals.push(args[i].clone());
            assert(tokens(positionals@) =~= st.positionals.push(t@));
            i = i + 1;
        } else {
            return ParseOutcome::Failed(ParseError::UnexpectedArgument);
        }
    }
    if positionals.len() < leaf.positional_count() {
        ParseOutcome::Failed(ParseError::MissingRequired)
    } else if leaf.option_required() && value.is_none() {
        ParseOutcome::Failed(ParseError::MissingRequired)
    } else {
        build_leaf(leaf, switch, value, &positionals)
    }
}

/// Parses a command line, given without the program name.
pub fn parse_args(args: &Vec<String>) -> (r: ParseOutcome)
    ensures
        r@ == parse_model(tokens(args@)),
{
    let ghost toks = tokens(args@);
    if args.len() == 0 {
        return ParseOutcome::Help(0);
    }
    let first: &str = args[0].as_str();
    assert(toks[0] == first@);
    if is_help(first) {
        return ParseOutcome::Help(0);
    }
    if first.unicode_len() >= 2 && first.get_char(0) == '-' {
        return ParseOutcome::Failed(ParseError::UnknownFlag);
    }
    let verb = match verb_of(first) {
        None => return ParseOutcome::Failed(ParseError::UnknownVerb),
        Some(v) => v,
    };
    if let Some(leaf) = verb.leaf() {
        return parse_leaf(leaf, args, 1);
    }
    if args.len() == 1 {
        return ParseOutcome::Failed(ParseError::MissingRequired);
    }
    let second: &str = args[1].as_str();
    assert(toks[1] == second@);
    if is_help(second) {
        return ParseOutcome::Help(1);
    }
    if second.unicode_len() >= 2 && second.get_char(0) == '-' {
        return ParseOutcome::Failed(ParseError::UnknownFlag);
    }
    match verb.subcommand(second) {
        None => ParseOutcome::Failed(ParseError::UnknownSubcommand),
        Some(leaf) => parse_leaf(leaf, args, 2),
    }
}

} // verus!
