//! The command grammar: verbs, subcommands, the flags and positionals of
//! each leaf command, and the outcome that a token sequence is owed.
use vstd::prelude::*;
use crate::cli::{CheckSubCommand, Invocation, MetricsSubCommand};
use crate::text::{number_within, same_text};

verus! {

/// Why a command line was refused.
#[derive(Clone, Copy, Debug, PartialEq, Eq, Structural)]
pub enum ParseError {
    /// The first token names no verb.
    UnknownVerb,
    /// The token after a verb names none of its subcommands.
    UnknownSubcommand,
    /// A required subcommand, flag, flag value or positional is absent.
    MissingRequired,
    /// A value is empty where text is required, or is not a number in range.
    InvalidValue,
    /// A token is left over once the positionals are filled, or a switch was given a value.
    UnexpectedArgument,
    /// A flag that the current scope does not declare.
    UnknownFlag,
}

/// The one-line description of a refusal.
pub open spec fn error_text(e: ParseError) -> Seq<char> {
    match e {
        ParseError::UnknownVerb => "unrecognized command"@,
        ParseError::UnknownSubcommand => "unrecognized subcommand"@,
        ParseError::MissingRequired => "a required argument was not provided"@,
        ParseError::InvalidValue => "invalid value for an argument"@,
        ParseError::UnexpectedArgument => "unexpected argument"@,
        ParseError::UnknownFlag => "unrecognized flag"@,
    }
}

impl ParseError {
    /// The one-line description of this refusal.
    pub fn describe(self) -> (r: &'static str)
        ensures
            r@ == error_text(self),
    {
        match self {
            ParseError::UnknownVerb => "unrecognized command",
            ParseError::UnknownSubcommand => "unrecognized subcommand",
            ParseError::MissingRequired => "a required argument was not provided",
            ParseError::InvalidValue => "invalid value for an argument",
            ParseError::UnexpectedArgument => "unexpected argument",
            ParseError::UnknownFlag => "unrecognized flag",
        }
    }
}

/// A top-level verb.
#[derive(Clone, Copy, Debug, PartialEq, Eq, Structural)]
pub enum Verb {
    Check,
    DirectVolume,
    Env,
    Exec,
    Factory,
    Iptables,
    Metrics,
    Version,
}

/// A command that takes no further subcommand: where parsing of flags and
/// positionals happens.
#[derive(Clone, Copy, Debug, PartialEq, Eq, Structural)]
pub enum Leaf {
    Check(CheckSubCommand),
    VolumeAdd,
    VolumeRemove,
    VolumeStats,
    VolumeResize,
    Env,
    Exec,
    Factory,
    IptablesGet,
    IptablesSet,
    Metrics(MetricsSubCommand),
    Version,
}

/// What a command line comes to: an invocation, a request for the help of
/// the scope named by the first `n` tokens, or a refusal.
pub enum Outcome {
    Run(Invocation),
    Help(nat),
    Failed(ParseError),
}

/// The debug console vport that `exec` uses unless one is given.
pub const DEFAULT_VPORT: u32 = 1026;

pub open spec fn is_help_token(t: Seq<char>) -> bool {
    t == "-h"@ || t == "--help"@
}

/// A token that reads as a flag: a dash and at least one more character.
pub open spec fn is_flag_token(t: Seq<char>) -> bool {
    t.len() >= 2 && t[0] == '-'
}

/// A token that reads as a long flag: two dashes first.
pub open spec fn is_long_token(t: Seq<char>) -> bool {
    t.len() >= 2 && t[0] == '-' && t[1] == '-'
}

pub open spec fn verb_named(t: Seq<char>) -> Option<Verb> {
    if t == "check"@ {
        Some(Verb::Check)
    } else if t == "direct-volume"@ {
        Some(Verb::DirectVolume)
    } else if t == "env"@ {
        Some(Verb::Env)
    } else if t == "exec"@ {
        Some(Verb::Exec)
    } else if t == "factory"@ {
        Some(Verb::Factory)
    } else if t == "iptables"@ {
        Some(Verb::Iptables)
    } else if t == "metrics"@ {
        Some(Verb::Metrics)
    } else if t == "version"@ {
        Some(Verb::Version)
    } else {
        None
    }
}

/// The leaf that a verb is by itself, for the verbs without subcommands.
pub open spec fn verb_leaf(v: Verb) -> Option<Leaf> {
    match v {
        Verb::Env => Some(Leaf::Env),
        Verb::Exec => Some(Leaf::Exec),
        Verb::Factory => Some(Leaf::Factory),
        Verb::Version => Some(Leaf::Version),
        _ => None,
    }
}

pub open spec fn subcommand_named(v: Verb, t: Seq<char>) -> Option<Leaf> {
    match v {
        Verb::Check => if t == "all"@ {
            Some(Leaf::Check(CheckSubCommand::All))
        } else if t == "no-network-checks"@ {
            Some(Leaf::Check(CheckSubCommand::NoNetworkChecks))
        } else if t == "check-version-only"@ {
            Some(Leaf::Check(CheckSubCommand::CheckVersionOnly))
        } else if t == "only-list-releases"@ {
            Some(Leaf::Check(CheckSubCommand::OnlyListReleases))
        } else if t == "include-all-releases"@ {
            Some(Leaf::Check(CheckSubCommand::IncludeAllReleases))
        } else if t == "list"@ {
            Some(Leaf::Check(CheckSubCommand::List))
        } else {
            None
        },
        Verb::DirectVolume => if t == "add"@ {
            Some(Leaf::VolumeAdd)
        } else if t == "remove"@ {
            Some(Leaf::VolumeRemove)
        } else if t == "stats"@ {
            Some(Leaf::VolumeStats)
        } else if t == "resize"@ {
            Some(Leaf::VolumeResize)
        } else {
            None
        },
        Verb::Iptables => if t == "get"@ {
            Some(Leaf::IptablesGet)
        } else if t == "set"@ {
            Some(Leaf::IptablesSet)
        } else {
            None
        },
        Verb::Metrics => if t == "metrics-args"@ {
            Some(Leaf::Metrics(MetricsSubCommand::MetricsArgs))
        } else {
            None
        },
        _ => None,
    }
}

/// The verb, and the subcommand where there is one, that name a leaf.
pub open spec fn leaf_path(leaf: Leaf) -> Seq<Seq<char>> {
    match leaf {
        Leaf::Check(c) => seq![
            "check"@,
            match c {
                CheckSubCommand::All => "all"@,
                CheckSubCommand::NoNetworkChecks => "no-network-checks"@,
                CheckSubCommand::CheckVersionOnly => "check-version-only"@,
                CheckSubCommand::OnlyListReleases => "only-list-releases"@,
                CheckSubCommand::IncludeAllReleases => "include-all-releases"@,
                CheckSubCommand::List => "list"@,
            },
        ],
        Leaf::VolumeAdd => seq!["direct-volume"@, "add"@],
        Leaf::VolumeRemove => seq!["direct-volume"@, "remove"@],
        Leaf::VolumeStats => seq!["direct-volume"@, "stats"@],
        Leaf::VolumeResize => seq!["direct-volume"@, "resize"@],
        Leaf::Env => seq!["env"@],
        Leaf::Exec => seq!["exec"@],
        Leaf::Factory => seq!["factory"@],
        Leaf::IptablesGet => seq!["iptables"@, "get"@],
        Leaf::IptablesSet => seq!["iptables"@, "set"@],
        Leaf::Metrics(m) => seq!["metrics"@, "metrics-args"@],
        Leaf::Version => seq!["version"@],
    }
}

/// The long name of the leaf's boolean flag, if it has one.
pub open spec fn switch_name(leaf: Leaf) -> Option<Seq<char>> {
    match leaf {
        Leaf::Env => Some("json"@),
        Leaf::IptablesGet | Leaf::IptablesSet => Some("v6"@),
        _ => None,
    }
}

/// The long name of the leaf's value-taking flag, if it has one.
pub open spec fn option_name(leaf: Leaf) -> Option<Seq<char>> {
    match leaf {
        Leaf::Env => Some("file"@),
        Leaf::Exec => Some("kata-debug-port"@),
        Leaf::IptablesGet | Leaf::IptablesSet => Some("sand-box"@),
        _ => None,
    }
}

/// The short name of the leaf's value-taking flag, if it has one.
pub open spec fn option_short(leaf: Leaf) -> Option<char> {
    match leaf {
        Leaf::Env => Some('f'),
        Leaf::Exec => Some('p'),
        _ => None,
    }
}

/// Whether the leaf's value-taking flag must be given.
pub open spec fn option_required(leaf: Leaf) -> bool {
    leaf == Leaf::IptablesGet || leaf == Leaf::IptablesSet
}

/// How many positionals the leaf takes; all of them are required.
pub open spec fn positional_count(leaf: Leaf) -> nat {
    match leaf {
        Leaf::VolumeAdd | Leaf::VolumeResize => 2,
        Leaf::VolumeRemove | Leaf::VolumeStats | Leaf::Exec | Leaf::IptablesSet => 1,
        _ => 0,
    }
}

/// The position of the first `=` in `s` at or after `i`, or the length of `s`.
pub open spec fn first_eq_from(s: Seq<char>, i: int) -> int
    decreases s.len() - i,
{
    if i >= s.len() {
        s.len() as int
    } else if s[i] == '=' {
        i
    } else {
        first_eq_from(s, i + 1)
    }
}

/// The position that `first_eq_from` finds lies between `i` and the length.
pub proof fn lemma_first_eq_bound(s: Seq<char>, i: int)
    requires
        0 <= i,
    ensures
        first_eq_from(s, i) <= s.len(),
        first_eq_from(s, i) >= i || i > s.len(),
    decreases s.len() - i,
{
    if i < s.len() && s[i] != '=' {
        lemma_first_eq_bound(s, i + 1);
    }
}

/// What has been read of a leaf's tokens so far.
pub struct Scan {
    pub switch: bool,
    pub value: Option<Seq<char>>,
    pub positionals: Seq<Seq<char>>,
}

pub open spec fn empty_scan() -> Scan {
    Scan { switch: false, value: None, positionals: Seq::empty() }
}

pub open spec fn run(inv: Invocation) -> Outcome {
    Outcome::Run(inv)
}

pub open spec fn fail(e: ParseError) -> Outcome {
    Outcome::Failed(e)
}

/// A text parameter: any non-empty text.
pub open spec fn text_ok(t: Seq<char>) -> bool {
    t.len() > 0
}

/// The invocation that a leaf and its read tokens make, once every required
/// flag and positional is there: each value is converted to its type.
pub open spec fn build(leaf: Leaf, st: Scan) -> Outcome {
    let p = st.positionals;
    match leaf {
        Leaf::Check(c) => run(Invocation::Check(c)),
        Leaf::Factory => run(Invocation::Factory),
        Leaf::Metrics(m) => run(Invocation::Metrics(m)),
        Leaf::Version => run(Invocation::Version),
        Leaf::Env => match st.value {
            None => run(Invocation::Env { json: st.switch, file: None }),
            Some(f) => if text_ok(f) {
                run(Invocation::Env { json: st.switch, file: Some(f) })
            } else {
                fail(ParseError::InvalidValue)
            },
        },
        Leaf::Exec => if !text_ok(p[0]) {
            fail(ParseError::InvalidValue)
        } else {
            match st.value {
                None => run(Invocation::Exec { sandbox_id: p[0], vport: DEFAULT_VPORT }),
                Some(t) => match number_within(t, u32::MAX as nat) {
                    Some(n) => run(Invocation::Exec { sandbox_id: p[0], vport: n as u32 }),
                    None => fail(ParseError::InvalidValue),
                },
            }
        },
        Leaf::VolumeAdd => if text_ok(p[0]) && text_ok(p[1]) {
            run(Invocation::VolumeAdd { volume_path: p[0], mount_info: p[1] })
        } else {
            fail(ParseError::InvalidValue)
        },
        Leaf::VolumeRemove => if text_ok(p[0]) {
            run(Invocation::VolumeRemove { volume_path: p[0] })
        } else {
            fail(ParseError::InvalidValue)
        },
        Leaf::VolumeStats => if text_ok(p[0]) {
            run(Invocation::VolumeStats { volume_path: p[0] })
        } else {
            fail(ParseError::InvalidValue)
        },
        Leaf::VolumeResize => if !text_ok(p[0]) {
            fail(ParseError::InvalidValue)
        } else {
            match number_within(p[1], u64::MAX as nat) {
                Some(n) => run(Invocation::VolumeResize { volume_path: p[0], resize_size: n as u64 }),
                None => fail(ParseError::InvalidValue),
            }
        },
        Leaf::IptablesGet => {
            let id = st.value.unwrap();
            if text_ok(id) {
                run(Invocation::IptablesGet { sandbox_id: id, v6: st.switch })
            } else {
                fail(ParseError::InvalidValue)
            }
        },
        Leaf::IptablesSet => {
            let id = st.value.unwrap();
            if text_ok(id) && text_ok(p[0]) {
                run(Invocation::IptablesSet { sandbox_id: id, v6: st.switch, file: p[0] })
            } else {
                fail(ParseError::InvalidValue)
            }
        },
    }
}

/// The outcome once all of a leaf's tokens are read: a missing positional or
/// required flag first, then the conversion of each value.
pub open spec fn finish(leaf: Leaf, st: Scan) -> Outcome {
    if st.positionals.len() < positional_count(leaf) {
        fail(ParseError::MissingRequired)
    } else if option_required(leaf) && st.value is None {
        fail(ParseError::MissingRequired)
    } else {
        build(leaf, st)
    }
}

/// Reads the tokens of the leaf whose scope is named by the first `scope`
/// tokens, from token `i` on, left to right: a help flag ends the reading
/// with the leaf's help, the first refused token ends it with a failure.
pub open spec fn scan(leaf: Leaf, toks: Seq<Seq<char>>, scope: nat, i: int, st: Scan) -> Outcome
    decreases toks.len() - i,
{
    if i < 0 || i >= toks.len() {
        finish(leaf, st)
    } else {
        let t = toks[i];
        if is_help_token(t) {
            Outcome::Help(scope)
        } else if is_long_token(t) {
            let body = t.skip(2);
            let k = first_eq_from(body, 0);
            let name = body.take(k);
            if switch_name(leaf) == Some(name) {
                if k < body.len() {
                    fail(ParseError::UnexpectedArgument)
                } else {
                    scan(leaf, toks, scope, i + 1, Scan { switch: true, ..st })
                }
            } else if option_name(leaf) == Some(name) {
                if k < body.len() {
                    scan(leaf, toks, scope, i + 1, Scan { value: Some(body.skip(k + 1)), ..st })
                } else if i + 1 < toks.len() {
                    scan(leaf, toks, scope, i + 2, Scan { value: Some(toks[i + 1]), ..st })
                } else {
                    fail(ParseError::MissingRequired)
                }
            } else {
                fail(ParseError::UnknownFlag)
            }
        } else if is_flag_token(t) {
            if t.len() == 2 && option_short(leaf) == Some(t[1]) {
                if i + 1 < toks.len() {
                    scan(leaf, toks, scope, i + 2, Scan { value: Some(toks[i + 1]), ..st })
                } else {
                    fail(ParseError::MissingRequired)
                }
            } else {
                fail(ParseError::UnknownFlag)
            }
        } else if st.positionals.len() < positional_count(leaf) {
            scan(leaf, toks, scope, i + 1, Scan { positionals: st.positionals.push(t), ..st })
        } else {
            fail(ParseError::UnexpectedArgument)
        }
    }
}

/// The outcome owed to a whole command line (without the program name).
pub open spec fn parse_model(toks: Seq<Seq<char>>) -> Outcome {
    if toks.len() == 0 || is_help_token(toks[0]) {
        Outcome::Help(0)
    } else if is_flag_token(toks[0]) {
        fail(ParseError::UnknownFlag)
    } else {
        match verb_named(toks[0]) {
            None => fail(ParseError::UnknownVerb),
            Some(v) => match verb_leaf(v) {
                Some(leaf) => scan(leaf, toks, 1, 1, empty_scan()),
                None => if toks.len() == 1 {
                    fail(ParseError::MissingRequired)
                } else if is_help_token(toks[1]) {
                    Outcome::Help(1)
                } else if is_flag_token(toks[1]) {
                    fail(ParseError::UnknownFlag)
                } else {
                    match subcommand_named(v, toks[1]) {
                        None => fail(ParseError::UnknownSubcommand),
                        Some(leaf) => scan(leaf, toks, 2, 2, empty_scan()),
                    }
                },
            },
        }
    }
}


pub fn is_help(t: &str) -> (r: bool)
    ensures
        r == is_help_token(t@),
{
    same_text(t, "-h") || same_text(t, "--help")
}

pub fn verb_of(t: &str) -> (r: Option<Verb>)
    ensures
        r == verb_named(t@),
{
    if same_text(t, "check") {
        Some(Verb::Check)
    } else if same_text(t, "direct-volume") {
        Some(Verb::DirectVolume)
    } else if same_text(t, "env") {
        Some(Verb::Env)
    } else if same_text(t, "exec") {
        Some(Verb::Exec)
    } else if same_text(t, "factory") {
        Some(Verb::Factory)
    } else if same_text(t, "iptables") {
        Some(Verb::Iptables)
    } else if same_text(t, "metrics") {
        Some(Verb::Metrics)
    } else if same_text(t, "version") {
        Some(Verb::Version)
    } else {
        None
    }
}

impl Verb {
    /// The leaf that this verb is by itself, unless it takes a subcommand.
    pub fn leaf(self) -> (r: Option<Leaf>)
        ensures
            r == verb_leaf(self),
    {
        match self {
            Verb::Env => Some(Leaf::Env),
            Verb::Exec => Some(Leaf::Exec),
            Verb::Factory => Some(Leaf::Factory),
            Verb::Version => Some(Leaf::Version),
            _ => None,
        }
    }

    /// The leaf that `t` names as a subcommand of this verb.
    pub fn subcommand(self, t: &str) -> (r: Option<Leaf>)
        ensures
            r == subcommand_named(self, t@),
    {
        match self {
            Verb::Check => if same_text(t, "all") {
                Some(Leaf::Check(CheckSubCommand::All))
            } else if same_text(t, "no-network-checks") {
                Some(Leaf::Check(CheckSubCommand::NoNetworkChecks))
            } else if same_text(t, "check-version-only") {
                Some(Leaf::Check(CheckSubCommand::CheckVersionOnly))
            } else if same_text(t, "only-list-releases") {
                Some(Leaf::Check(CheckSubCommand::OnlyListReleases))
            } else if same_text(t, "include-all-releases") {
                Some(Leaf::Check(CheckSubCommand::IncludeAllReleases))
            } else if same_text(t, "list") {
                Some(Leaf::Check(CheckSubCommand::List))
            } else {
                None
            },
            Verb::DirectVolume => if same_text(t, "add") {
                Some(Leaf::VolumeAdd)
            } else if same_text(t, "remove") {
                Some(Leaf::VolumeRemove)
            } else if same_text(t, "stats") {
                Some(Leaf::VolumeStats)
            } else if same_text(t, "resize") {
                Some(Leaf::VolumeResize)
            } else {
                None
            },
            Verb::Iptables => if same_text(t, "get") {
                Some(Leaf::IptablesGet)
            } else if same_text(t, "set") {
                Some(Leaf::IptablesSet)
            } else {
                None
            },
            Verb::Metrics => if same_text(t, "metrics-args") {
                Some(Leaf::Metrics(MetricsSubCommand::MetricsArgs))
            } else {
                None
            },
            _ => None,
        }
    }
}

impl Leaf {
    /// Whether `name` is the long name of this leaf's boolean flag.
    pub fn is_switch(self, name: &str) -> (r: bool)
        ensures
            r == (switch_name(self) == Some(name@)),
    {
        match self {
            Leaf::Env => same_text(name, "json"),
            Leaf::IptablesGet | Leaf::IptablesSet => same_text(name, "v6"),
            _ => false,
        }
    }

    /// Whether `name` is the long name of this leaf's value-taking flag.
    pub fn is_option(self, name: &str) -> (r: bool)
        ensures
            r == (option_name(self) == Some(name@)),
    {
        match self {
            Leaf::Env => same_text(name, "file"),
            Leaf::Exec => same_text(name, "kata-debug-port"),
            Leaf::IptablesGet | Leaf::IptablesSet => same_text(name, "sand-box"),
            _ => false,
        }
    }

    /// Whether `c` is the short name of this leaf's value-taking flag.
    pub fn is_option_short(self, c: char) -> (r: bool)
        ensures
            r == (option_short(self) == Some(c)),
    {
        match self {
            Leaf::Env => c == 'f',
            Leaf::Exec => c == 'p',
            _ => false,
        }
    }

    pub fn option_required(self) -> (r: bool)
        ensures
            r == option_required(self),
    {
        match self {
            Leaf::IptablesGet | Leaf::IptablesSet => true,
            _ => false,
        }
    }

    pub fn positional_count(self) -> (r: usize)
        ensures
            r == positional_count(self),
    {
        match self {
            Leaf::VolumeAdd | Leaf::VolumeResize => 2,
            Leaf::VolumeRemove | Leaf::VolumeStats | Leaf::Exec | Leaf::IptablesSet => 1,
            _ => 0,
        }
    }
}

} // verus!
