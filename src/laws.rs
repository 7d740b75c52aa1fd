//! Properties of the grammar that hold of every command line.
use vstd::prelude::*;
use crate::cli::Invocation;
use crate::parse::tokens;
use crate::grammar::{
    build, empty_scan, finish, first_eq_from, is_flag_token, is_help_token, is_long_token,
    leaf_path, lemma_first_eq_bound, option_name, option_short, parse_model, positional_count,
    scan, subcommand_named, switch_name, verb_leaf, verb_named, Leaf, Scan, DEFAULT_VPORT,
};

verus! {

/// The leaf command that an invocation comes from.
pub open spec fn invocation_leaf(inv: Invocation) -> Leaf {
    match inv {
        Invocation::Check(c) => Leaf::Check(c),
        Invocation::VolumeAdd { .. } => Leaf::VolumeAdd,
        Invocation::VolumeRemove { .. } => Leaf::VolumeRemove,
        Invocation::VolumeStats { .. } => Leaf::VolumeStats,
        Invocation::VolumeResize { .. } => Leaf::VolumeResize,
        Invocation::Env { .. } => Leaf::Env,
        Invocation::Exec { .. } => Leaf::Exec,
        Invocation::Factory => Leaf::Factory,
        Invocation::IptablesGet { .. } => Leaf::IptablesGet,
        Invocation::IptablesSet { .. } => Leaf::IptablesSet,
        Invocation::Metrics(m) => Leaf::Metrics(m),
        Invocation::Version => Leaf::Version,
    }
}

/// The tag of an invocation, as the words that name it on the command line.
pub open spec fn command_path(inv: Invocation) -> Seq<Seq<char>> {
    leaf_path(invocation_leaf(inv))
}

/// Every required text parameter of the invocation is non-empty.
pub open spec fn required_present(inv: Invocation) -> bool {
    match inv {
        Invocation::VolumeAdd { volume_path, mount_info } => volume_path.len() > 0
            && mount_info.len() > 0,
        Invocation::VolumeRemove { volume_path } => volume_path.len() > 0,
        Invocation::VolumeStats { volume_path } => volume_path.len() > 0,
        Invocation::VolumeResize { volume_path, .. } => volume_path.len() > 0,
        Invocation::Exec { sandbox_id, .. } => sandbox_id.len() > 0,
        Invocation::IptablesGet { sandbox_id, .. } => sandbox_id.len() > 0,
        Invocation::IptablesSet { sandbox_id, file, .. } => sandbox_id.len() > 0 && file.len()
            > 0,
        _ => true,
    }
}

/// The invocation's boolean flag is on.
pub open spec fn switch_set(inv: Invocation) -> bool {
    match inv {
        Invocation::Env { json, .. } => json,
        Invocation::IptablesGet { v6, .. } => v6,
        Invocation::IptablesSet { v6, .. } => v6,
        _ => false,
    }
}

/// The invocation's optional value-taking flag holds its default.
pub open spec fn option_defaulted(inv: Invocation) -> bool {
    match inv {
        Invocation::Env { file, .. } => file is None,
        Invocation::Exec { vport, .. } => vport == DEFAULT_VPORT,
        _ => true,
    }
}

/// `--` followed by a flag's long name.
pub open spec fn long_flag(name: Seq<char>) -> Seq<char> {
    seq!['-', '-'] + name
}

/// Some token from position `i` on begins with `flag`.
pub open spec fn mentions(toks: Seq<Seq<char>>, i: int, flag: Seq<char>) -> bool {
    exists|j: int|
        i <= j < toks.len() && #[trigger] toks[j].len() >= flag.len() && toks[j].take(
            flag.len() as int,
        ) == flag
}

pub open spec fn switch_mentioned(leaf: Leaf, toks: Seq<Seq<char>>, i: int) -> bool {
    match switch_name(leaf) {
        Some(n) => mentions(toks, i, long_flag(n)),
        None => false,
    }
}

pub open spec fn option_mentioned(leaf: Leaf, toks: Seq<Seq<char>>, i: int) -> bool {
    (match option_name(leaf) {
        Some(n) => mentions(toks, i, long_flag(n)),
        None => false,
    }) || (match option_short(leaf) {
        Some(c) => mentions(toks, i, seq!['-', c]),
        None => false,
    })
}

/// What reading a leaf's tokens can end in: help for the leaf's own scope,
/// a failure, or an invocation of that leaf whose required text is present
/// and whose flags hold their defaults where no token names them.
proof fn lemma_scan(leaf: Leaf, toks: Seq<Seq<char>>, scope: nat, i: int, st: Scan)
    requires
        0 <= i,
    ensures
        scan(leaf, toks, scope, i, st) is Help ==> scan(leaf, toks, scope, i, st)->Help_0 == scope
            && i < toks.len(),
        scan(leaf, toks, scope, i, st) is Run ==> {
            let inv = scan(leaf, toks, scope, i, st)->Run_0;
            &&& invocation_leaf(inv) == leaf
            &&& required_present(inv)
            &&& !st.switch && !switch_mentioned(leaf, toks, i) ==> !switch_set(inv)
            &&& st.value is None && !option_mentioned(leaf, toks, i) ==> option_defaulted(inv)
        },
    decreases toks.len() - i,
{
    if i >= toks.len() {
        assert(finish(leaf, st) is Run ==> build(leaf, st) == finish(leaf, st));
        return;
    }
    let t = toks[i];
    if is_help_token(t) {
        return;
    }
    if is_long_token(t) {
        let body = t.skip(2);
        let k = first_eq_from(body, 0);
        lemma_first_eq_bound(body, 0);
        let name = body.take(k);
        assert(t.take(2 + k) =~= long_flag(name)) by {
            assert forall|j: int| 0 <= j < 2 + k implies t.take(2 + k)[j] == long_flag(name)[j] by {
                if j >= 2 {
                    assert(body[j - 2] == t[j]);
                }
            }
        }
        assert(toks[i].len() >= long_flag(name).len());
        if switch_name(leaf) == Some(name) {
            if k >= body.len() {
                let st2 = Scan { switch: true, ..st };
                lemma_scan(leaf, toks, scope, i + 1, st2);
                assert(switch_mentioned(leaf, toks, i));
            }
        } else if option_name(leaf) == Some(name) {
            assert(option_mentioned(leaf, toks, i));
            if k < body.len() {
                let st2 = Scan { value: Some(body.skip(k + 1)), ..st };
                lemma_scan(leaf, toks, scope, i + 1, st2);
                assert(switch_mentioned(leaf, toks, i + 1) ==> switch_mentioned(leaf, toks, i));
            } else if i + 1 < toks.len() {
                let st2 = Scan { value: Some(toks[i + 1]), ..st };
                lemma_scan(leaf, toks, scope, i + 2, st2);
                assert(switch_mentioned(leaf, toks, i + 2) ==> switch_mentioned(leaf, toks, i));
            }
        }
    } else if is_flag_token(t) {
        if t.len() == 2 && option_short(leaf) == Some(t[1]) {
            assert(t.take(2) =~= seq!['-', t[1]]);
            assert(option_mentioned(leaf, toks, i));
            if i + 1 < toks.len() {
                let st2 = Scan { value: Some(toks[i + 1]), ..st };
                lemma_scan(leaf, toks, scope, i + 2, st2);
                assert(switch_mentioned(leaf, toks, i + 2) ==> switch_mentioned(leaf, toks, i));
            }
        }
    } else if st.positionals.len() < positional_count(leaf) {
        let st2 = Scan { positionals: st.positionals.push(t), ..st };
        lemma_scan(leaf, toks, scope, i + 1, st2);
        assert(switch_mentioned(leaf, toks, i + 1) ==> switch_mentioned(leaf, toks, i));
        assert(option_mentioned(leaf, toks, i + 1) ==> option_mentioned(leaf, toks, i));
    }
}


/// The facts of `lemma_scan` for a whole command line that parses to an
/// invocation, with the leaf's name read off its first tokens.
proof fn lemma_parse_run(toks: Seq<Seq<char>>)
    requires
        parse_model(toks) is Run,
    ensures
        ({
            let inv = parse_model(toks)->Run_0;
            let leaf = invocation_leaf(inv);
            &&& leaf_path(leaf).len() <= toks.len()
            &&& toks.take(leaf_path(leaf).len() as int) == leaf_path(leaf)
            &&& required_present(inv)
            &&& !switch_mentioned(leaf, toks, 0) ==> !switch_set(inv)
            &&& !option_mentioned(leaf, toks, 0) ==> option_defaulted(inv)
        }),
{
    let v = verb_named(toks[0]).unwrap();
    match verb_leaf(v) {
        Some(leaf) => {
            lemma_scan(leaf, toks, 1, 1, empty_scan());
            assert(toks.take(1) =~= seq![toks[0]]);
        },
        None => {
            let leaf = subcommand_named(v, toks[1]).unwrap();
            lemma_scan(leaf, toks, 2, 2, empty_scan());
            assert(toks.take(2) =~= seq![toks[0], toks[1]]);
        },
    }
}

/// Parsing depends on the tokens alone: two command lines with the same
/// tokens come to the same outcome.
pub proof fn parse_deterministic(a: Seq<String>, b: Seq<String>)
    requires
        tokens(a) == tokens(b),
    ensures
        parse_model(tokens(a)) == parse_model(tokens(b)),
{
}

/// Every command line comes to exactly one of an invocation, a help request
/// or a failure. A help request names a scope of at most a verb and a
/// subcommand, all of them tokens of the line, and an invocation carries
/// every required parameter.
pub proof fn parse_total(toks: Seq<Seq<char>>)
    ensures
        parse_model(toks) is Run || parse_model(toks) is Help || parse_model(toks) is Failed,
        !(parse_model(toks) is Run && parse_model(toks) is Help),
        !(parse_model(toks) is Run && parse_model(toks) is Failed),
        !(parse_model(toks) is Help && parse_model(toks) is Failed),
        parse_model(toks) is Help ==> parse_model(toks)->Help_0 <= toks.len()
            && parse_model(toks)->Help_0 <= 2,
        parse_model(toks) is Run ==> required_present(parse_model(toks)->Run_0),
{
    if toks.len() > 0 && !is_help_token(toks[0]) && !is_flag_token(toks[0]) {
        if let Some(v) = verb_named(toks[0]) {
            match verb_leaf(v) {
                Some(leaf) => lemma_scan(leaf, toks, 1, 1, empty_scan()),
                None => if toks.len() > 1 && !is_help_token(toks[1]) && !is_flag_token(toks[1]) {
                    if let Some(leaf) = subcommand_named(v, toks[1]) {
                        lemma_scan(leaf, toks, 2, 2, empty_scan());
                    }
                },
            }
        }
    }
    if parse_model(toks) is Run {
        lemma_parse_run(toks);
    }
}

/// In every invocation that a command line parses to, each required text
/// parameter (a path, a sandbox id, a rules file) is present and non-empty.
pub proof fn parse_required_present(toks: Seq<Seq<char>>)
    requires
        parse_model(toks) is Run,
    ensures
        required_present(parse_model(toks)->Run_0),
{
    lemma_parse_run(toks);
}

/// An optional flag that no token names holds its default: `--json` and
/// `--v6` are off, `--file` is unset and the `exec` port is the default one.
/// A token names a flag where it begins with `--` and the flag's long name,
/// or with `-` and its short name.
pub proof fn parse_defaults(toks: Seq<Seq<char>>)
    requires
        parse_model(toks) is Run,
    ensures
        ({
            let inv = parse_model(toks)->Run_0;
            &&& !switch_mentioned(invocation_leaf(inv), toks, 0) ==> !switch_set(inv)
            &&& !option_mentioned(invocation_leaf(inv), toks, 0) ==> option_defaulted(inv)
        }),
{
    lemma_parse_run(toks);
}

/// The tag of a parsed invocation, spelled as verb and subcommand, is the
/// command line's own first tokens.
pub proof fn parse_path_round_trip(toks: Seq<Seq<char>>)
    requires
        parse_model(toks) is Run,
    ensures
        command_path(parse_model(toks)->Run_0).len() <= toks.len(),
        toks.take(command_path(parse_model(toks)->Run_0).len() as int) == command_path(
            parse_model(toks)->Run_0,
        ),
{
    lemma_parse_run(toks);
}

} // verus!
