//! Help text of each scope, and the hint that goes with a refusal.
use vstd::prelude::*;
use crate::cli::CheckSubCommand;
use crate::grammar::{leaf_path, subcommand_named, verb_leaf, verb_named, verb_of, Leaf, Verb};
use crate::parse::tokens;

verus! {

/// The command scope whose help is shown: the whole tool, a verb that takes
/// subcommands, or a leaf command.
#[derive(Clone, Copy, Debug, PartialEq, Eq, Structural)]
pub enum HelpScope {
    Top,
    Verb(Verb),
    Leaf(Leaf),
}

/// The deepest scope that the first `n` tokens name.
pub open spec fn help_scope(toks: Seq<Seq<char>>, n: nat) -> HelpScope {
    if n == 0 || toks.len() == 0 {
        HelpScope::Top
    } else {
        match verb_named(toks[0]) {
            None => HelpScope::Top,
            Some(v) => match verb_leaf(v) {
                Some(l) => HelpScope::Leaf(l),
                None => if n >= 2 && toks.len() >= 2 {
                    match subcommand_named(v, toks[1]) {
                        Some(l) => HelpScope::Leaf(l),
                        None => HelpScope::Verb(v),
                    }
                } else {
                    HelpScope::Verb(v)
                },
            },
        }
    }
}

pub open spec fn verb_word(v: Verb) -> Seq<char> {
    match v {
        Verb::Check => "check"@,
        Verb::DirectVolume => "direct-volume"@,
        Verb::Env => "env"@,
        Verb::Exec => "exec"@,
        Verb::Factory => "factory"@,
        Verb::Iptables => "iptables"@,
        Verb::Metrics => "metrics"@,
        Verb::Version => "version"@,
    }
}

/// The words that name a scope on the command line.
pub open spec fn scope_words(scope: HelpScope) -> Seq<Seq<char>> {
    match scope {
        HelpScope::Top => Seq::empty(),
        HelpScope::Verb(v) => seq![verb_word(v)],
        HelpScope::Leaf(l) => leaf_path(l),
    }
}

/// What follows the scope's words on its usage line.
pub open spec fn usage_tail(scope: HelpScope) -> Seq<char> {
    match scope {
        HelpScope::Leaf(l) => match l {
            Leaf::VolumeAdd => " <VOLUME_PATH> <MOUNT_INFO>"@,
            Leaf::VolumeRemove | Leaf::VolumeStats => " <VOLUME_PATH>"@,
            Leaf::VolumeResize => " <VOLUME_PATH> <RESIZE_SIZE>"@,
            Leaf::Env => " [OPTIONS]"@,
            Leaf::Exec => " [OPTIONS] <SANDBOX_ID>"@,
            Leaf::IptablesGet => " [OPTIONS] --sand-box <ID>"@,
            Leaf::IptablesSet => " [OPTIONS] --sand-box <ID> <FILE>"@,
            _ => Seq::empty(),
        },
        _ => " <COMMAND>"@,
    }
}

pub open spec fn heading(scope: HelpScope) -> Seq<char> {
    match scope {
        HelpScope::Leaf(_) => "Arguments:"@,
        _ => "Commands:"@,
    }
}

/// The entries of a scope's help: what is typed, and what it does.
pub open spec fn entries(scope: HelpScope) -> Seq<(Seq<char>, Seq<char>)> {
    let listed: Seq<(Seq<char>, Seq<char>)> = match scope {
        HelpScope::Top => seq![
            ("check"@, "Test if system can run Kata Containers"@),
            ("direct-volume"@, "Directly assign a volume to Kata Containers to manage"@),
            ("env"@, "Display settings"@),
            ("exec"@, "Enter into guest VM by debug console"@),
            ("factory"@, "Manage VM factory"@),
            ("iptables"@, "Manage guest VM iptables"@),
            ("metrics"@, "Gather metrics associated with infrastructure used to run a sandbox"@),
            ("version"@, "Display version details"@),
        ],
        HelpScope::Verb(Verb::Check) => seq![
            ("all"@, "Run all checks"@),
            ("no-network-checks"@, "Run all checks but excluding network checks"@),
            ("check-version-only"@, "Only compare the current and latest available versions"@),
            ("only-list-releases"@, "List official release packages"@),
            ("include-all-releases"@, "List all official and pre-release packages"@),
            ("list"@, "List all available checks"@),
        ],
        HelpScope::Verb(Verb::DirectVolume) => seq![
            ("add"@, "Add a direct assigned block volume device to the Kata Containers runtime"@),
            ("remove"@, "Remove a direct assigned block volume device from the Kata Containers runtime"@),
            ("stats"@, "Get the filesystem stat of a direct assigned volume"@),
            ("resize"@, "Resize a direct assigned block volume"@),
        ],
        HelpScope::Verb(Verb::Iptables) => seq![
            ("get"@, "Get iptables from the Kata Containers guest"@),
            ("set"@, "Set iptables of the Kata Containers guest from a file"@),
        ],
        HelpScope::Verb(Verb::Metrics) => seq![("metrics-args"@, "Arguments for metrics"@)],
        HelpScope::Leaf(Leaf::VolumeAdd) => seq![
            ("<VOLUME_PATH>"@, "Path of the volume"@),
            ("<MOUNT_INFO>"@, "Mount information of the volume"@),
        ],
        HelpScope::Leaf(Leaf::VolumeRemove) => seq![("<VOLUME_PATH>"@, "Path of the volume"@)],
        HelpScope::Leaf(Leaf::VolumeStats) => seq![("<VOLUME_PATH>"@, "Path of the volume"@)],
        HelpScope::Leaf(Leaf::VolumeResize) => seq![
            ("<VOLUME_PATH>"@, "Path of the volume"@),
            ("<RESIZE_SIZE>"@, "New size of the volume in bytes"@),
        ],
        HelpScope::Leaf(Leaf::Env) => seq![
            ("--json"@, "Format output as JSON"@),
            ("-f, --file <FILE>"@, "File to write env output to"@),
        ],
        HelpScope::Leaf(Leaf::Exec) => seq![
            ("<SANDBOX_ID>"@, "pod sandbox ID"@),
            ("-p, --kata-debug-port <VPORT>"@, "debug console vport, 1026 by default"@),
        ],
        HelpScope::Leaf(Leaf::IptablesGet) => seq![
            ("--sand-box <ID>"@, "The target sandbox for getting the iptables"@),
            ("--v6"@, "Indicate we're requesting ipv6 iptables"@),
        ],
        HelpScope::Leaf(Leaf::IptablesSet) => seq![
            ("--sand-box <ID>"@, "The target sandbox for setting the iptables"@),
            ("--v6"@, "Indicate we're requesting ipv6 iptables"@),
            ("<FILE>"@, "The iptables file to set"@),
        ],
        _ => Seq::empty(),
    };
    listed.push(("-h, --help"@, "Print help information"@))
}

/// Each word preceded by a space.
pub open spec fn joined(words: Seq<Seq<char>>) -> Seq<char>
    decreases words.len(),
{
    if words.len() == 0 {
        Seq::empty()
    } else {
        joined(words.drop_last()) + " "@ + words.last()
    }
}

/// One indented line per entry.
pub open spec fn listing(es: Seq<(Seq<char>, Seq<char>)>) -> Seq<char>
    decreases es.len(),
{
    if es.len() == 0 {
        Seq::empty()
    } else {
        listing(es.drop_last()) + "  "@ + es.last().0 + "    "@ + es.last().1 + "\n"@
    }
}

/// The help text of a scope: its usage line, then its entries.
pub open spec fn help_model(scope: HelpScope) -> Seq<char> {
    "Usage: kata-ctl"@ + joined(scope_words(scope)) + usage_tail(scope) + "\n\n"@ + heading(scope)
        + "\n"@ + listing(entries(scope))
}

/// The command that shows a scope's help.
pub open spec fn hint_model(scope: HelpScope) -> Seq<char> {
    "kata-ctl"@ + joined(scope_words(scope)) + " --help"@
}

pub open spec fn texts(v: Seq<&str>) -> Seq<Seq<char>> {
    v.map_values(|w: &str| w@)
}

pub open spec fn pairs(v: Seq<(&str, &str)>) -> Seq<(Seq<char>, Seq<char>)> {
    v.map_values(|e: (&str, &str)| (e.0@, e.1@))
}

/// The deepest scope that the first `n` tokens of a command line name.
pub fn help_scope_of(args: &Vec<String>, n: usize) -> (r: HelpScope)
    ensures
        r == help_scope(tokens(args@), n as nat),
{
    let ghost toks = tokens(args@);
    if n == 0 || args.len() == 0 {
        return HelpScope::Top;
    }
    assert(toks[0] == args@[0]@);
    match verb_of(args[0].as_str()) {
        None => HelpScope::Top,
        Some(v) => match v.leaf() {
            Some(l) => HelpScope::Leaf(l),
            None => if n >= 2 && args.len() >= 2 {
                assert(toks[1] == args@[1]@);
                match v.subcommand(args[1].as_str()) {
                    Some(l) => HelpScope::Leaf(l),
                    None => HelpScope::Verb(v),
                }
            } else {
                HelpScope::Verb(v)
            },
        },
    }
}


fn add_entry(v: &mut Vec<(&'static str, &'static str)>, name: &'static str, about: &'static str)
    ensures
        pairs(final(v)@) == pairs(old(v)@).push((name@, about@)),
{
    v.push((name, about));
    assert(pairs(v@) =~= pairs(old(v)@).push((name@, about@)));
}

fn add_word(v: &mut Vec<&'static str>, w: &'static str)
    ensures
        texts(final(v)@) == texts(old(v)@).push(w@),
{
    v.push(w);
    assert(texts(v@) =~= texts(old(v)@).push(w@));
}

fn verb_word_of(v: Verb) -> (r: &'static str)
    ensures
        r@ == verb_word(v),
{
    match v {
        Verb::Check => "check",
        Verb::DirectVolume => "direct-volume",
        Verb::Env => "env",
        Verb::Exec => "exec",
        Verb::Factory => "factory",
        Verb::Iptables => "iptables",
        Verb::Metrics => "metrics",
        Verb::Version => "version",
    }
}

fn scope_words_of(scope: HelpScope) -> (r: Vec<&'static str>)
    ensures
        texts(r@) == scope_words(scope),
{
    let mut w: Vec<&'static str> = Vec::new();
    assert(texts(w@) =~= Seq::<Seq<char>>::empty());
    match scope {
        HelpScope::Top => {},
        HelpScope::Verb(v) => add_word(&mut w, verb_word_of(v)),
        HelpScope::Leaf(l) => match l {
            Leaf::Check(c) => {
                add_word(&mut w, "check");
                add_word(
                    &mut w,
                    match c {
                        CheckSubCommand::All => "all",
                        CheckSubCommand::NoNetworkChecks => "no-network-checks",
                        CheckSubCommand::CheckVersionOnly => "check-version-only",
                        CheckSubCommand::OnlyListReleases => "only-list-releases",
                        CheckSubCommand::IncludeAllReleases => "include-all-releases",
                        CheckSubCommand::List => "list",
                    },
                );
            },
            Leaf::VolumeAdd => {
                add_word(&mut w, "direct-volume");
                add_word(&mut w, "add");
            },
            Leaf::VolumeRemove => {
                add_word(&mut w, "direct-volume");
                add_word(&mut w, "remove");
            },
            Leaf::VolumeStats => {
                add_word(&mut w, "direct-volume");
                add_word(&mut w, "stats");
            },
            Leaf::VolumeResize => {
                add_word(&mut w, "direct-volume");
                add_word(&mut w, "resize");
            },
            Leaf::Env => add_word(&mut w, "env"),
            Leaf::Exec => add_word(&mut w, "exec"),
            Leaf::Factory => add_word(&mut w, "factory"),
            Leaf::IptablesGet => {
                add_word(&mut w, "iptables");
                add_word(&mut w, "get");
            },
            Leaf::IptablesSet => {
                add_word(&mut w, "iptables");
                add_word(&mut w, "set");
            },
            Leaf::Metrics(_) => {
                add_word(&mut w, "metrics");
                add_word(&mut w, "metrics-args");
            },
            Leaf::Version => add_word(&mut w, "version"),
        },
    }
    w
}

fn usage_tail_of(scope: HelpScope) -> (r: &'static str)
    ensures
        r@ == usage_tail(scope),
{
    match scope {
        HelpScope::Leaf(l) => match l {
            Leaf::VolumeAdd => " <VOLUME_PATH> <MOUNT_INFO>",
            Leaf::VolumeRemove | Leaf::VolumeStats => " <VOLUME_PATH>",
            Leaf::VolumeResize => " <VOLUME_PATH> <RESIZE_SIZE>",
            Leaf::Env => " [OPTIONS]",
            Leaf::Exec => " [OPTIONS] <SANDBOX_ID>",
            Leaf::IptablesGet => " [OPTIONS] --sand-box <ID>",
            Leaf::IptablesSet => " [OPTIONS] --sand-box <ID> <FILE>",
            _ => {
                proof {
                    reveal_strlit("");
                }
                ""
            },
        },
        _ => " <COMMAND>",
    }
}

fn heading_of(scope: HelpScope) -> (r: &'static str)
    ensures
        r@ == heading(scope),
{
    match scope {
        HelpScope::Leaf(_) => "Arguments:",
        _ => "Commands:",
    }
}

fn entries_of(scope: HelpScope) -> (r: Vec<(&'static str, &'static str)>)
    ensures
        pairs(r@) == entries(scope),
{
    let mut e: Vec<(&'static str, &'static str)> = Vec::new();
    assert(pairs(e@) =~= Seq::<(Seq<char>, Seq<char>)>::empty());
    match scope {
        HelpScope::Top => {
            add_entry(&mut e, "check", "Test if system can run Kata Containers");
            add_entry(&mut e, "direct-volume", "Directly assign a volume to Kata Containers to manage");
            add_entry(&mut e, "env", "Display settings");
            add_entry(&mut e, "exec", "Enter into guest VM by debug console");
            add_entry(&mut e, "factory", "Manage VM factory");
            add_entry(&mut e, "iptables", "Manage guest VM iptables");
            add_entry(
                &mut e,
                "metrics",
                "Gather metrics associated with infrastructure used to run a sandbox",
            );
            add_entry(&mut e, "version", "Display version details");
        },
        HelpScope::Verb(Verb::Check) => {
            add_entry(&mut e, "all", "Run all checks");
            add_entry(&mut e, "no-network-checks", "Run all checks but excluding network checks");
            add_entry(
                &mut e,
                "check-version-only",
                "Only compare the current and latest available versions",
            );
            add_entry(&mut e, "only-list-releases", "List official release packages");
            add_entry(&mut e, "include-all-releases", "List all official and pre-release packages");
            add_entry(&mut e, "list", "List all available checks");
        },
        HelpScope::Verb(Verb::DirectVolume) => {
            add_entry(
                &mut e,
                "add",
                "Add a direct assigned block volume device to the Kata Containers runtime",
            );
            add_entry(
                &mut e,
                "remove",
                "Remove a direct assigned block volume device from the Kata Containers runtime",
            );
            add_entry(&mut e, "stats", "Get the filesystem stat of a direct assigned volume");
            add_entry(&mut e, "resize", "Resize a direct assigned block volume");
        },
        HelpScope::Verb(Verb::Iptables) => {
            add_entry(&mut e, "get", "Get iptables from the Kata Containers guest");
            add_entry(&mut e, "set", "Set iptables of the Kata Containers guest from a file");
        },
        HelpScope::Verb(Verb::Metrics) => {
            add_entry(&mut e, "metrics-args", "Arguments for metrics");
        },
        HelpScope::Leaf(Leaf::VolumeAdd) => {
            add_entry(&mut e, "<VOLUME_PATH>", "Path of the volume");
            add_entry(&mut e, "<MOUNT_INFO>", "Mount information of the volume");
        },
        HelpScope::Leaf(Leaf::VolumeRemove) | HelpScope::Leaf(Leaf::VolumeStats) => {
            add_entry(&mut e, "<VOLUME_PATH>", "Path of the volume");
        },
        HelpScope::Leaf(Leaf::VolumeResize) => {
            add_entry(&mut e, "<VOLUME_PATH>", "Path of the volume");
            add_entry(&mut e, "<RESIZE_SIZE>", "New size of the volume in bytes");
        },
        HelpScope::Leaf(Leaf::Env) => {
            add_entry(&mut e, "--json", "Format output as JSON");
            add_entry(&mut e, "-f, --file <FILE>", "File to write env output to");
        },
        HelpScope::Leaf(Leaf::Exec) => {
            add_entry(&mut e, "<SANDBOX_ID>", "pod sandbox ID");
            add_entry(&mut e, "-p, --kata-debug-port <VPORT>", "debug console vport, 1026 by default");
        },
        HelpScope::Leaf(Leaf::IptablesGet) => {
            add_entry(&mut e, "--sand-box <ID>", "The target sandbox for getting the iptables");
            add_entry(&mut e, "--v6", "Indicate we're requesting ipv6 iptables");
        },
        HelpScope::Leaf(Leaf::IptablesSet) => {
            add_entry(&mut e, "--sand-box <ID>", "The target sandbox for setting the iptables");
            add_entry(&mut e, "--v6", "Indicate we're requesting ipv6 iptables");
            add_entry(&mut e, "<FILE>", "The iptables file to set");
        },
        _ => {},
    }
    add_entry(&mut e, "-h, --help", "Print help information");
    e
}

/// Appends each word, preceded by a space.
fn append_words(s: &mut String, words: &Vec<&'static str>)
    ensures
        final(s)@ == old(s)@ + joined(texts(words@)),
{
    let mut i: usize = 0;
    while i < words.len()
        invariant
            i <= words.len(),
            s@ == old(s)@ + joined(texts(words@).take(i as int)),
        decreases words.len() - i,
    {
        proof {
            let t = texts(words@).take(i + 1);
            assert(t.drop_last() =~= texts(words@).take(i as int));
        }
        s.append(" ");
        s.append(words[i]);
        i = i + 1;
    }
    assert(texts(words@).take(i as int) =~= texts(words@));
}

/// The help text of a scope.
pub fn help_text(scope: HelpScope) -> (r: String)
    ensures
        r@ == help_model(scope),
{
    let mut s = String::new();
    s.append("Usage: kata-ctl");
    append_words(&mut s, &scope_words_of(scope));
    s.append(usage_tail_of(scope));
    s.append("\n\n");
    s.append(heading_of(scope));
    s.append("\n");
    let es = entries_of(scope);
    let ghost base = s@;
    let mut i: usize = 0;
    while i < es.len()
        invariant
            i <= es.len(),
            pairs(es@) == entries(scope),
            s@ == base + listing(pairs(es@).take(i as int)),
        decreases es.len() - i,
    {
        proof {
            let t = pairs(es@).take(i + 1);
            assert(t.drop_last() =~= pairs(es@).take(i as int));
        }
        s.append("  ");
        s.append(es[i].0);
        s.append("    ");
        s.append(es[i].1);
        s.append("\n");
        i = i + 1;
    }
    assert(pairs(es@).take(i as int) =~= pairs(es@));
    s
}

/// The command to suggest beside a refusal: `kata-ctl`, the scope's words
/// and `--help`.
pub fn help_hint(scope: HelpScope) -> (r: String)
    ensures
        r@ == hint_model(scope),
{
    let mut s = String::new();
    s.append("kata-ctl");
    append_words(&mut s, &scope_words_of(scope));
    s.append(" --help");
    s
}

} // verus!
