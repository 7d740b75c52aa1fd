use kata_ctl::cli::{
    CheckSubCommand, Commands, DirectVolSubcommand, IpTablesArguments, MetricsSubCommand,
};
use kata_ctl::grammar::{Leaf, ParseError, Verb};
use kata_ctl::help::{help_hint, help_scope_of, help_text, HelpScope};
use kata_ctl::parse::{parse_args, ParseOutcome};
use kata_ctl::text::{parse_u64, same_text};

fn argv(words: &[&str]) -> Vec<String> {
    words.iter().map(|w| w.to_string()).collect()
}

fn run(words: &[&str]) -> Commands {
    match parse_args(&argv(words)) {
        ParseOutcome::Run(cli) => cli.command,
        other => panic!("expected an invocation for {:?}, got {:?}", words, other),
    }
}

fn failure(words: &[&str]) -> ParseError {
    match parse_args(&argv(words)) {
        ParseOutcome::Failed(e) => e,
        other => panic!("expected a failure for {:?}, got {:?}", words, other),
    }
}

fn help(words: &[&str]) -> usize {
    match parse_args(&argv(words)) {
        ParseOutcome::Help(n) => n,
        other => panic!("expected help for {:?}, got {:?}", words, other),
    }
}

#[test]
fn version_parses() {
    let out = parse_args(&argv(&["version"]));
    assert_eq!(out.exit_code(), 0);
    assert!(matches!(out, ParseOutcome::Run(c) if matches!(c.command, Commands::Version)));
}

#[test]
fn env_json_and_file() {
    match run(&["env", "--json", "-f", "/tmp/e.json"]) {
        Commands::Env(e) => {
            assert!(e.json);
            assert_eq!(e.file, Some("/tmp/e.json".to_string()));
        }
        other => panic!("{:?}", other),
    }
}

#[test]
fn env_defaults() {
    match run(&["env"]) {
        Commands::Env(e) => {
            assert!(!e.json);
            assert_eq!(e.file, None);
        }
        other => panic!("{:?}", other),
    }
}

#[test]
fn env_long_file_with_equals() {
    match run(&["env", "--file=/tmp/x"]) {
        Commands::Env(e) => {
            assert!(!e.json);
            assert_eq!(e.file, Some("/tmp/x".to_string()));
        }
        other => panic!("{:?}", other),
    }
}

#[test]
fn env_long_file_with_space() {
    match run(&["env", "--file", "out.txt", "--json"]) {
        Commands::Env(e) => {
            assert!(e.json);
            assert_eq!(e.file, Some("out.txt".to_string()));
        }
        other => panic!("{:?}", other),
    }
}

#[test]
fn env_empty_file_is_invalid() {
    assert_eq!(failure(&["env", "--file="]), ParseError::InvalidValue);
}

#[test]
fn env_file_without_value() {
    assert_eq!(failure(&["env", "-f"]), ParseError::MissingRequired);
}

#[test]
fn env_switch_with_value() {
    assert_eq!(failure(&["env", "--json=yes"]), ParseError::UnexpectedArgument);
}

#[test]
fn exec_default_port() {
    match run(&["exec", "abc123"]) {
        Commands::Exec(e) => {
            assert_eq!(e.sandbox_id, "abc123");
            assert_eq!(e.vport, 1026);
        }
        other => panic!("{:?}", other),
    }
}

#[test]
fn exec_given_port() {
    match run(&["exec", "abc123", "-p", "2048"]) {
        Commands::Exec(e) => {
            assert_eq!(e.sandbox_id, "abc123");
            assert_eq!(e.vport, 2048);
        }
        other => panic!("{:?}", other),
    }
}

#[test]
fn exec_long_port_flag() {
    match run(&["exec", "--kata-debug-port=4294967295", "abc"]) {
        Commands::Exec(e) => {
            assert_eq!(e.sandbox_id, "abc");
            assert_eq!(e.vport, u32::MAX);
        }
        other => panic!("{:?}", other),
    }
}

#[test]
fn exec_port_not_a_number() {
    let out = parse_args(&argv(&["exec", "abc123", "-p", "notanumber"]));
    assert_ne!(out.exit_code(), 0);
    assert!(matches!(out, ParseOutcome::Failed(ParseError::InvalidValue)));
}

#[test]
fn exec_port_out_of_range() {
    assert_eq!(failure(&["exec", "abc", "-p", "4294967296"]), ParseError::InvalidValue);
}

#[test]
fn exec_missing_sandbox() {
    assert_eq!(failure(&["exec"]), ParseError::MissingRequired);
}

#[test]
fn exec_extra_positional() {
    assert_eq!(failure(&["exec", "a", "b"]), ParseError::UnexpectedArgument);
}

#[test]
fn exec_unknown_flag() {
    assert_eq!(failure(&["exec", "a", "--port", "1"]), ParseError::UnknownFlag);
    assert_eq!(failure(&["exec", "a", "-x"]), ParseError::UnknownFlag);
}

#[test]
fn direct_volume_resize() {
    match run(&["direct-volume", "resize", "/dev/foo", "1073741824"]) {
        Commands::DirectVolume(d) => match d.directvol_cmd {
            DirectVolSubcommand::Resize(r) => {
                assert_eq!(r.volume_path, "/dev/foo");
                assert_eq!(r.resize_size, 1073741824);
            }
            other => panic!("{:?}", other),
        },
        other => panic!("{:?}", other),
    }
}

#[test]
fn direct_volume_resize_missing_size() {
    assert_eq!(failure(&["direct-volume", "resize", "/dev/foo"]), ParseError::MissingRequired);
}

#[test]
fn direct_volume_resize_largest_size() {
    match run(&["direct-volume", "resize", "/dev/foo", "18446744073709551615"]) {
        Commands::DirectVolume(d) => match d.directvol_cmd {
            DirectVolSubcommand::Resize(r) => assert_eq!(r.resize_size, u64::MAX),
            other => panic!("{:?}", other),
        },
        other => panic!("{:?}", other),
    }
    assert_eq!(
        failure(&["direct-volume", "resize", "/dev/foo", "18446744073709551616"]),
        ParseError::InvalidValue
    );
}

#[test]
fn direct_volume_add_remove_stats() {
    match run(&["direct-volume", "add", "/dev/a", "{\"fstype\":\"ext4\"}"]) {
        Commands::DirectVolume(d) => match d.directvol_cmd {
            DirectVolSubcommand::Add(a) => {
                assert_eq!(a.volume_path, "/dev/a");
                assert_eq!(a.mount_info, "{\"fstype\":\"ext4\"}");
            }
            other => panic!("{:?}", other),
        },
        other => panic!("{:?}", other),
    }
    match run(&["direct-volume", "remove", "/dev/b"]) {
        Commands::DirectVolume(d) => match d.directvol_cmd {
            DirectVolSubcommand::Remove(r) => assert_eq!(r.volume_path, "/dev/b"),
            other => panic!("{:?}", other),
        },
        other => panic!("{:?}", other),
    }
    match run(&["direct-volume", "stats", "/dev/c"]) {
        Commands::DirectVolume(d) => match d.directvol_cmd {
            DirectVolSubcommand::Stats(r) => assert_eq!(r.volume_path, "/dev/c"),
            other => panic!("{:?}", other),
        },
        other => panic!("{:?}", other),
    }
}

#[test]
fn direct_volume_empty_path_is_invalid() {
    assert_eq!(failure(&["direct-volume", "remove", ""]), ParseError::InvalidValue);
}

#[test]
fn direct_volume_without_subcommand() {
    assert_eq!(failure(&["direct-volume"]), ParseError::MissingRequired);
}

#[test]
fn iptables_get() {
    match run(&["iptables", "get", "--sand-box", "s1", "--v6"]) {
        Commands::Iptables(i) => match i.subcommand() {
            IpTablesArguments::Get { sandbox_id, v6 } => {
                assert_eq!(sandbox_id, "s1");
                assert!(*v6);
            }
            other => panic!("{:?}", other),
        },
        other => panic!("{:?}", other),
    }
}

#[test]
fn iptables_set() {
    match run(&["iptables", "set", "--sand-box", "s1", "rules.txt"]) {
        Commands::Iptables(i) => match i.subcommand() {
            IpTablesArguments::SetRules { sandbox_id, v6, file } => {
                assert_eq!(sandbox_id, "s1");
                assert!(!*v6);
                assert_eq!(file, "rules.txt");
            }
            other => panic!("{:?}", other),
        },
        other => panic!("{:?}", other),
    }
}

#[test]
fn iptables_set_without_sandbox() {
    assert_eq!(failure(&["iptables", "set", "rules.txt"]), ParseError::MissingRequired);
}

#[test]
fn iptables_get_takes_no_file() {
    assert_eq!(failure(&["iptables", "get", "--sand-box", "s1", "x"]), ParseError::UnexpectedArgument);
}

#[test]
fn iptables_sandbox_spelling() {
    assert_eq!(failure(&["iptables", "get", "--sandbox", "s1"]), ParseError::UnknownFlag);
}

#[test]
fn check_list() {
    match run(&["check", "list"]) {
        Commands::Check(c) => assert_eq!(c.command, CheckSubCommand::List),
        other => panic!("{:?}", other),
    }
}

#[test]
fn check_every_subcommand() {
    let names = [
        ("all", CheckSubCommand::All),
        ("no-network-checks", CheckSubCommand::NoNetworkChecks),
        ("check-version-only", CheckSubCommand::CheckVersionOnly),
        ("only-list-releases", CheckSubCommand::OnlyListReleases),
        ("include-all-releases", CheckSubCommand::IncludeAllReleases),
        ("list", CheckSubCommand::List),
    ];
    for (name, sub) in names {
        match run(&["check", name]) {
            Commands::Check(c) => assert_eq!(c.command, sub),
            other => panic!("{:?}", other),
        }
    }
}

#[test]
fn check_unknown_subcommand() {
    assert_eq!(failure(&["check", "everything"]), ParseError::UnknownSubcommand);
}

#[test]
fn metrics_and_factory() {
    match run(&["metrics", "metrics-args"]) {
        Commands::Metrics(m) => assert_eq!(m.metrics_cmd, MetricsSubCommand::MetricsArgs),
        other => panic!("{:?}", other),
    }
    assert!(matches!(run(&["factory"]), Commands::Factory));
    assert_eq!(failure(&["factory", "extra"]), ParseError::UnexpectedArgument);
}

#[test]
fn bogus_verb() {
    let out = parse_args(&argv(&["bogus"]));
    assert_eq!(out.exit_code(), 2);
    assert!(matches!(out, ParseOutcome::Failed(ParseError::UnknownVerb)));
}

#[test]
fn unknown_top_level_flag() {
    assert_eq!(failure(&["--verbose"]), ParseError::UnknownFlag);
}

#[test]
fn help_scopes() {
    assert_eq!(help(&[]), 0);
    assert_eq!(help(&["--help"]), 0);
    assert_eq!(help(&["-h", "bogus"]), 0);
    assert_eq!(help(&["iptables", "-h"]), 1);
    assert_eq!(help(&["iptables", "set", "--help"]), 2);
    assert_eq!(help(&["exec", "--help"]), 1);
    assert_eq!(parse_args(&argv(&["env", "-h"])).exit_code(), 0);
}

#[test]
fn help_short_circuits_later_errors() {
    assert_eq!(help(&["direct-volume", "resize", "--help", "--bogus"]), 2);
    assert_eq!(failure(&["direct-volume", "resize", "--bogus", "--help"]), ParseError::UnknownFlag);
}

#[test]
fn parsing_is_deterministic() {
    let args = argv(&["exec", "abc123", "-p", "2048"]);
    let first = format!("{:?}", parse_args(&args));
    let second = format!("{:?}", parse_args(&args));
    assert_eq!(first, second);
}

#[test]
fn subcommand_tag_round_trip() {
    match run(&["direct-volume", "stats", "/dev/x"]) {
        Commands::DirectVolume(d) => assert!(matches!(d.directvol_cmd, DirectVolSubcommand::Stats(_))),
        other => panic!("{:?}", other),
    }
    match run(&["iptables", "get", "--sand-box", "id"]) {
        Commands::Iptables(i) => assert!(matches!(i.iptables, IpTablesArguments::Get { .. })),
        other => panic!("{:?}", other),
    }
}

#[test]
fn decimal_reading() {
    assert_eq!(parse_u64("0"), Some(0));
    assert_eq!(parse_u64("1073741824"), Some(1073741824));
    assert_eq!(parse_u64(""), None);
    assert_eq!(parse_u64("12a"), None);
    assert_eq!(parse_u64("-1"), None);
}

#[test]
fn text_comparison() {
    assert!(same_text("sand-box", "sand-box"));
    assert!(!same_text("sand-box", "sandbox"));
    assert!(!same_text("", "a"));
}

#[test]
fn top_level_help_text() {
    let text = help_text(HelpScope::Top);
    assert!(text.starts_with("Usage: kata-ctl <COMMAND>\n\nCommands:\n  check    Test if system can run Kata Containers\n"));
    assert!(text.contains("  direct-volume    "));
    assert!(text.ends_with("  -h, --help    Print help information\n"));
}

#[test]
fn leaf_help_text() {
    let args = argv(&["iptables", "set", "--help"]);
    let scope = help_scope_of(&args, help(&["iptables", "set", "--help"]));
    assert_eq!(scope, HelpScope::Leaf(Leaf::IptablesSet));
    let text = help_text(scope);
    assert!(text.starts_with("Usage: kata-ctl iptables set [OPTIONS] --sand-box <ID> <FILE>\n\nArguments:\n"));
    assert!(text.contains("  --v6    Indicate we're requesting ipv6 iptables\n"));
}

#[test]
fn verb_help_text() {
    let scope = help_scope_of(&argv(&["check", "-h"]), 1);
    assert_eq!(scope, HelpScope::Verb(Verb::Check));
    assert!(help_text(scope).contains("  no-network-checks    Run all checks but excluding network checks\n"));
}

#[test]
fn failure_hint() {
    let args = argv(&["iptables", "set", "rules.txt"]);
    assert_eq!(help_hint(help_scope_of(&args, 2)), "kata-ctl iptables set --help");
    assert_eq!(help_hint(help_scope_of(&argv(&["bogus"]), 2)), "kata-ctl --help");
    assert_eq!(help_hint(help_scope_of(&argv(&["check", "nope"]), 2)), "kata-ctl check --help");
}

#[test]
fn error_descriptions() {
    assert_eq!(ParseError::UnknownVerb.describe(), "unrecognized command");
    assert_eq!(ParseError::MissingRequired.describe(), "a required argument was not provided");
    assert_eq!(ParseError::InvalidValue.describe(), "invalid value for an argument");
}
