//! The parsed invocation: one type per command scope, and its model.
use vstd::prelude::*;

verus! {

/// The readiness check to run.
#[derive(Clone, Copy, Debug, PartialEq, Eq, Structural)]
pub enum CheckSubCommand {
    /// Run all checks
    All,
    /// Run all checks but excluding network checks.
    NoNetworkChecks,
    /// Only compare the current and latest available versions
    CheckVersionOnly,
    /// List official release packages
    OnlyListReleases,
    /// List all official and pre-release packages
    IncludeAllReleases,
    /// List all available checks
    List,
}

/// Arguments of `check`.
#[derive(Clone, Copy, Debug, PartialEq, Eq, Structural)]
pub struct CheckArgument {
    pub command: CheckSubCommand,
}

/// Arguments of `env`.
#[derive(Clone, Debug)]
pub struct EnvArgument {
    /// Format output as JSON
    pub json: bool,
    /// File to write env output to
    pub file: Option<String>,
}

/// The metrics to gather.
#[derive(Clone, Copy, Debug, PartialEq, Eq, Structural)]
pub enum MetricsSubCommand {
    /// Arguments for metrics
    MetricsArgs,
}

/// Arguments of `metrics`.
#[derive(Clone, Copy, Debug, PartialEq, Eq, Structural)]
pub struct MetricsCommand {
    pub metrics_cmd: MetricsSubCommand,
}

/// Reading or writing the packet-filter rules of a guest.
#[derive(Clone, Debug)]
pub enum IpTablesArguments {
    /// Get iptables from the Kata Containers guest
    Get { sandbox_id: String, v6: bool },
    /// Set iptables of the Kata Containers guest from a file
    SetRules { sandbox_id: String, v6: bool, file: String },
}

/// Arguments of `iptables`.
#[derive(Clone, Debug)]
pub struct IptablesCommand {
    pub iptables: IpTablesArguments,
}

impl IptablesCommand {
    /// The chosen `iptables` subcommand.
    pub fn subcommand(&self) -> (r: &IpTablesArguments)
        ensures
            *r == self.iptables,
    {
        &self.iptables
    }
}

/// Add a direct assigned block volume device to the Kata Containers runtime
#[derive(Clone, Debug)]
pub struct DirectVolAddArgs {
    pub volume_path: String,
    pub mount_info: String,
}

/// Remove a direct assigned block volume device from the Kata Containers runtime
#[derive(Clone, Debug)]
pub struct DirectVolRemoveArgs {
    pub volume_path: String,
}

/// Get the filesystem stat of a direct assigned volume
#[derive(Clone, Debug)]
pub struct DirectVolStatsArgs {
    pub volume_path: String,
}

/// Resize a direct assigned block volume
#[derive(Clone, Debug)]
pub struct DirectVolResizeArgs {
    pub volume_path: String,
    pub resize_size: u64,
}

/// The chosen `direct-volume` subcommand.
#[derive(Clone, Debug)]
pub enum DirectVolSubcommand {
    Add(DirectVolAddArgs),
    Remove(DirectVolRemoveArgs),
    Stats(DirectVolStatsArgs),
    Resize(DirectVolResizeArgs),
}

/// Arguments of `direct-volume`.
#[derive(Clone, Debug)]
pub struct DirectVolumeCommand {
    pub directvol_cmd: DirectVolSubcommand,
}

/// Arguments of `exec`.
#[derive(Clone, Debug)]
pub struct ExecArguments {
    /// pod sandbox ID.
    pub sandbox_id: String,
    /// debug console vport, as in the runtime configuration.
    pub vport: u32,
}

/// The top-level verb and what it carries.
#[derive(Clone, Debug)]
pub enum Commands {
    /// Test if system can run Kata Containers
    Check(CheckArgument),
    /// Directly assign a volume to Kata Containers to manage
    DirectVolume(DirectVolumeCommand),
    /// Display settings
    Env(EnvArgument),
    /// Enter into guest VM by debug console
    Exec(ExecArguments),
    /// Manage VM factory
    Factory,
    /// Manage guest VM iptables
    Iptables(IptablesCommand),
    /// Gather metrics associated with infrastructure used to run a sandbox
    Metrics(MetricsCommand),
    /// Display version details
    Version,
}

/// One parsed command line.
#[derive(Clone, Debug)]
pub struct KataCtlCli {
    pub command: Commands,
}

/// What an invocation means: the chosen leaf command and its parameters,
/// with text as sequences of characters.
pub enum Invocation {
    Check(CheckSubCommand),
    VolumeAdd { volume_path: Seq<char>, mount_info: Seq<char> },
    VolumeRemove { volume_path: Seq<char> },
    VolumeStats { volume_path: Seq<char> },
    VolumeResize { volume_path: Seq<char>, resize_size: u64 },
    Env { json: bool, file: Option<Seq<char>> },
    Exec { sandbox_id: Seq<char>, vport: u32 },
    Factory,
    IptablesGet { sandbox_id: Seq<char>, v6: bool },
    IptablesSet { sandbox_id: Seq<char>, v6: bool, file: Seq<char> },
    Metrics(MetricsSubCommand),
    Version,
}

/// The characters of an optional text.
pub open spec fn opt_text(o: Option<String>) -> Option<Seq<char>> {
    match o {
        Some(s) => Some(s@),
        None => None,
    }
}

impl View for Commands {
    type V = Invocation;

    open spec fn view(&self) -> Invocation {
        match self {
            Commands::Check(c) => Invocation::Check(c.command),
            Commands::DirectVolume(d) => match d.directvol_cmd {
                DirectVolSubcommand::Add(a) => Invocation::VolumeAdd {
                    volume_path: a.volume_path@,
                    mount_info: a.mount_info@,
                },
                DirectVolSubcommand::Remove(a) => Invocation::VolumeRemove {
                    volume_path: a.volume_path@,
                },
                DirectVolSubcommand::Stats(a) => Invocation::VolumeStats {
                    volume_path: a.volume_path@,
                },
                DirectVolSubcommand::Resize(a) => Invocation::VolumeResize {
                    volume_path: a.volume_path@,
                    resize_size: a.resize_size,
                },
            },
            Commands::Env(e) => Invocation::Env { json: e.json, file: opt_text(e.file) },
            Commands::Exec(e) => Invocation::Exec { sandbox_id: e.sandbox_id@, vport: e.vport },
            Commands::Factory => Invocation::Factory,
            Commands::Iptables(i) => match i.iptables {
                IpTablesArguments::Get { sandbox_id, v6 } => Invocation::IptablesGet {
                    sandbox_id: sandbox_id@,
                    v6,
                },
                IpTablesArguments::SetRules { sandbox_id, v6, file } => Invocation::IptablesSet {
                    sandbox_id: sandbox_id@,
                    v6,
                    file: file@,
                },
            },
            Commands::Metrics(m) => Invocation::Metrics(m.metrics_cmd),
            Commands::Version => Invocation::Version,
        }
    }
}

impl View for KataCtlCli {
    type V = Invocation;

    open spec fn view(&self) -> Invocation {
        self.command@
    }
}

} // verus!
