//! The commands that the program accepts, as plain values; parsing them from
//! the command line is the application's part.
use vstd::prelude::*;

verus! {

/// A parsed command line.
#[derive(Debug)]
pub struct Cli {
    pub command: Option<Command>,
}

/// A top-level command.
#[derive(Debug)]
pub enum Command {
    /// Open the interactive terminal UI.
    Tui,
    /// Start mihomo with a config file or the active profile.
    Start { config: Option<String> },
    /// Stop the managed mihomo process.
    Stop,
    /// Restart mihomo with the active profile.
    Restart,
    /// Show process, port, active profile, and controller state.
    Status,
    /// Print recent mihomo logs.
    Logs { lines: usize },
    /// Validate a Clash/mihomo config with the local core.
    Check { config: String },
    /// Download, update, or inspect the local mihomo core.
    Core { command: CoreCommand },
    /// Manage local and subscription-backed profiles.
    Profile { command: Option<ProfileCommand> },
    /// Add or refresh subscription-backed profiles.
    Subscribe { command: SubscribeCommand },
    /// List, test, and switch proxies through the mihomo controller.
    Proxy { command: Option<ProxyCommand> },
    /// Change mihomo proxy mode.
    Mode { mode: Mode },
    /// Manage Starail-owned shell proxy variables in ~/.bashrc.
    SystemProxy { command: Option<SystemProxyCommand> },
}

#[derive(Debug, Clone, Copy, PartialEq, Eq, Structural)]
pub enum CoreCommand {
    Install,
    Update,
    Version,
}

#[derive(Debug, Clone)]
pub enum ProfileCommand {
    List,
    Add { name: String, config: String },
    Use { name: String },
    Remove { name: String },
}

#[derive(Debug, Clone)]
pub enum SubscribeCommand {
    Add { url: String, name: Option<String> },
    Update { name: Option<String> },
}

#[derive(Debug, Clone)]
pub enum ProxyCommand {
    List,
    Test,
    Select { group: String, node: String },
}

/// A proxy mode of mihomo.
#[derive(Debug, Clone, Copy, PartialEq, Eq, Structural)]
pub enum Mode {
    Rule,
    Global,
    Direct,
}

/// The name of a mode in the controller's API.
pub open spec fn mode_text(mode: Mode) -> Seq<char> {
    match mode {
        Mode::Rule => "rule"@,
        Mode::Global => "global"@,
        Mode::Direct => "direct"@,
    }
}

impl Mode {
    /// The name of the mode in the controller's API.
    pub fn as_str(self) -> (r: &'static str)
        ensures
            r@ == mode_text(self),
    {
        match self {
            Mode::Rule => "rule",
            Mode::Global => "global",
            Mode::Direct => "direct",
        }
    }
}

#[derive(Debug, Clone, Copy, PartialEq, Eq, Structural)]
pub enum SystemProxyCommand {
    On,
    Off,
    Status,
}

/// Distinct modes have distinct names.
pub proof fn lemma_mode_names_distinct(a: Mode, b: Mode)
    requires
        a != b,
    ensures
        mode_text(a) != mode_text(b),
{
    reveal_strlit("rule");
    reveal_strlit("global");
    reveal_strlit("direct");
    assert(mode_text(a).len() != mode_text(b).len() || mode_text(a)[0] != mode_text(b)[0]);
}

/// Each mode is sent to the controller under its own name: `rule` for
/// `Mode::Rule`, `global` for `Mode::Global` and `direct` for `Mode::Direct`.
pub proof fn lemma_mode_is_sent_by_its_own_name(mode: Mode)
    ensures
        mode == Mode::Rule ==> mode_text(mode) == "rule"@,
        mode == Mode::Global ==> mode_text(mode) == "global"@,
        mode == Mode::Direct ==> mode_text(mode) == "direct"@,
{
}

} // verus!
