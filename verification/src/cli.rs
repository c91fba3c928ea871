//! Commands and flags.

use vstd::prelude::*;

verus! {

/// What was given on the command line.
#[derive(Debug)]
pub struct Cli {
    pub command: Option<Command>,
    /// Ansible client-script compatibility: `avpm --vault-id dev` is `get dev`.
    pub vault_id: Option<String>,
    /// Log verbosity (repeatable: -v info, -vv debug, -vvv trace).
    pub verbose: u8,
    /// Quiet mode (errors only).
    pub quiet: bool,
    /// Override the config file path.
    pub config: Option<String>,
    /// Positional fallback: `avpm <vault-id>` is `get <vault-id>`.
    pub positional: Vec<String>,
}

/// Top-level subcommands.
#[allow(inconsistent_fields)]
#[derive(Debug)]
pub enum Command {
    /// Print the password for a vault-id to stdout (ansible contract).
    Get { vault_id: String },
    /// Set or overwrite a vault-id's password.
    SetPassword { vault_id: String, generate: bool, length: Option<usize>, no_symbols: bool },
    /// Remove one or more vault-ids.
    Rm { vault_ids: Vec<String>, force: bool },
    /// List all known vault-ids.
    List,
    /// Show a password in a secure TUI view.
    Show { vault_id: String },
    /// Rename a vault-id.
    Rename { from: String, to: String },
    /// Open the full interactive TUI.
    Tui,
    /// Make the backend usable without prompting.
    Unlock,
    /// Encrypted multi-device sync.
    Sync { cmd: SyncCmd },
    /// Configuration management.
    Config { cmd: ConfigCmd },
}

/// `avpm sync` subcommands.
#[derive(Debug)]
pub enum SyncCmd {
    /// Encrypt local vaults and push to the remote.
    Push { message: Option<String> },
    /// Pull and merge the remote into local.
    Pull,
    /// Compare local vs remote without modifying anything.
    Status,
}

/// `avpm config` subcommands.
#[derive(Debug)]
pub enum ConfigCmd {
    /// Interactively generate a config file.
    Init,
    /// Print the config file path.
    Path,
    /// Open the config file in an editor.
    Edit,
}

} // verus!
