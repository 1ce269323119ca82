//! The command line: the options and subcommands the program accepts.
use vstd::prelude::*;

verus! {

/// The parsed command line.
pub struct Cli {
    /// Override of the configuration file for this run.
    pub config: Option<String>,
    /// Override of the storage (vault) path for this run.
    pub vault: Option<String>,
    /// Run the first-run setup even when a configuration exists.
    pub setup: bool,
    pub command: Option<Command>,
}

/// The subcommands.
pub enum Command {
    Notes { action: NotesCmd },
    Storage { action: StorageCmd },
    Keybinds { action: KeybindsCmd },
    Templates { action: TemplatesCmd },
    Config { action: ConfigCmd },
}

/// Note operations.
pub enum NotesCmd {
    List,
    New { template: Option<String>, body: Option<String>, no_tui: bool, title: Option<String> },
    Open { title: String },
    Cat { title: String },
    Quick { content: String, title: Option<String> },
    Search { query: String },
}

/// Storage path management.
pub enum StorageCmd {
    Show,
    SetPath { path: String },
    Reset,
    Migrate,
}

/// Keybinding management.
pub enum KeybindsCmd {
    Show,
    Export,
    Reset,
}

/// Template management.
pub enum TemplatesCmd {
    List,
    Init,
}

/// Configuration management.
pub enum ConfigCmd {
    Show,
    Edit,
    Reset,
}

impl NotesCmd {
    /// Whether the command opens the terminal interface: `new` does unless
    /// it was given a body or `--no-tui`, and `open` always does.
    pub fn opens_tui(&self) -> (r: bool)
        ensures
            r == match self {
                NotesCmd::New { body, no_tui, .. } => body is None && !*no_tui,
                NotesCmd::Open { .. } => true,
                _ => false,
            },
    {
        match self {
            NotesCmd::New { body, no_tui, .. } => body.is_none() && !*no_tui,
            NotesCmd::Open { .. } => true,
            _ => false,
        }
    }
}

} // verus!
