//! The command-line surface as plain data. The surrounding tool parses argv
//! into these values.

use vstd::prelude::*;

verus! {

/// Which history store a command addresses.
#[derive(Debug, Clone, Copy, PartialEq, Eq, Structural)]
pub enum HistoryType {
    Build,
    Executable,
    All,
}

/// History subcommands.
#[derive(Debug, Clone)]
pub enum HistoryCommands {
    Show { count: Option<usize> },
    Clear { kind: HistoryType },
}

/// Top-level subcommands.
#[derive(Debug, Clone)]
pub enum Commands {
    Clean { preset: String },
    Presets,
    History { command: HistoryCommands },
    Exec { preset: String },
    Init { name: Option<String> },
}

/// The parsed invocation.
#[derive(Debug, Clone)]
pub struct Cli {
    pub preset: Option<String>,
    pub source_dir: Option<String>,
    pub no_tui: bool,
    pub config: Option<String>,
    pub command: Option<Commands>,
}

} // verus!
