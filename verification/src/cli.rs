//! The command-line surface as plain data: which language was chosen and
//! which subcommand for it. Argument parsing itself is done by the
//! surrounding application, which hands these values in.

use vstd::prelude::*;

verus! {

/// One parsed invocation.
#[derive(Debug, Clone, PartialEq, Eq)]
pub struct Cli {
    pub language: Language,
}

/// The chosen language ecosystem with its subcommand.
#[derive(Debug, Clone, PartialEq, Eq)]
pub enum Language {
    Node { command: NodeCommand },
    Python { command: PythonCommand },
    Go { command: GoCommand },
    Bun { command: BunCommand },
}

/// Subcommands for managing Node.js versions.
#[derive(Debug, Clone, PartialEq, Eq)]
pub enum NodeCommand {
    ListRemote,
    Install { version: String },
    Use { version: String },
    List,
}

/// Subcommands for managing Python versions.
#[derive(Debug, Clone, PartialEq, Eq)]
pub enum PythonCommand {
    ListRemote,
    Install { version: String },
    Use { version: String },
    List,
}

/// Subcommands for managing Go versions.
#[derive(Debug, Clone, PartialEq, Eq)]
pub enum GoCommand {
    ListRemote,
    Install { version: String },
    Use { version: String },
}

/// Subcommands for managing Bun versions.
#[derive(Debug, Clone, PartialEq, Eq)]
pub enum BunCommand {
    ListRemote,
    Install { version: String },
    Use { version: String },
}

} // verus!
