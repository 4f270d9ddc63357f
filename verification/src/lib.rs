//! mlvm: a multi-runtime version manager's install and activation core.
//!
//! The library holds the verified logic: version normalization, platform
//! mapping, download-descriptor resolution, the install planner's state
//! machine, and the activation switch. File, network and process work is
//! done by the surrounding application, which drives the planner with plain
//! events and carries out the actions it emits.

use vstd::prelude::*;

pub mod activate;
pub mod catalog;
pub mod cli;
pub mod descriptor;
pub mod errors;
pub mod extract;
pub mod install;
pub mod paths;
pub mod strutil;
pub mod version;

verus! {

/// The managed language ecosystems, each owning one directory tree
/// under the manager's base directory.
#[derive(Clone, Copy, Debug, PartialEq, Eq, Structural)]
pub enum Runtime {
    Node,
    Python,
    Go,
    Bun,
}

/// The name of a runtime's own directory under the manager's base,
/// also the name used in error reports.
pub open spec fn runtime_name(rt: Runtime) -> Seq<char> {
    match rt {
        Runtime::Node => "node"@,
        Runtime::Python => "python"@,
        Runtime::Go => "go"@,
        Runtime::Bun => "bun"@,
    }
}

impl Runtime {
    /// Name of the runtime's own directory under the manager's base.
    pub fn dir_name(&self) -> (r: &'static str)
        ensures
            r@ == runtime_name(*self),
    {
        match self {
            Runtime::Node => "node",
            Runtime::Python => "python",
            Runtime::Go => "go",
            Runtime::Bun => "bun",
        }
    }
}

} // verus!
