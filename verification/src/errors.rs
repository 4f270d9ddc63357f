//! The error taxonomy of the install and activation core. Every error is
//! terminal for the invocation that raised it and carries the runtime name
//! and the version, so repeated invocations are diagnosable without added
//! state.

use vstd::prelude::*;
use vstd::string::StringExecFns;
use crate::{Runtime, runtime_name};

verus! {

/// What went wrong, one variant per failure class.
#[derive(Clone, Copy, Debug, PartialEq, Eq, Structural)]
pub enum ErrorKind {
    /// No matching release or asset for the version and platform.
    Resolution,
    /// The transfer did not succeed.
    Download,
    /// Unrecognized or corrupt archive.
    Format,
    /// The extracted tree is missing the expected top-level folder.
    Layout,
    /// The rename into the final location exhausted its retries.
    Relocation,
    /// The activation target is not installed.
    NotInstalled,
    /// Link creation was denied by OS policy.
    Permission,
}

/// The fixed text of each failure class.
pub open spec fn kind_text(k: ErrorKind) -> Seq<char> {
    match k {
        ErrorKind::Resolution => "no matching release or asset"@,
        ErrorKind::Download => "download failed"@,
        ErrorKind::Format => "unrecognized or corrupt archive"@,
        ErrorKind::Layout => "extracted tree missing expected top-level folder"@,
        ErrorKind::Relocation => "relocation into final directory exhausted retries"@,
        ErrorKind::NotInstalled => "version is not installed"@,
        ErrorKind::Permission => "link creation denied by OS policy"@,
    }
}

/// A terminal failure of one install or activate invocation.
#[derive(Debug)]
pub struct MlvmError {
    pub kind: ErrorKind,
    pub runtime: Runtime,
    pub version: String,
    /// Free-form context: the platform pair that had no mapping, or the
    /// remediation text for a denied link creation.
    pub detail: String,
}

/// The full report text of an error: the failure class, the runtime and
/// version it concerns, and any added context.
pub open spec fn message_of(e: MlvmError) -> Seq<char> {
    kind_text(e.kind) + " ("@ + runtime_name(e.runtime) + " "@ + e.version@ + ")"@
        + if e.detail@.len() > 0 {
            ": "@ + e.detail@
        } else {
            Seq::<char>::empty()
        }
}

impl MlvmError {
    /// Build an error for the given runtime and version.
    pub fn new(kind: ErrorKind, runtime: Runtime, version: String, detail: String) -> (r:
        MlvmError)
        ensures
            r.kind == kind,
            r.runtime == runtime,
            r.version == version,
            r.detail == detail,
    {
        MlvmError { kind, runtime, version, detail }
    }

    /// The fixed text of this error's failure class.
    pub fn kind_str(&self) -> (r: &'static str)
        ensures
            r@ == kind_text(self.kind),
    {
        match self.kind {
            ErrorKind::Resolution => "no matching release or asset",
            ErrorKind::Download => "download failed",
            ErrorKind::Format => "unrecognized or corrupt archive",
            ErrorKind::Layout => "extracted tree missing expected top-level folder",
            ErrorKind::Relocation => "relocation into final directory exhausted retries",
            ErrorKind::NotInstalled => "version is not installed",
            ErrorKind::Permission => "link creation denied by OS policy",
        }
    }

    /// The report text shown at the invoking boundary.
    pub fn message(&self) -> (r: String)
        ensures
            r@ == message_of(*self),
    {
        let head = String::from_str(self.kind_str()).concat(" (").concat(
            self.runtime.dir_name(),
        ).concat(" ").concat(self.version.as_str()).concat(")");
        if self.detail.as_str().is_empty() {
            proof {
                assert(head@ =~= message_of(*self));
            }
            head
        } else {
            let full = head.concat(": ").concat(self.detail.as_str());
            proof {
                assert(full@ =~= message_of(*self));
            }
            full
        }
    }
}

} // verus!
