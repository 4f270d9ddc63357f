//! The activation switch: atomically repointing the `current` indirection
//! of a runtime to one installed version. The pointer never owns bytes, it
//! only names a location. An existing pointer — or whatever a past failure
//! left in its slot — is removed best-effort first; the authoritative
//! check is the link creation that follows. The surrounding application
//! performs the probe, the removal and the link call, and reports the
//! outcome.

use vstd::prelude::*;
use vstd::string::StringExecFns;
use crate::{Runtime, runtime_name};
use crate::errors::{ErrorKind, MlvmError};
use crate::paths::{current_path, current_path_of, install_path, install_path_of};

verus! {

/// What the application found in the `current` slot.
#[derive(Clone, Copy, Debug)]
pub enum PointerProbe {
    /// Nothing is there, not even a dangling link.
    Absent,
    /// The slot resolves to a directory.
    Directory,
    /// The slot holds something else: a file, or a dangling link.
    Other,
}

/// How the stale slot content is to be removed. Removal failures are
/// swallowed; the link creation afterwards re-validates the slot.
#[derive(Clone, Copy, Debug, PartialEq, Eq, Structural)]
pub enum PointerRemoval {
    RemoveDirectory,
    RemoveFile,
    NoRemoval,
}

/// The defensive removal decision: directory removal for a slot resolving
/// to a directory, file removal for anything else present, nothing for an
/// empty slot.
pub fn plan_pointer_removal(probe: PointerProbe) -> (r: PointerRemoval)
    ensures
        probe is Directory ==> r == PointerRemoval::RemoveDirectory,
        probe is Other ==> r == PointerRemoval::RemoveFile,
        probe is Absent ==> r == PointerRemoval::NoRemoval,
{
    match probe {
        PointerProbe::Directory => PointerRemoval::RemoveDirectory,
        PointerProbe::Other => PointerRemoval::RemoveFile,
        PointerProbe::Absent => PointerRemoval::NoRemoval,
    }
}

/// One activation, planned: remove whatever sits in the `current` slot,
/// then link the slot to the target version's absolute path.
#[derive(Debug)]
pub struct ActivationPlan {
    /// The removal owed for what the probe found.
    pub removal: PointerRemoval,
    /// The `current` slot itself.
    pub link_path: String,
    /// The installed version directory the new link must name.
    pub target_path: String,
}

/// Plan an activation. The target version directory must exist; an absent
/// one is a `NotInstalled` error naming the version, and exactly that.
pub fn begin_activation(
    rt: Runtime,
    version: &str,
    home: &str,
    installed: bool,
    probe: PointerProbe,
) -> (r: Result<ActivationPlan, MlvmError>)
    ensures
        r is Ok <==> installed,
        r matches Ok(p) ==> ({
            &&& p.link_path@ == current_path_of(home@, rt)
            &&& p.target_path@ == install_path_of(home@, rt, version@)
            &&& (probe is Directory ==> p.removal == PointerRemoval::RemoveDirectory)
            &&& (probe is Other ==> p.removal == PointerRemoval::RemoveFile)
            &&& (probe is Absent ==> p.removal == PointerRemoval::NoRemoval)
        }),
        r matches Err(e) ==> e.kind == ErrorKind::NotInstalled && e.runtime == rt
            && e.version@ == version@ && e.detail@.len() == 0,
{
    if !installed {
        return Err(
            MlvmError::new(
                ErrorKind::NotInstalled,
                rt,
                String::from_str(version),
                String::new(),
            ),
        );
    }
    Ok(
        ActivationPlan {
            removal: plan_pointer_removal(probe),
            link_path: current_path(home, rt),
            target_path: install_path(home, rt, version),
        },
    )
}

/// How the link creation went. A failure that is neither success nor a
/// policy denial keeps its OS error and is reported by the application
/// itself, outside this taxonomy.
#[derive(Clone, Copy, Debug)]
pub enum LinkOutcome {
    Created,
    PermissionDenied,
}

/// Whether the runtime's distribution carries its binaries in a `bin`
/// subdirectory of the activated tree, or at its top.
pub open spec fn exposes_bin(rt: Runtime, windows: bool) -> bool {
    match rt {
        Runtime::Node => !windows,
        Runtime::Python => !windows,
        Runtime::Go => true,
        Runtime::Bun => false,
    }
}

/// The directory an operator must put on PATH after activating.
pub open spec fn bin_path_of(home: Seq<char>, rt: Runtime, windows: bool) -> Seq<char> {
    if exposes_bin(rt, windows) {
        current_path_of(home, rt) + "/bin"@
    } else {
        current_path_of(home, rt)
    }
}

/// What a successful activation reports: the resolved binary-bearing path
/// under the new pointer. Nothing mutates the process environment; the
/// path is reported, never injected.
#[derive(Debug)]
pub struct ActivationInfo {
    pub bin_path: String,
}

/// The remediation text for a link creation denied by OS policy.
pub open spec fn permission_remedy() -> Seq<char> {
    "creating the link needs permission: enable Developer Mode, or run from an elevated terminal"@
}

/// Finish an activation from the link outcome: a created link yields the
/// PATH entry to report; a policy denial is a `Permission` error carrying
/// actionable remediation text, distinct from any other I/O failure.
pub fn finish_activation(
    rt: Runtime,
    version: &str,
    home: &str,
    windows: bool,
    outcome: LinkOutcome,
) -> (r: Result<ActivationInfo, MlvmError>)
    ensures
        r is Ok <==> outcome is Created,
        r matches Ok(info) ==> info.bin_path@ == bin_path_of(home@, rt, windows),
        r matches Err(e) ==> e.kind == ErrorKind::Permission && e.runtime == rt && e.version@
            == version@ && e.detail@ == permission_remedy(),
{
    match outcome {
        LinkOutcome::Created => {
            let base = current_path(home, rt);
            let bin = if exposes_bin_exec(rt, windows) {
                base.concat("/bin")
            } else {
                base
            };
            Ok(ActivationInfo { bin_path: bin })
        },
        LinkOutcome::PermissionDenied => Err(
            MlvmError::new(
                ErrorKind::Permission,
                rt,
                String::from_str(version),
                String::from_str(
                    "creating the link needs permission: enable Developer Mode, or run from an elevated terminal",
                ),
            ),
        ),
    }
}

fn exposes_bin_exec(rt: Runtime, windows: bool) -> (r: bool)
    ensures
        r == exposes_bin(rt, windows),
{
    match rt {
        Runtime::Node => !windows,
        Runtime::Python => !windows,
        Runtime::Go => true,
        Runtime::Bun => false,
    }
}

/// One effect on the pointer slot: clearing it, or linking it to one
/// target. These are the only writes activation ever makes.
pub enum PointerStep {
    ClearPointer,
    LinkPointer { target: Seq<char> },
}

/// The two effects of one activation, in order: remove, then relink.
pub open spec fn activation_steps(v: Seq<char>) -> Seq<PointerStep> {
    seq![PointerStep::ClearPointer, PointerStep::LinkPointer { target: v }]
}

/// The pointer slot after one effect. The slot is an `Option`: by
/// construction it names at most one target at any time.
pub open spec fn apply_pointer(p: Option<Seq<char>>, st: PointerStep) -> Option<Seq<char>> {
    match st {
        PointerStep::ClearPointer => None,
        PointerStep::LinkPointer { target } => Some(target),
    }
}

/// The pointer slot after a sequence of effects.
pub open spec fn run_pointer(p: Option<Seq<char>>, steps: Seq<PointerStep>) -> Option<
    Seq<char>,
>
    decreases steps.len(),
{
    if steps.len() == 0 {
        p
    } else {
        run_pointer(apply_pointer(p, steps[0]), steps.skip(1))
    }
}

/// Effects run one after the other.
pub proof fn lemma_run_pointer_append(p: Option<Seq<char>>, a: Seq<PointerStep>, b: Seq<
    PointerStep,
>)
    ensures
        run_pointer(p, a + b) == run_pointer(run_pointer(p, a), b),
    decreases a.len(),
{
    if a.len() == 0 {
        assert(a + b =~= b);
    } else {
        assert((a + b).skip(1) =~= a.skip(1) + b);
        lemma_run_pointer_append(apply_pointer(p, a[0]), a.skip(1), b);
    }
}

/// One activation leaves the pointer naming exactly its target, whatever
/// the slot held before — re-activating the already-active version
/// included.
pub proof fn lemma_activation_retargets(p: Option<Seq<char>>, v: Seq<char>)
    ensures
        run_pointer(p, activation_steps(v)) == Some(v),
{
    let steps = activation_steps(v);
    assert(steps[0] == PointerStep::ClearPointer);
    assert(steps.skip(1).len() == 1);
    assert(steps.skip(1)[0] == (PointerStep::LinkPointer { target: v }));
    assert(steps.skip(1).skip(1) =~= Seq::<PointerStep>::empty());
    assert(run_pointer(p, steps) == run_pointer(None, steps.skip(1)));
    assert(run_pointer(None, steps.skip(1)) == run_pointer(Some(v), steps.skip(1).skip(1)));
    assert(run_pointer(Some(v), steps.skip(1).skip(1)) == Some(v));
}

/// The effects of activating a sequence of versions, one after the other.
pub open spec fn activations_seq(versions: Seq<Seq<char>>) -> Seq<PointerStep>
    decreases versions.len(),
{
    if versions.len() == 0 {
        Seq::empty()
    } else {
        activation_steps(versions[0]) + activations_seq(versions.skip(1))
    }
}

/// After consecutive activations of versions v1..vn for one runtime, the
/// `current` slot names exactly the last one. At every intermediate point
/// the slot is an `Option` of one target, so no state ever shows two
/// simultaneously valid targets.
pub proof fn lemma_pointer_single_target(p0: Option<Seq<char>>, versions: Seq<Seq<char>>)
    requires
        versions.len() > 0,
    ensures
        run_pointer(p0, activations_seq(versions)) == Some(versions.last()),
    decreases versions.len(),
{
    lemma_run_pointer_append(p0, activation_steps(versions[0]), activations_seq(versions.skip(1)));
    lemma_activation_retargets(p0, versions[0]);
    if versions.len() == 1 {
        assert(activations_seq(versions.skip(1)) =~= Seq::<PointerStep>::empty());
    } else {
        lemma_pointer_single_target(Some(versions[0]), versions.skip(1));
        assert(versions.skip(1).last() == versions.last());
    }
}

} // verus!
