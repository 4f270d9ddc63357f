//! The install planner: the state machine that turns a resolved descriptor
//! into an idempotently installed, atomically visible version directory.
//!
//! The planner owns every decision of an install call; the surrounding
//! application owns the effects. It asks the planner for the pending
//! action, performs it (a path probe, an HTTP fetch, an unpack, a rename),
//! and reports the outcome as an event. The final install directory is
//! touched by exactly one action, the single rename out of the scratch
//! area: before it no install-path state exists, after it the install is
//! permanently visible. A rename that fails transiently (file handles held
//! by the OS, observed on Windows) is retried a bounded number of times
//! with a fixed backoff before the operation is abandoned; the scratch
//! area is removed whether the rename succeeded or not.

use vstd::prelude::*;
use crate::Runtime;
use crate::errors::ErrorKind;

verus! {

/// How many times the commit rename is attempted before the install is
/// abandoned with a relocation error.
pub const RENAME_ATTEMPTS: u8 = 3;

/// Fixed pause between two rename attempts, in milliseconds.
pub const RENAME_BACKOFF_MS: u64 = 500;

/// Where an install call stands. Each non-final state has exactly one
/// pending action.
#[derive(Clone, Copy, Debug)]
pub enum InstallState {
    /// Probe the final install directory; its existence alone decides
    /// whether any work is owed.
    CheckSlot,
    /// Ask the runtime adapter for a download descriptor.
    Resolve,
    /// Fetch the descriptor's URL.
    Download,
    /// Remove a stale scratch directory left by an earlier crashed call.
    ClearScratch,
    /// Unpack the payload into the fresh scratch directory.
    Extract,
    /// Look for the descriptor's declared top-level folder in the scratch
    /// directory.
    Locate,
    /// Rename the located folder into the final slot; `attempts` renames
    /// have already failed.
    Rename { attempts: u8 },
    /// Wait the fixed backoff before retrying the rename.
    Backoff { attempts: u8 },
    /// Remove the scratch directory, then finish; a failure to report, if
    /// any, is carried along.
    Cleanup { failure: Option<ErrorKind> },
    /// The install is over; `already` says whether the version had been
    /// installed before this call.
    Done { already: bool },
    /// The install failed; no scratch litter remains.
    Failed { kind: ErrorKind },
}

/// What the application reports back after performing the pending action.
#[derive(Clone, Copy, Debug)]
pub enum InstallEvent {
    /// Does the final install directory exist?
    SlotChecked { exists: bool },
    /// Did the adapter produce a descriptor?
    Resolved { ok: bool },
    /// Did the transfer succeed with a success status?
    Downloaded { ok: bool },
    /// The best-effort removal of a stale scratch directory ran.
    ScratchCleared,
    /// Did the payload unpack into the scratch directory?
    Extracted { ok: bool },
    /// Was the declared top-level folder found in the scratch directory?
    Located { found: bool },
    /// Did the rename into the final slot succeed?
    Renamed { ok: bool },
    /// The backoff pause elapsed.
    Waited,
    /// The final removal of the scratch directory ran.
    ScratchRemoved,
}

/// What the application must do next.
#[derive(Clone, Copy, Debug, PartialEq, Eq, Structural)]
pub enum InstallAction {
    /// Check whether the final install directory exists.
    ProbeSlot,
    /// Ask the runtime adapter for the descriptor.
    ResolveDescriptor,
    /// HTTP GET the descriptor's URL.
    FetchPayload,
    /// Remove the scratch directory if present, best-effort.
    RemoveScratch,
    /// Unpack the prepared payload into the scratch directory.
    Unpack,
    /// Check whether the declared top-level folder exists in the scratch
    /// directory.
    LocateTopFolder,
    /// Create the runtime root if missing, then rename the located folder
    /// to the final install path.
    Relocate,
    /// Sleep for the fixed backoff.
    Wait,
    /// Nothing is left to do.
    Finish,
}

/// The transition relation of the planner. An event that does not answer
/// the pending action changes nothing; the final states absorb every
/// event.
pub open spec fn next(s: InstallState, e: InstallEvent) -> InstallState {
    match (s, e) {
        (InstallState::CheckSlot, InstallEvent::SlotChecked { exists }) => if exists {
            InstallState::Done { already: true }
        } else {
            InstallState::Resolve
        },
        (InstallState::Resolve, InstallEvent::Resolved { ok }) => if ok {
            InstallState::Download
        } else {
            InstallState::Failed { kind: ErrorKind::Resolution }
        },
        (InstallState::Download, InstallEvent::Downloaded { ok }) => if ok {
            InstallState::ClearScratch
        } else {
            InstallState::Failed { kind: ErrorKind::Download }
        },
        (InstallState::ClearScratch, InstallEvent::ScratchCleared) => InstallState::Extract,
        (InstallState::Extract, InstallEvent::Extracted { ok }) => if ok {
            InstallState::Locate
        } else {
            InstallState::Cleanup { failure: Some(ErrorKind::Format) }
        },
        (InstallState::Locate, InstallEvent::Located { found }) => if found {
            InstallState::Rename { attempts: 0 }
        } else {
            InstallState::Cleanup { failure: Some(ErrorKind::Layout) }
        },
        (InstallState::Rename { attempts }, InstallEvent::Renamed { ok }) => if ok {
            InstallState::Cleanup { failure: None }
        } else if attempts + 1 < RENAME_ATTEMPTS {
            InstallState::Backoff { attempts: (attempts + 1) as u8 }
        } else {
            InstallState::Cleanup { failure: Some(ErrorKind::Relocation) }
        },
        (InstallState::Backoff { attempts }, InstallEvent::Waited) => InstallState::Rename {
            attempts,
        },
        (InstallState::Cleanup { failure }, InstallEvent::ScratchRemoved) => match failure {
            None => InstallState::Done { already: false },
            Some(kind) => InstallState::Failed { kind },
        },
        _ => s,
    }
}

/// The single pending action of a state.
pub open spec fn pending(s: InstallState) -> InstallAction {
    match s {
        InstallState::CheckSlot => InstallAction::ProbeSlot,
        InstallState::Resolve => InstallAction::ResolveDescriptor,
        InstallState::Download => InstallAction::FetchPayload,
        InstallState::ClearScratch => InstallAction::RemoveScratch,
        InstallState::Extract => InstallAction::Unpack,
        InstallState::Locate => InstallAction::LocateTopFolder,
        InstallState::Rename { .. } => InstallAction::Relocate,
        InstallState::Backoff { .. } => InstallAction::Wait,
        InstallState::Cleanup { .. } => InstallAction::RemoveScratch,
        InstallState::Done { .. } => InstallAction::Finish,
        InstallState::Failed { .. } => InstallAction::Finish,
    }
}

/// The state an install run reaches from `s0` after the given events.
pub open spec fn run(s0: InstallState, evs: Seq<InstallEvent>) -> InstallState
    decreases evs.len(),
{
    if evs.len() == 0 {
        s0
    } else {
        run(next(s0, evs[0]), evs.skip(1))
    }
}

/// One install call as the planner drives it: the control state plus the
/// runtime and normalized version it concerns.
#[derive(Debug)]
pub struct InstallPlanner {
    pub runtime: Runtime,
    pub version: String,
    pub state: InstallState,
}

impl InstallPlanner {
    /// A fresh install call; the first action probes the final slot.
    pub fn new(runtime: Runtime, version: String) -> (r: InstallPlanner)
        ensures
            r.runtime == runtime,
            r.version == version,
            r.state is CheckSlot,
    {
        InstallPlanner { runtime, version, state: InstallState::CheckSlot }
    }

    /// The action the application must perform next.
    pub fn pending_action(&self) -> (a: InstallAction)
        ensures
            a == pending(self.state),
    {
        match self.state {
            InstallState::CheckSlot => InstallAction::ProbeSlot,
            InstallState::Resolve => InstallAction::ResolveDescriptor,
            InstallState::Download => InstallAction::FetchPayload,
            InstallState::ClearScratch => InstallAction::RemoveScratch,
            InstallState::Extract => InstallAction::Unpack,
            InstallState::Locate => InstallAction::LocateTopFolder,
            InstallState::Rename { .. } => InstallAction::Relocate,
            InstallState::Backoff { .. } => InstallAction::Wait,
            InstallState::Cleanup { .. } => InstallAction::RemoveScratch,
            InstallState::Done { .. } => InstallAction::Finish,
            InstallState::Failed { .. } => InstallAction::Finish,
        }
    }

    /// Advance on the outcome of the pending action and hand back the next
    /// action.
    pub fn step(&mut self, e: InstallEvent) -> (a: InstallAction)
        ensures
            final(self).state == next(old(self).state, e),
            final(self).runtime == old(self).runtime,
            final(self).version == old(self).version,
            a == pending(final(self).state),
    {
        let s = self.state;
        let n = match (s, e) {
            (InstallState::CheckSlot, InstallEvent::SlotChecked { exists }) => if exists {
                InstallState::Done { already: true }
            } else {
                InstallState::Resolve
            },
            (InstallState::Resolve, InstallEvent::Resolved { ok }) => if ok {
                InstallState::Download
            } else {
                InstallState::Failed { kind: ErrorKind::Resolution }
            },
            (InstallState::Download, InstallEvent::Downloaded { ok }) => if ok {
                InstallState::ClearScratch
            } else {
                InstallState::Failed { kind: ErrorKind::Download }
            },
            (InstallState::ClearScratch, InstallEvent::ScratchCleared) => InstallState::Extract,
            (InstallState::Extract, InstallEvent::Extracted { ok }) => if ok {
                InstallState::Locate
            } else {
                InstallState::Cleanup { failure: Some(ErrorKind::Format) }
            },
            (InstallState::Locate, InstallEvent::Located { found }) => if found {
                InstallState::Rename { attempts: 0 }
            } else {
                InstallState::Cleanup { failure: Some(ErrorKind::Layout) }
            },
            (InstallState::Rename { attempts }, InstallEvent::Renamed { ok }) => if ok {
                InstallState::Cleanup { failure: None }
            } else if attempts < RENAME_ATTEMPTS - 1 {
                InstallState::Backoff { attempts: attempts + 1 }
            } else {
                InstallState::Cleanup { failure: Some(ErrorKind::Relocation) }
            },
            (InstallState::Backoff { attempts }, InstallEvent::Waited) => InstallState::Rename {
                attempts,
            },
            (InstallState::Cleanup { failure }, InstallEvent::ScratchRemoved) => match failure {
                None => InstallState::Done { already: false },
                Some(kind) => InstallState::Failed { kind },
            },
            _ => s,
        };
        self.state = n;
        self.pending_action()
    }

    /// The failure this call ended with, if it has ended at all.
    pub fn failure(&self) -> (r: Option<ErrorKind>)
        ensures
            r is Some <==> self.state is Failed,
            self.state matches InstallState::Failed { kind } ==> r == Some(kind),
    {
        match self.state {
            InstallState::Failed { kind } => Some(kind),
            _ => None,
        }
    }
}

/// The forward order of an install call's stages. The rename retry loop
/// turns inside one stage; everything else only moves forward.
pub open spec fn phase(s: InstallState) -> int {
    match s {
        InstallState::CheckSlot => 0,
        InstallState::Resolve => 1,
        InstallState::Download => 2,
        InstallState::ClearScratch => 3,
        InstallState::Extract => 4,
        InstallState::Locate => 5,
        InstallState::Rename { .. } => 6,
        InstallState::Backoff { .. } => 6,
        InstallState::Cleanup { .. } => 7,
        InstallState::Done { .. } => 8,
        InstallState::Failed { .. } => 8,
    }
}

/// The event answers the pending action of the state.
pub open spec fn answers(s: InstallState, e: InstallEvent) -> bool {
    match (s, e) {
        (InstallState::CheckSlot, InstallEvent::SlotChecked { .. }) => true,
        (InstallState::Resolve, InstallEvent::Resolved { .. }) => true,
        (InstallState::Download, InstallEvent::Downloaded { .. }) => true,
        (InstallState::ClearScratch, InstallEvent::ScratchCleared) => true,
        (InstallState::Extract, InstallEvent::Extracted { .. }) => true,
        (InstallState::Locate, InstallEvent::Located { .. }) => true,
        (InstallState::Rename { .. }, InstallEvent::Renamed { .. }) => true,
        (InstallState::Backoff { .. }, InstallEvent::Waited) => true,
        (InstallState::Cleanup { .. }, InstallEvent::ScratchRemoved) => true,
        (InstallState::Done { .. }, _) => true,
        (InstallState::Failed { .. }, _) => true,
        _ => false,
    }
}

/// Every event of the run answers the pending action of the state it
/// meets — a faithful driver never reports an unasked outcome.
pub open spec fn all_answer(s0: InstallState, evs: Seq<InstallEvent>) -> bool
    decreases evs.len(),
{
    evs.len() == 0 || (answers(s0, evs[0]) && all_answer(next(s0, evs[0]), evs.skip(1)))
}

/// How many events the run consumes while standing in a state of the
/// given stage.
pub open spec fn steps_at(s0: InstallState, evs: Seq<InstallEvent>, ph: int) -> int
    decreases evs.len(),
{
    if evs.len() == 0 {
        0
    } else {
        (if phase(s0) == ph {
            1int
        } else {
            0int
        }) + steps_at(next(s0, evs[0]), evs.skip(1), ph)
    }
}

/// No transition moves to an earlier stage.
pub proof fn lemma_phase_monotone(s: InstallState, e: InstallEvent)
    ensures
        phase(next(s, e)) >= phase(s),
{
}

proof fn lemma_stage_never_returns(s0: InstallState, evs: Seq<InstallEvent>, ph: int)
    requires
        phase(s0) > ph,
    ensures
        steps_at(s0, evs, ph) == 0,
    decreases evs.len(),
{
    if evs.len() > 0 {
        lemma_phase_monotone(s0, evs[0]);
        lemma_stage_never_returns(next(s0, evs[0]), evs.skip(1), ph);
    }
}

/// Work within one install call is not repeated: while its events answer
/// its pending actions, a run stands at most once in any stage except the
/// rename retry loop and the finished stage. In particular the payload is
/// fetched at most once and unpacked at most once, and the stale-scratch
/// removal runs at most once.
pub proof fn lemma_stage_visited_once(s0: InstallState, evs: Seq<InstallEvent>, ph: int)
    requires
        all_answer(s0, evs),
        ph != 6,
        ph != 8,
    ensures
        steps_at(s0, evs, ph) <= 1,
    decreases evs.len(),
{
    if evs.len() > 0 {
        let s1 = next(s0, evs[0]);
        if phase(s0) == ph {
            assert(phase(s1) > ph);
            lemma_stage_never_returns(s1, evs.skip(1), ph);
        } else {
            lemma_stage_visited_once(s1, evs.skip(1), ph);
        }
    }
}

/// The filesystem state an install run can touch, reduced to what the
/// properties speak of: the content of the final install directory and of
/// the scratch directory. `T` stands for a whole directory tree; a
/// directory holds either a complete tree or nothing, never a named part
/// of one.
pub struct RootModel<T> {
    /// Content of the final install directory, absent until the commit
    /// rename.
    pub slot: Option<T>,
    /// Content of the scratch directory.
    pub scratch: Option<T>,
}

/// The effect of performing the pending action of `s` with outcome `e` on
/// the modelled directories. `unpacked` is the complete tree a successful
/// extraction leaves in the scratch directory, `top` the complete tree
/// under the declared top-level folder, and `junk` whatever partial state
/// a failed extraction leaves behind.
pub open spec fn apply<T>(
    m: RootModel<T>,
    s: InstallState,
    e: InstallEvent,
    unpacked: T,
    top: T,
    junk: T,
) -> RootModel<T> {
    match (s, e) {
        (InstallState::ClearScratch, InstallEvent::ScratchCleared) => RootModel {
            slot: m.slot,
            scratch: None,
        },
        (InstallState::Extract, InstallEvent::Extracted { ok }) => if ok {
            RootModel { slot: m.slot, scratch: Some(unpacked) }
        } else {
            RootModel { slot: m.slot, scratch: Some(junk) }
        },
        (InstallState::Rename { .. }, InstallEvent::Renamed { ok }) => if ok {
            RootModel { slot: Some(top), scratch: m.scratch }
        } else {
            m
        },
        (InstallState::Cleanup { .. }, InstallEvent::ScratchRemoved) => RootModel {
            slot: m.slot,
            scratch: None,
        },
        _ => m,
    }
}

/// The modelled filesystem after a run.
pub open spec fn run_model<T>(
    m: RootModel<T>,
    s0: InstallState,
    evs: Seq<InstallEvent>,
    unpacked: T,
    top: T,
    junk: T,
) -> RootModel<T>
    decreases evs.len(),
{
    if evs.len() == 0 {
        m
    } else {
        run_model(
            apply(m, s0, evs[0], unpacked, top, junk),
            next(s0, evs[0]),
            evs.skip(1),
            unpacked,
            top,
            junk,
        )
    }
}

/// A probe event tells the truth about the modelled filesystem.
pub open spec fn event_consistent<T>(m: RootModel<T>, s: InstallState, e: InstallEvent) -> bool {
    match (s, e) {
        (InstallState::CheckSlot, InstallEvent::SlotChecked { exists }) => exists == (
        m.slot is Some),
        _ => true,
    }
}

/// A finished call absorbs every further event and touches nothing: the
/// state stays final, the pending action stays `Finish`, and the modelled
/// filesystem never changes.
pub proof fn lemma_final_state_absorbs<T>(
    m: RootModel<T>,
    s0: InstallState,
    evs: Seq<InstallEvent>,
    unpacked: T,
    top: T,
    junk: T,
)
    requires
        s0 is Done || s0 is Failed,
    ensures
        run(s0, evs) == s0,
        run_model(m, s0, evs, unpacked, top, junk) == m,
        pending(run(s0, evs)) == InstallAction::Finish,
    decreases evs.len(),
{
    if evs.len() > 0 {
        assert(next(s0, evs[0]) == s0);
        assert(apply(m, s0, evs[0], unpacked, top, junk) == m);
        lemma_final_state_absorbs(m, s0, evs.skip(1), unpacked, top, junk);
    }
}

/// Idempotency: when the version is already installed, the probe is the
/// whole call. The run finishes at once reporting the prior install, no
/// download, extraction or scratch work is among its actions, and the
/// modelled filesystem — the existing install directory included — is
/// left exactly as it was. This holds of every event sequence, so it
/// holds at every point of the run.
pub proof fn lemma_install_idempotent<T>(
    m: RootModel<T>,
    evs: Seq<InstallEvent>,
    unpacked: T,
    top: T,
    junk: T,
)
    requires
        m.slot is Some,
        evs.len() > 0,
        event_consistent(m, InstallState::CheckSlot, evs[0]),
        evs[0] is SlotChecked,
    ensures
        run(InstallState::CheckSlot, evs) == (InstallState::Done { already: true }),
        run_model(m, InstallState::CheckSlot, evs, unpacked, top, junk) == m,
        pending(run(InstallState::CheckSlot, evs)) == InstallAction::Finish,
{
    let s1 = next(InstallState::CheckSlot, evs[0]);
    assert(s1 == (InstallState::Done { already: true }));
    assert(apply(m, InstallState::CheckSlot, evs[0], unpacked, top, junk) == m);
    lemma_final_state_absorbs(m, s1, evs.skip(1), unpacked, top, junk);
}

/// Atomic visibility, one step: no action changes the final install
/// directory except a successful commit rename, which fills it with the
/// complete extracted top-level tree in that single step.
pub proof fn lemma_slot_atomic_step<T>(
    m: RootModel<T>,
    s: InstallState,
    e: InstallEvent,
    unpacked: T,
    top: T,
    junk: T,
)
    ensures
        apply(m, s, e, unpacked, top, junk).slot == m.slot || (apply(
            m,
            s,
            e,
            unpacked,
            top,
            junk,
        ).slot == Some(top) && s is Rename && e == (InstallEvent::Renamed { ok: true })),
{
}

/// Atomic visibility, whole runs: starting from an absent final install
/// directory, the directory is absent or holds the complete extracted
/// top-level tree — never a strict part of it. This holds of every event
/// sequence, hence of every prefix of a run: an observer at any point
/// sees either nothing or the finished directory.
pub proof fn lemma_slot_never_partial<T>(
    m: RootModel<T>,
    s0: InstallState,
    evs: Seq<InstallEvent>,
    unpacked: T,
    top: T,
    junk: T,
)
    requires
        m.slot is None,
    ensures
        run_model(m, s0, evs, unpacked, top, junk).slot is None || run_model(
            m,
            s0,
            evs,
            unpacked,
            top,
            junk,
        ).slot == Some(top),
    decreases evs.len(),
{
    if evs.len() > 0 {
        let m1 = apply(m, s0, evs[0], unpacked, top, junk);
        if m1.slot is None {
            lemma_slot_never_partial(m1, next(s0, evs[0]), evs.skip(1), unpacked, top, junk);
        } else {
            assert(m1.slot == Some(top));
            lemma_slot_stays_complete(m1, next(s0, evs[0]), evs.skip(1), unpacked, top, junk);
        }
    }
}

/// Once the final install directory holds the complete tree, no later
/// action of the run changes it: an installed version is write-once.
pub proof fn lemma_slot_stays_complete<T>(
    m: RootModel<T>,
    s0: InstallState,
    evs: Seq<InstallEvent>,
    unpacked: T,
    top: T,
    junk: T,
)
    requires
        m.slot == Some(top),
    ensures
        run_model(m, s0, evs, unpacked, top, junk).slot == Some(top),
    decreases evs.len(),
{
    if evs.len() > 0 {
        lemma_slot_stays_complete(
            apply(m, s0, evs[0], unpacked, top, junk),
            next(s0, evs[0]),
            evs.skip(1),
            unpacked,
            top,
            junk,
        );
    }
}

/// The inductive invariant behind crash recovery: entering the cleanup of
/// a successful rename implies the slot already holds the complete tree,
/// and a successfully finished fresh install implies the slot holds the
/// complete tree and no scratch directory remains.
pub open spec fn recovery_inv<T>(s: InstallState, m: RootModel<T>, top: T) -> bool {
    &&& (s == (InstallState::Cleanup { failure: None::<ErrorKind> }) ==> m.slot == Some(top))
    &&& (s == (InstallState::Done { already: false }) ==> m.slot == Some(top)
        && m.scratch is None)
}

proof fn lemma_recovery_inv_preserved<T>(
    m: RootModel<T>,
    s0: InstallState,
    evs: Seq<InstallEvent>,
    unpacked: T,
    top: T,
    junk: T,
)
    requires
        recovery_inv(s0, m, top),
    ensures
        recovery_inv(run(s0, evs), run_model(m, s0, evs, unpacked, top, junk), top),
    decreases evs.len(),
{
    if evs.len() > 0 {
        let s1 = next(s0, evs[0]);
        let m1 = apply(m, s0, evs[0], unpacked, top, junk);
        assert(recovery_inv(s1, m1, top));
        lemma_recovery_inv_preserved(m1, s1, evs.skip(1), unpacked, top, junk);
    }
}

/// Crash recovery: whatever stale content a scratch directory holds at
/// the start — leftovers of an earlier crashed call included — a fresh
/// install run that finishes successfully leaves the complete extracted
/// tree in the final install directory and no scratch directory at all.
/// No trace of the stale content survives.
pub proof fn lemma_crash_recovery<T>(
    m: RootModel<T>,
    evs: Seq<InstallEvent>,
    unpacked: T,
    top: T,
    junk: T,
)
    requires
        run(InstallState::CheckSlot, evs) == (InstallState::Done { already: false }),
    ensures
        run_model(m, InstallState::CheckSlot, evs, unpacked, top, junk).slot == Some(top),
        run_model(m, InstallState::CheckSlot, evs, unpacked, top, junk).scratch is None,
{
    lemma_recovery_inv_preserved(m, InstallState::CheckSlot, evs, unpacked, top, junk);
}

} // verus!
