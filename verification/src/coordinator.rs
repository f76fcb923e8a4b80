//! The interrupt coordinator: a one-shot restoration driver.
//!
//! A background listener waits for the first interrupt signal (interactive
//! interrupt, termination request, or hangup). The coordinator here decides
//! what that listener does: on the first signal it fires exactly once and
//! hands back the restoration plan — one default-device write returning the
//! pointer to the value captured at startup, followed by a best-effort
//! volume restore — and from then on every further signal is ignored.

use vstd::prelude::*;
use crate::platform::{PlatformDefaults, Scope, spec_set_default};

verus! {

/// The platform defaults captured at startup, before any mutation.
#[derive(Clone, Copy, PartialEq, Eq, Structural, Debug)]
pub struct Snapshot {
    pub original_default_input: u32,
    pub original_default_output: u32,
}

/// Lifecycle of the listener: waiting for the first signal, or done.
/// `Fired` is terminal — no further signal is acted on.
#[derive(Clone, Copy, PartialEq, Eq, Structural, Debug)]
pub enum CoordinatorPhase {
    Armed,
    Fired,
}

/// The single default-device write of the restoration sequence. The
/// best-effort volume restore follows it unconditionally; its failure never
/// propagates and never blocks the write described here.
#[derive(Clone, Copy, PartialEq, Eq, Structural, Debug)]
pub struct RestorePlan {
    pub scope: Scope,
    pub device_id: u32,
}

/// The restoration write a snapshot calls for: return the default-input
/// pointer to the default-output device captured at startup.
pub open spec fn spec_restore_plan(snap: Snapshot) -> RestorePlan {
    RestorePlan { scope: Scope::Input, device_id: snap.original_default_output }
}

/// Drives the one-shot restoration sequence from the startup snapshot.
#[derive(Clone, Copy, PartialEq, Eq, Structural, Debug)]
pub struct Coordinator {
    pub phase: CoordinatorPhase,
    pub snapshot: Snapshot,
}

impl Coordinator {
    /// Arms the coordinator over the defaults captured at startup.
    pub fn new(snapshot: Snapshot) -> (c: Coordinator)
        ensures
            c.phase is Armed,
            c.snapshot == snapshot,
    {
        Coordinator { phase: CoordinatorPhase::Armed, snapshot }
    }

    /// Consumes one signal. The first signal wins: while armed, the
    /// coordinator fires and hands back the restoration plan; once fired it
    /// stays fired and orders nothing further.
    pub fn on_signal(&mut self) -> (r: Option<RestorePlan>)
        ensures
            final(self).phase is Fired,
            final(self).snapshot == old(self).snapshot,
            old(self).phase is Armed ==> r == Some(spec_restore_plan(old(self).snapshot)),
            old(self).phase is Fired ==> r is None,
    {
        match self.phase {
            CoordinatorPhase::Armed => {
                self.phase = CoordinatorPhase::Fired;
                Some(RestorePlan {
                    scope: Scope::Input,
                    device_id: self.snapshot.original_default_output,
                })
            },
            CoordinatorPhase::Fired => None,
        }
    }
}

/// Restoration invariant: executing the fired plan on any platform state
/// leaves the default-input device equal to the default-output device
/// captured at startup, regardless of what redirection happened in between.
pub proof fn lemma_restoration_invariant(snap: Snapshot, p: PlatformDefaults)
    ensures
        spec_set_default(p, spec_restore_plan(snap).scope, spec_restore_plan(snap).device_id)
            .default_input == snap.original_default_output,
{
}

} // verus!
