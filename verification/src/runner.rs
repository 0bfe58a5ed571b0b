//! The cluster runner: produces a new running-instance entry.
//!
//! Running a cluster is resolve, spawn, register — in that order. The
//! shell performs the two outside steps (looking the cluster up in
//! the on-disk catalog, spawning the OS process); the decisions
//! between them stand here: a cluster that does not resolve is
//! `NotFound` before anything is spawned, a spawn that fails is
//! `SpawnFailed` with the registry untouched, and a spawn that
//! succeeds is registered atomically under a fresh identifier.

use vstd::prelude::*;

use crate::errors::RunError;
use crate::registry::ClusterPath;
use crate::registry::ProcessRegistry;
use crate::registry::RunningInstance;
use crate::registry::contains_id;

verus! {

/// What the OS reported of a freshly spawned process.
pub struct SpawnedProcess {
    /// The OS process id; `None` when the OS did not report one.
    pub pid: Option<u32>,
}

/// Confirms cluster resolution before anything is spawned: an absent
/// cluster is `NotFound`, and the caller spawns only on success.
pub fn resolve_cluster(resolved: Option<ClusterPath>) -> (r: Result<ClusterPath, RunError>)
    ensures
        match resolved {
            Some(p) => r matches Ok(q) && q == p,
            None => r == Err::<ClusterPath, RunError>(RunError::NotFound),
        },
{
    match resolved {
        Some(p) => Ok(p),
        None => Err(RunError::NotFound),
    }
}

/// Registers the outcome of a spawn attempt. A failed spawn is
/// `SpawnFailed` and the registry is untouched; a successful spawn is
/// registered under a freshly drawn identifier — all or nothing, so
/// no half-registered entry is ever visible — and the new instance is
/// returned.
pub fn complete_run(
    reg: &mut ProcessRegistry,
    path: ClusterPath,
    spawned: Option<SpawnedProcess>,
    now_ms: i64,
) -> (r: Result<RunningInstance, RunError>)
    requires
        old(reg).wf(),
    ensures
        final(reg).wf(),
        spawned is None ==> r == Err::<RunningInstance, RunError>(RunError::SpawnFailed)
            && final(reg)@ == old(reg)@,
        spawned matches Some(sp) ==> match r {
            Ok(inst) => {
                &&& inst@.path == path@
                &&& inst@.pid == sp.pid
                &&& inst@.started_at_ms == now_ms as int
                &&& !contains_id(old(reg)@, inst.uuid)
                &&& final(reg)@ == old(reg)@.push(inst@)
            },
            Err(e) => e == RunError::DuplicateInstance && final(reg)@ == old(reg)@,
        },
{
    match spawned {
        None => Err(RunError::SpawnFailed),
        Some(sp) => match reg.register(path, sp.pid, now_ms) {
            Ok(inst) => Ok(inst),
            Err(_) => Err(RunError::DuplicateInstance),
        },
    }
}

/// The outward handles of a freshly run instance: its identifier and
/// the OS pid, with `0` as the explicit "the OS did not report an id"
/// sentinel.
pub fn run_handles(inst: &RunningInstance) -> (r: (u128, u32))
    ensures
        r.0 == inst.uuid,
        r.1 == (match inst.pid {
            Some(p) => p,
            None => 0u32,
        }),
{
    (inst.uuid, inst.pid_or_zero())
}

} // verus!
