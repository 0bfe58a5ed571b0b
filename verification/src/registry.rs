//! The process registry: the one piece of mutable shared state.
//!
//! It tracks every live game-instance process under a generated
//! instance identifier, keeps a well-formedness invariant (identifiers
//! are pairwise distinct), and supports registration, snapshot listing,
//! a secondary cluster-path index, and idempotent-by-error termination.
//!
//! The registry owns only the bookkeeping. The OS process handle lives
//! at the boundary: `terminate` removes the entry and hands back what
//! the caller must kill, so the table can never report an instance
//! whose termination already returned.

use vstd::prelude::*;

use crate::errors::RegistryError;

verus! {

/// A cluster's on-disk location, compared by its textual path.
pub struct ClusterPath {
    pub path: String,
}

impl View for ClusterPath {
    type V = Seq<char>;

    open spec fn view(&self) -> Seq<char> {
        self.path@
    }
}

impl ClusterPath {
    /// Wraps a path string.
    pub fn new(path: String) -> (r: Self)
        ensures
            r@ == path@,
    {
        ClusterPath { path }
    }

    /// Path equality, the relation the secondary index filters by.
    pub fn same_path(&self, other: &ClusterPath) -> (r: bool)
        ensures
            r == (self@ == other@),
    {
        self.path == other.path
    }
}

impl Clone for ClusterPath {
    fn clone(&self) -> (r: Self)
        ensures
            r@ == self@,
    {
        ClusterPath { path: self.path.clone() }
    }
}

/// The mathematical image of one registry entry.
pub struct InstanceView {
    pub uuid: u128,
    pub path: Seq<char>,
    pub pid: Option<u32>,
    pub started_at_ms: int,
}

/// One live process launched for a cluster.
pub struct RunningInstance {
    /// Instance identifier, distinct from the cluster's identifier.
    pub uuid: u128,
    /// The owning cluster's location.
    pub cluster_path: ClusterPath,
    /// OS process id; `None` when the OS did not report one.
    pub pid: Option<u32>,
    /// Launch timestamp, milliseconds since the epoch.
    pub started_at_ms: i64,
}

impl View for RunningInstance {
    type V = InstanceView;

    open spec fn view(&self) -> InstanceView {
        InstanceView {
            uuid: self.uuid,
            path: self.cluster_path@,
            pid: self.pid,
            started_at_ms: self.started_at_ms as int,
        }
    }
}

impl Clone for RunningInstance {
    fn clone(&self) -> (r: Self)
        ensures
            r@ == self@,
    {
        RunningInstance {
            uuid: self.uuid,
            cluster_path: self.cluster_path.clone(),
            pid: self.pid,
            started_at_ms: self.started_at_ms,
        }
    }
}

impl RunningInstance {
    /// The OS process id with the boundary's sentinel: `0` stands for
    /// "the OS did not report an id".
    pub fn pid_or_zero(&self) -> (r: u32)
        ensures
            r == (match self.pid {
                Some(p) => p,
                None => 0u32,
            }),
    {
        match self.pid {
            Some(p) => p,
            None => 0,
        }
    }
}

/// Whether some entry of `s` carries the identifier `id`.
pub open spec fn contains_id(s: Seq<InstanceView>, id: u128) -> bool {
    exists|i: int| 0 <= i < s.len() && s[i].uuid == id
}

/// Identifiers are pairwise distinct: the registry's invariant.
pub open spec fn ids_unique(s: Seq<InstanceView>) -> bool {
    forall|i: int, j: int| 0 <= i < j < s.len() ==> s[i].uuid != s[j].uuid
}

/// The identifiers of the entries owned by cluster path `p`, in
/// registration order: the secondary index.
pub open spec fn ids_for_path(s: Seq<InstanceView>, p: Seq<char>) -> Seq<u128>
    decreases s.len(),
{
    if s.len() == 0 {
        Seq::empty()
    } else {
        let rest = ids_for_path(s.drop_last(), p);
        if s.last().path == p {
            rest.push(s.last().uuid)
        } else {
            rest
        }
    }
}

/// The distinct cluster paths of `s`, first occurrence first.
pub open spec fn distinct_paths(s: Seq<InstanceView>) -> Seq<Seq<char>>
    decreases s.len(),
{
    if s.len() == 0 {
        Seq::empty()
    } else {
        let rest = distinct_paths(s.drop_last());
        if rest.contains(s.last().path) {
            rest
        } else {
            rest.push(s.last().path)
        }
    }
}

/// The process-wide table of running instances.
pub struct ProcessRegistry {
    entries: Vec<RunningInstance>,
}

impl View for ProcessRegistry {
    type V = Seq<InstanceView>;

    closed spec fn view(&self) -> Seq<InstanceView> {
        Seq::new(self.entries@.len(), |i: int| self.entries@[i]@)
    }
}

impl ProcessRegistry {
    /// The invariant every operation preserves.
    pub open spec fn wf(&self) -> bool {
        ids_unique(self@)
    }

    /// An empty registry, constructed once at application start.
    pub fn new() -> (r: Self)
        ensures
            r@ == Seq::<InstanceView>::empty(),
            r.wf(),
    {
        let r = ProcessRegistry { entries: Vec::new() };
        proof {
            assert(r@ =~= Seq::<InstanceView>::empty());
        }
        r
    }

    /// Whether an entry with identifier `id` is currently tracked.
    #[verifier::loop_isolation(false)]
    pub fn contains(&self, id: u128) -> (r: bool)
        ensures
            r == contains_id(self@, id),
    {
        let mut i: usize = 0;
        while i < self.entries.len()
            invariant
                0 <= i <= self.entries.len(),
                forall|j: int| 0 <= j < i ==> self@[j].uuid != id,
            decreases self.entries.len() - i,
        {
            if self.entries[i].uuid == id {
                assert(self@[i as int].uuid == id);
                return true;
            }
            i += 1;
        }
        false
    }

    /// Inserts a new entry under the caller-supplied identifier.
    /// Succeeds exactly when the identifier is not yet tracked; on
    /// failure the table is unchanged — registration is all or nothing.
    #[verifier::loop_isolation(false)]
    pub fn register_with_id(
        &mut self,
        id: u128,
        cluster_path: ClusterPath,
        pid: Option<u32>,
        started_at_ms: i64,
    ) -> (r: Result<(), RegistryError>)
        requires
            old(self).wf(),
        ensures
            final(self).wf(),
            r is Ok <==> !contains_id(old(self)@, id),
            r is Ok ==> final(self)@ == old(self)@.push(InstanceView {
                uuid: id,
                path: cluster_path@,
                pid,
                started_at_ms: started_at_ms as int,
            }),
            r is Err ==> final(self)@ == old(self)@ && r == Err::<(), RegistryError>(
                RegistryError::DuplicateInstance,
            ),
    {
        if self.contains(id) {
            return Err(RegistryError::DuplicateInstance);
        }
        let inst = RunningInstance { uuid: id, cluster_path, pid, started_at_ms };
        self.entries.push(inst);
        proof {
            assert(self@ =~= old(self)@.push(inst@));
        }
        Ok(())
    }

    /// Inserts a new entry under a freshly drawn identifier and returns
    /// the registered instance. The identifier source is random, so a
    /// collision with a tracked identifier is reported as an error and
    /// leaves the table unchanged; `register_with_id` carries the exact
    /// success condition for a known identifier.
    pub fn register(
        &mut self,
        cluster_path: ClusterPath,
        pid: Option<u32>,
        started_at_ms: i64,
    ) -> (r: Result<RunningInstance, RegistryError>)
        requires
            old(self).wf(),
        ensures
            final(self).wf(),
            match r {
                Ok(inst) => {
                    &&& !contains_id(old(self)@, inst.uuid)
                    &&& inst@ == (InstanceView {
                        uuid: inst.uuid,
                        path: cluster_path@,
                        pid,
                        started_at_ms: started_at_ms as int,
                    })
                    &&& final(self)@ == old(self)@.push(inst@)
                },
                Err(e) => final(self)@ == old(self)@ && e == RegistryError::DuplicateInstance,
            },
    {
        let id = fresh_instance_id();
        let inst = RunningInstance {
            uuid: id,
            cluster_path: cluster_path.clone(),
            pid,
            started_at_ms,
        };
        match self.register_with_id(id, cluster_path, pid, started_at_ms) {
            Ok(()) => Ok(inst),
            Err(e) => Err(e),
        }
    }

    /// Snapshot of every tracked instance, in registration order.
    #[verifier::loop_isolation(false)]
    pub fn list(&self) -> (r: Vec<RunningInstance>)
        ensures
            r@.len() == self@.len(),
            forall|i: int| 0 <= i < r@.len() ==> r@[i]@ == self@[i],
    {
        let mut out: Vec<RunningInstance> = Vec::new();
        let mut i: usize = 0;
        while i < self.entries.len()
            invariant
                0 <= i <= self.entries.len(),
                out@.len() == i,
                forall|j: int| 0 <= j < i ==> out@[j]@ == self@[j],
            decreases self.entries.len() - i,
        {
            out.push(self.entries[i].clone());
            i += 1;
        }
        out
    }

    /// Secondary index read: the identifiers of every tracked instance
    /// owned by `path`, in registration order; empty if none.
    #[verifier::loop_isolation(false)]
    pub fn list_by_path(&self, path: &ClusterPath) -> (r: Vec<u128>)
        ensures
            r@ == ids_for_path(self@, path@),
    {
        let mut out: Vec<u128> = Vec::new();
        let mut i: usize = 0;
        proof {
            assert(self@.take(0) =~= Seq::<InstanceView>::empty());
        }
        while i < self.entries.len()
            invariant
                0 <= i <= self.entries.len(),
                out@ == ids_for_path(self@.take(i as int), path@),
            decreases self.entries.len() - i,
        {
            proof {
                assert(self@.take(i + 1).drop_last() =~= self@.take(i as int));
                assert(self@.take(i + 1).last() == self@[i as int]);
            }
            if self.entries[i].cluster_path.same_path(path) {
                out.push(self.entries[i].uuid);
            }
            i += 1;
        }
        proof {
            assert(self@.take(self@.len() as int) =~= self@);
        }
        out
    }

    /// The distinct cluster paths that currently have at least one
    /// tracked instance, first registration first.
    #[verifier::loop_isolation(false)]
    pub fn running_cluster_paths(&self) -> (r: Vec<ClusterPath>)
        ensures
            r@.len() == distinct_paths(self@).len(),
            forall|i: int| 0 <= i < r@.len() ==> r@[i]@ == distinct_paths(self@)[i],
    {
        let mut out: Vec<ClusterPath> = Vec::new();
        let mut i: usize = 0;
        proof {
            assert(self@.take(0) =~= Seq::<InstanceView>::empty());
        }
        while i < self.entries.len()
            invariant
                0 <= i <= self.entries.len(),
                out@.len() == distinct_paths(self@.take(i as int)).len(),
                forall|j: int| 0 <= j < out@.len() ==> out@[j]@ == distinct_paths(
                    self@.take(i as int),
                )[j],
            decreases self.entries.len() - i,
        {
            proof {
                assert(self@.take(i + 1).drop_last() =~= self@.take(i as int));
                assert(self@.take(i + 1).last() == self@[i as int]);
            }
            let ghost prior = distinct_paths(self@.take(i as int));
            let mut seen = false;
            let mut k: usize = 0;
            while k < out.len()
                invariant
                    0 <= k <= out.len(),
                    out@.len() == prior.len(),
                    forall|j: int| 0 <= j < out@.len() ==> out@[j]@ == prior[j],
                    seen ==> prior.contains(self@[i as int].path),
                    !seen ==> forall|j: int| 0 <= j < k ==> prior[j] != self@[i as int].path,
                decreases out.len() - k,
            {
                if out[k].same_path(&self.entries[i].cluster_path) {
                    seen = true;
                    assert(prior[k as int] == self@[i as int].path);
                    break;
                }
                k += 1;
            }
            if !seen {
                proof {
                    if prior.contains(self@[i as int].path) {
                        let w = choose|w: int|
                            0 <= w < prior.len() && prior[w] == self@[i as int].path;
                        assert(false);
                    }
                }
                out.push(self.entries[i].cluster_path.clone());
            }
            i += 1;
        }
        proof {
            assert(self@.take(self@.len() as int) =~= self@);
        }
        out
    }

    /// Removes the entry with identifier `id` and returns it so the
    /// caller can kill the underlying OS process. Returns `NotFound`
    /// exactly when no such entry is tracked, and is then side-effect
    /// free — so a second termination of the same identifier, or a
    /// termination racing the process's own exit reaping, reports
    /// `NotFound` rather than misbehaving.
    #[verifier::loop_isolation(false)]
    pub fn terminate(&mut self, id: u128) -> (r: Result<RunningInstance, RegistryError>)
        requires
            old(self).wf(),
        ensures
            final(self).wf(),
            r is Ok <==> contains_id(old(self)@, id),
            match r {
                Ok(inst) => {
                    &&& inst.uuid == id
                    &&& exists|k: int|
                        0 <= k < old(self)@.len() && old(self)@[k] == inst@ && final(self)@ == old(
                            self,
                        )@.remove(k)
                    &&& !contains_id(final(self)@, id)
                    &&& forall|x: u128|
                        x != id ==> (contains_id(final(self)@, x) <==> contains_id(old(self)@, x))
                },
                Err(e) => final(self)@ == old(self)@ && e == RegistryError::NotFound,
            },
    {
        let mut i: usize = 0;
        while i < self.entries.len()
            invariant
                0 <= i <= self.entries.len(),
                *self == *old(self),
                forall|j: int| 0 <= j < i ==> self@[j].uuid != id,
            decreases self.entries.len() - i,
        {
            if self.entries[i].uuid == id {
                let ghost k = i as int;
                let inst = self.entries.remove(i);
                proof {
                    assert(inst@ == old(self)@[k]);
                    assert(self@ =~= old(self)@.remove(k));
                    lemma_remove_unique_id(old(self)@, k);
                    assert forall|x: u128| x != id implies (contains_id(self@, x) <==> contains_id(
                        old(self)@,
                        x,
                    )) by {
                        lemma_remove_keeps_other_ids(old(self)@, k, x);
                    }
                }
                return Ok(inst);
            }
            i += 1;
        }
        Err(RegistryError::NotFound)
    }
}

/// After removing the entry at `k`, the identifier it carried is gone
/// from the table: with pairwise-distinct identifiers, no other entry
/// carries it. This is why a `list` taken after a successful
/// termination can never show the terminated identifier.
pub proof fn lemma_remove_unique_id(s: Seq<InstanceView>, k: int)
    requires
        ids_unique(s),
        0 <= k < s.len(),
    ensures
        !contains_id(s.remove(k), id_at(s, k)),
        ids_unique(s.remove(k)),
{
    let t = s.remove(k);
    assert forall|i: int| 0 <= i < t.len() implies t[i].uuid != s[k].uuid by {
        if i < k {
            assert(t[i] == s[i]);
        } else {
            assert(t[i] == s[i + 1]);
        }
    }
}

/// The identifier carried by the entry at `k`.
pub open spec fn id_at(s: Seq<InstanceView>, k: int) -> u128 {
    s[k].uuid
}

/// Removing one entry does not disturb any other identifier: an
/// identifier different from the removed one is tracked after the
/// removal exactly if it was tracked before.
pub proof fn lemma_remove_keeps_other_ids(s: Seq<InstanceView>, k: int, x: u128)
    requires
        0 <= k < s.len(),
        x != s[k].uuid,
    ensures
        contains_id(s.remove(k), x) <==> contains_id(s, x),
{
    let t = s.remove(k);
    if contains_id(s, x) {
        let i = choose|i: int| 0 <= i < s.len() && s[i].uuid == x;
        if i < k {
            assert(t[i] == s[i]);
            assert(contains_id(t, x));
        } else {
            assert(t[i - 1] == s[i]);
            assert(contains_id(t, x));
        }
    }
    if contains_id(t, x) {
        let i = choose|i: int| 0 <= i < t.len() && t[i].uuid == x;
        if i < k {
            assert(t[i] == s[i]);
        } else {
            assert(t[i] == s[i + 1]);
        }
    }
}

/// Terminating the same identifier twice is harmless: a successful
/// termination leaves a table in which that identifier is no longer
/// tracked, so a second termination of it finds nothing and — by
/// `terminate`'s contract — reports `NotFound` with no side effect.
pub proof fn lemma_second_terminate_not_found(s: Seq<InstanceView>, k: int)
    requires
        ids_unique(s),
        0 <= k < s.len(),
    ensures
        !contains_id(s.remove(k), s[k].uuid),
{
    lemma_remove_unique_id(s, k);
}

/// Two successful registrations always yield distinct identifiers, and
/// terminating the first leaves the second tracked: concurrent `run`
/// requests against different clusters produce independently listed,
/// independently terminable instances.
pub proof fn lemma_registrations_independent(s: Seq<InstanceView>, a: InstanceView, b: InstanceView)
    requires
        ids_unique(s),
        !contains_id(s, a.uuid),
        !contains_id(s.push(a), b.uuid),
    ensures
        a.uuid != b.uuid,
        contains_id(s.push(a).push(b), a.uuid),
        contains_id(s.push(a).push(b), b.uuid),
        ids_unique(s.push(a).push(b)),
        contains_id(s.push(a).push(b).remove(s.len() as int), b.uuid),
{
    let s1 = s.push(a);
    let s2 = s1.push(b);
    assert(s1[s.len() as int] == a);
    assert(contains_id(s1, a.uuid));
    assert(s2[s.len() as int] == a);
    assert(s2[s.len() as int + 1] == b);
    assert(contains_id(s2, a.uuid));
    assert(contains_id(s2, b.uuid));
    assert forall|i: int, j: int| 0 <= i < j < s2.len() implies s2[i].uuid != s2[j].uuid by {
        if j < s.len() {
        } else if j == s.len() {
            assert(s2[i] == s[i]);
            if s2[i].uuid == a.uuid {
                assert(contains_id(s, a.uuid));
            }
        } else {
            assert(s2[j] == b);
            assert(s1[i] == s2[i]);
            if s2[i].uuid == b.uuid {
                assert(contains_id(s1, b.uuid));
            }
        }
    }
    assert(s2.remove(s.len() as int)[s.len() as int] == b);
}

/// Draws a fresh random instance identifier.
///
/// Relies on `uuid::Uuid::new_v4`, which builds a version-4 UUID from
/// the process's random source, read out as its 128-bit value. The
/// value is random, so nothing is promised of it; `register` checks it
/// against the table instead of trusting freshness.
#[verifier::external_body]
fn fresh_instance_id() -> u128 {
    uuid::Uuid::new_v4().as_u128()
}

} // verus!
