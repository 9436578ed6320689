use vstd::prelude::*;

use crate::capture_supervisor::{has_pair, has_worker};
use crate::models::AnalysisInstanceModel;

verus! {

/// Whether `instances` holds an enabled analysis instance with id `id`.
pub open spec fn spec_instance_enabled(instances: Seq<AnalysisInstanceModel>, id: i32) -> bool {
    exists|i: int| 0 <= i < instances.len() && instances[i].id == id && instances[i].enabled
}

/// The workers a reconciliation stops: every registered worker whose
/// instance is gone or disabled, in worker order.
pub open spec fn spec_analysis_stops(
    workers: Seq<(i32, u64)>,
    instances: Seq<AnalysisInstanceModel>,
) -> Seq<i32>
    decreases workers.len(),
{
    if workers.len() == 0 {
        Seq::empty()
    } else {
        let rest = spec_analysis_stops(workers.drop_first(), instances);
        if !spec_instance_enabled(instances, workers[0].0) {
            seq![workers[0].0] + rest
        } else {
            rest
        }
    }
}

/// The instances a reconciliation starts: every enabled instance with
/// no registered worker, in instance order.
pub open spec fn spec_analysis_starts(
    workers: Seq<(i32, u64)>,
    instances: Seq<AnalysisInstanceModel>,
) -> Seq<i32>
    decreases instances.len(),
{
    if instances.len() == 0 {
        Seq::empty()
    } else {
        let rest = spec_analysis_starts(workers, instances.drop_first());
        if instances[0].enabled && !has_worker(workers, instances[0].id) {
            seq![instances[0].id] + rest
        } else {
            rest
        }
    }
}

/// Supervisor of the analysis workers: one per enabled analysis
/// instance, keyed by instance id.
pub struct AnalysisSupervisor {
    /// running workers: instance id paired with the worker's handle
    pub workers: Vec<(i32, u64)>,
}

impl Default for AnalysisSupervisor {
    /// A supervisor with no running workers.
    fn default() -> (r: Self)
        ensures
            r.wf(),
            r.workers@.len() == 0,
    {
        AnalysisSupervisor { workers: Vec::new() }
    }
}

impl AnalysisSupervisor {
    /// No instance id appears twice in the worker map.
    pub open spec fn wf(self) -> bool {
        forall|i: int, j: int|
            0 <= i < j < self.workers@.len() ==> self.workers@[i].0 != self.workers@[j].0
    }

    /// Returns true exactly when a worker is registered for `id`.
    #[verifier::loop_isolation(false)]
    fn has_running(&self, id: i32) -> (r: bool)
        ensures
            r == has_worker(self.workers@, id),
    {
        let n: usize = self.workers.len();
        let mut i: usize = 0;
        while i < n
            invariant
                i <= n,
                forall|j: int| 0 <= j < i ==> self.workers@[j].0 != id,
            decreases n - i,
        {
            if self.workers[i].0 == id {
                proof {
                    assert(has_worker(self.workers@, id));
                }
                return true;
            }
            i = i + 1;
        }
        proof {
            assert(!has_worker(self.workers@, id));
        }
        false
    }

    /// Returns true exactly when `instances` holds an enabled instance
    /// with id `id`.
    #[verifier::loop_isolation(false)]
    fn is_instance_enabled(instances: &Vec<AnalysisInstanceModel>, id: i32) -> (r: bool)
        ensures
            r == spec_instance_enabled(instances@, id),
    {
        let n: usize = instances.len();
        let mut i: usize = 0;
        while i < n
            invariant
                i <= n,
                forall|j: int| 0 <= j < i ==> !(instances@[j].id == id && instances@[j].enabled),
            decreases n - i,
        {
            if instances[i].id == id && instances[i].enabled {
                return true;
            }
            i = i + 1;
        }
        false
    }

    /// Diffs the persisted instance list against the running set: the
    /// ids whose workers must stop (gone or disabled instances) and
    /// the ids that must start (enabled instances without a worker).
    /// The snapshot is diffed whole — never a partial update.
    #[verifier::loop_isolation(false)]
    pub fn reconcile(&self, instances: &Vec<AnalysisInstanceModel>) -> (r: (Vec<i32>, Vec<i32>))
        ensures
            r.0@ == spec_analysis_stops(self.workers@, instances@),
            r.1@ == spec_analysis_starts(self.workers@, instances@),
    {
        let mut stops: Vec<i32> = Vec::new();
        let n: usize = self.workers.len();
        let mut i: usize = 0;
        proof {
            assert(self.workers@.skip(0) =~= self.workers@);
            assert(stops@ + spec_analysis_stops(self.workers@, instances@) =~= spec_analysis_stops(
                self.workers@,
                instances@,
            ));
        }
        while i < n
            invariant
                i <= n,
                spec_analysis_stops(self.workers@, instances@) == stops@ + spec_analysis_stops(
                    self.workers@.skip(i as int),
                    instances@,
                ),
            decreases n - i,
        {
            proof {
                assert(self.workers@.skip(i as int)[0] == self.workers@[i as int]);
                assert(self.workers@.skip(i as int).drop_first() =~= self.workers@.skip(
                    i as int + 1,
                ));
            }
            let id: i32 = self.workers[i].0;
            if !Self::is_instance_enabled(instances, id) {
                let ghost pre = stops@;
                stops.push(id);
                proof {
                    assert(pre.push(self.workers@[i as int].0) =~= pre + seq![
                        self.workers@[i as int].0,
                    ]);
                    assert((pre + seq![self.workers@[i as int].0]) + spec_analysis_stops(
                        self.workers@.skip(i as int + 1),
                        instances@,
                    ) =~= pre + (seq![self.workers@[i as int].0] + spec_analysis_stops(
                        self.workers@.skip(i as int + 1),
                        instances@,
                    )));
                }
            }
            i = i + 1;
        }
        proof {
            assert(self.workers@.skip(n as int) =~= Seq::<(i32, u64)>::empty());
            assert(stops@ + Seq::<i32>::empty() =~= stops@);
        }
        let mut starts: Vec<i32> = Vec::new();
        let m: usize = instances.len();
        let mut k: usize = 0;
        proof {
            assert(instances@.skip(0) =~= instances@);
            assert(starts@ + spec_analysis_starts(self.workers@, instances@)
                =~= spec_analysis_starts(self.workers@, instances@));
        }
        while k < m
            invariant
                k <= m,
                spec_analysis_starts(self.workers@, instances@) == starts@ + spec_analysis_starts(
                    self.workers@,
                    instances@.skip(k as int),
                ),
            decreases m - k,
        {
            proof {
                assert(instances@.skip(k as int)[0] == instances@[k as int]);
                assert(instances@.skip(k as int).drop_first() =~= instances@.skip(k as int + 1));
            }
            let candidate = &instances[k];
            if candidate.enabled && !self.has_running(candidate.id) {
                let ghost pre = starts@;
                starts.push(candidate.id);
                proof {
                    assert(pre.push(instances@[k as int].id) =~= pre + seq![
                        instances@[k as int].id,
                    ]);
                    assert((pre + seq![instances@[k as int].id]) + spec_analysis_starts(
                        self.workers@,
                        instances@.skip(k as int + 1),
                    ) =~= pre + (seq![instances@[k as int].id] + spec_analysis_starts(
                        self.workers@,
                        instances@.skip(k as int + 1),
                    )));
                }
            }
            k = k + 1;
        }
        proof {
            assert(instances@.skip(m as int) =~= Seq::<AnalysisInstanceModel>::empty());
            assert(starts@ + Seq::<i32>::empty() =~= starts@);
        }
        (stops, starts)
    }

    /// Registers a newly spawned analysis worker.  A duplicate
    /// instance id is rejected as a no-op.  Returns true exactly when
    /// the worker was registered.
    #[verifier::loop_isolation(false)]
    pub fn register_worker(&mut self, id: i32, handle: u64) -> (r: bool)
        requires
            old(self).wf(),
        ensures
            final(self).wf(),
            r == !has_worker(old(self).workers@, id),
            has_worker(old(self).workers@, id) ==> *final(self) == *old(self),
            !has_worker(old(self).workers@, id) ==> final(self).workers@ == old(
                self,
            ).workers@.push((id, handle)),
    {
        let n: usize = self.workers.len();
        let mut i: usize = 0;
        while i < n
            invariant
                i <= n,
                forall|j: int| 0 <= j < i ==> self.workers@[j].0 != id,
            decreases n - i,
        {
            if self.workers[i].0 == id {
                return false;
            }
            i = i + 1;
        }
        proof {
            assert(!has_worker(self.workers@, id));
        }
        let ghost pre = self.workers@;
        self.workers.push((id, handle));
        proof {
            assert forall|a: int, b: int|
                0 <= a < b < self.workers@.len() implies self.workers@[a].0
                != self.workers@[b].0 by {
                if b == pre.len() {
                    if pre[a].0 == id {
                        assert(has_worker(pre, id));
                    }
                }
            }
        }
        true
    }

    /// Deregisters the worker of one instance and returns its handle
    /// for termination; a no-op when none is registered.
    #[verifier::loop_isolation(false)]
    pub fn deregister_worker(&mut self, id: i32) -> (r: Option<u64>)
        requires
            old(self).wf(),
        ensures
            final(self).wf(),
            !has_worker(final(self).workers@, id),
            forall|id2: i32, h: u64|
                id2 != id ==> #[trigger] has_pair(final(self).workers@, id2, h) == has_pair(
                    old(self).workers@,
                    id2,
                    h,
                ),
            match r {
                Option::Some(h) => has_pair(old(self).workers@, id, h),
                Option::None => !has_worker(old(self).workers@, id) && *final(self) == *old(self),
            },
    {
        let n: usize = self.workers.len();
        let mut i: usize = 0;
        while i < n
            invariant
                i <= n,
                *self == *old(self),
                n == self.workers@.len(),
                forall|j: int| 0 <= j < i ==> self.workers@[j].0 != id,
            decreases n - i,
        {
            if self.workers[i].0 == id {
                let handle: u64 = self.workers[i].1;
                let ghost pre = self.workers@;
                let ghost rem = i as int;
                self.workers.remove(i);
                proof {
                    pre.remove_ensures(rem);
                    assert(pre[rem] == (id, handle));
                    assert(has_pair(pre, id, handle));
                    assert forall|a: int, b: int|
                        0 <= a < b < self.workers@.len() implies self.workers@[a].0
                        != self.workers@[b].0 by {
                        if b < rem {
                            assert(self.workers@[a] == pre[a] && self.workers@[b] == pre[b]);
                        } else if a < rem {
                            assert(self.workers@[a] == pre[a] && self.workers@[b] == pre[b + 1]);
                        } else {
                            assert(self.workers@[a] == pre[a + 1] && self.workers@[b] == pre[b
                                + 1]);
                        }
                    }
                    assert forall|k: int|
                        0 <= k < self.workers@.len() implies self.workers@[k].0 != id by {
                        let k0: int = if k < rem {
                            k
                        } else {
                            k + 1
                        };
                        assert(self.workers@[k] == pre[k0]);
                        assert(pre[rem].0 == id);
                        if pre[k0].0 == id && k0 != rem {
                            assert(false);
                        }
                    }
                    assert(!has_worker(self.workers@, id));
                    assert forall|id2: i32, h: u64|
                        id2 != id && has_pair(pre, id2, h) implies #[trigger] has_pair(
                        self.workers@,
                        id2,
                        h,
                    ) by {
                        let k0 = choose|k0: int| 0 <= k0 < pre.len() && pre[k0] == (id2, h);
                        assert(k0 != rem);
                        let k: int = if k0 < rem {
                            k0
                        } else {
                            k0 - 1
                        };
                        assert(self.workers@[k] == pre[k0]);
                    }
                    assert forall|id2: i32, h: u64|
                        id2 != id && #[trigger] has_pair(self.workers@, id2, h) implies has_pair(
                        pre,
                        id2,
                        h,
                    ) by {
                        let k = choose|k: int|
                            0 <= k < self.workers@.len() && self.workers@[k] == (id2, h);
                        let k0: int = if k < rem {
                            k
                        } else {
                            k + 1
                        };
                        assert(pre[k0] == (id2, h));
                    }
                }
                return Some(handle);
            }
            i = i + 1;
        }
        proof {
            assert(!has_worker(self.workers@, id));
        }
        None
    }
}

} // verus!
