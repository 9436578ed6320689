use vstd::prelude::*;

verus! {

/// Request to start a capture worker for one camera.
#[derive(Clone, Debug, PartialEq)]
pub struct StartCaptureWorker {
    /// id of the camera to capture
    pub id: i32,
    /// rtsp url of the stream to capture
    pub stream_url: String,
    /// directory the video is captured to
    pub storage_path: String,
}

/// Request to stop the capture worker of one camera.
#[derive(Clone, Copy, Debug, PartialEq, Eq, Structural)]
pub struct StopCaptureWorker {
    /// id of the camera whose worker is stopped
    pub id: i32,
}

/// Request to restart the capture worker of one camera: a stop followed,
/// after a five second delay, by a fresh start.
#[derive(Clone, Debug, PartialEq)]
pub struct RestartCaptureWorker {
    /// id of the camera to restart capture for
    pub id: i32,
    /// rtsp url of the stream to capture
    pub stream_url: String,
    /// directory the video is captured to
    pub storage_path: String,
}

/// Whether some registered worker pairs camera `id` with handle `h`.
pub open spec fn has_pair(s: Seq<(i32, u64)>, id: i32, h: u64) -> bool {
    exists|i: int| 0 <= i < s.len() && s[i] == (id, h)
}

/// Whether a worker is registered for camera `id`.
pub open spec fn has_worker(s: Seq<(i32, u64)>, id: i32) -> bool {
    exists|i: int| 0 <= i < s.len() && s[i].0 == id
}

/// Supervisor of the per-camera capture workers.  It owns one handle
/// per running worker, keyed by camera id.
pub struct CaptureSupervisor {
    /// running workers: camera id paired with the worker's handle
    pub workers: Vec<(i32, u64)>,
}

impl Default for CaptureSupervisor {
    /// A supervisor with no running workers.
    fn default() -> (r: Self)
        ensures
            r.wf(),
            r.workers@.len() == 0,
    {
        CaptureSupervisor { workers: Vec::new() }
    }
}

impl CaptureSupervisor {
    /// At most one capture worker runs per camera: no camera id appears
    /// twice in the worker map.
    pub open spec fn wf(self) -> bool {
        forall|i: int, j: int|
            0 <= i < j < self.workers@.len() ==> self.workers@[i].0 != self.workers@[j].0
    }

    /// Registers a newly spawned worker (already reachable under
    /// `handle`) for `msg.id`.  A start for a camera that already has a
    /// worker is rejected as a no-op, and the caller must discard the
    /// spawned worker.  Returns true exactly when the worker was
    /// registered.
    #[verifier::loop_isolation(false)]
    pub fn start_worker(&mut self, msg: &StartCaptureWorker, handle: u64) -> (r: bool)
        requires
            old(self).wf(),
        ensures
            final(self).wf(),
            r == !has_worker(old(self).workers@, msg.id),
            has_worker(old(self).workers@, msg.id) ==> *final(self) == *old(self),
            !has_worker(old(self).workers@, msg.id) ==> final(self).workers@ == old(
                self,
            ).workers@.push((msg.id, handle)),
    {
        let n: usize = self.workers.len();
        let mut i: usize = 0;
        while i < n
            invariant
                i <= n,
                forall|j: int| 0 <= j < i ==> self.workers@[j].0 != msg.id,
            decreases n - i,
        {
            if self.workers[i].0 == msg.id {
                return false;
            }
            i = i + 1;
        }
        proof {
            assert(!has_worker(self.workers@, msg.id));
        }
        let ghost pre = self.workers@;
        self.workers.push((msg.id, handle));
        proof {
            assert forall|a: int, b: int|
                0 <= a < b < self.workers@.len() implies self.workers@[a].0
                != self.workers@[b].0 by {
                if b == pre.len() {
                    if pre[a].0 == msg.id {
                        assert(has_worker(pre, msg.id));
                    }
                }
            }
        }
        true
    }

    /// Deregisters the worker for `msg.id` and returns its handle so
    /// the caller can terminate the worker's subprocess.  Stopping a
    /// camera with no worker is a no-op.  Workers of other cameras are
    /// untouched.
    #[verifier::loop_isolation(false)]
    pub fn stop_worker(&mut self, msg: &StopCaptureWorker) -> (r: Option<u64>)
        requires
            old(self).wf(),
        ensures
            final(self).wf(),
            !has_worker(final(self).workers@, msg.id),
            forall|id: i32, h: u64|
                id != msg.id ==> #[trigger] has_pair(final(self).workers@, id, h) == has_pair(
                    old(self).workers@,
                    id,
                    h,
                ),
            match r {
                Option::Some(h) => has_pair(old(self).workers@, msg.id, h),
                Option::None => !has_worker(old(self).workers@, msg.id) && *final(self) == *old(
                    self,
                ),
            },
    {
        let n: usize = self.workers.len();
        let mut i: usize = 0;
        while i < n
            invariant
                i <= n,
                *self == *old(self),
                n == self.workers@.len(),
                forall|j: int| 0 <= j < i ==> self.workers@[j].0 != msg.id,
            decreases n - i,
        {
            if self.workers[i].0 == msg.id {
                let handle: u64 = self.workers[i].1;
                let ghost pre = self.workers@;
                let ghost rem = i as int;
                self.workers.remove(i);
                proof {
                    pre.remove_ensures(rem);
                    assert(pre[rem] == (msg.id, handle));
                    assert(has_pair(pre, msg.id, handle));
                    assert forall|a: int, b: int|
                        0 <= a < b < self.workers@.len() implies self.workers@[a].0
                        != self.workers@[b].0 by {
                        if b < rem {
                            assert(self.workers@[a] == pre[a] && self.workers@[b] == pre[b]);
                        } else if a < rem {
                            assert(self.workers@[a] == pre[a] && self.workers@[b] == pre[b + 1]);
                        } else {
                            assert(self.workers@[a] == pre[a + 1] && self.workers@[b] == pre[b
                                + 1]);
                        }
                    }
                    assert forall|id: i32, h: u64| #[trigger]
                        has_pair(self.workers@, id, h) implies (has_pair(pre, id, h) && id
                        != msg.id) || (id == msg.id && has_pair(self.workers@, id, h)) by {
                        let k = choose|k: int|
                            0 <= k < self.workers@.len() && self.workers@[k] == (id, h);
                        let k0: int = if k < rem {
                            k
                        } else {
                            k + 1
                        };
                        assert(pre[k0] == (id, h));
                    }
                    // no entry for the stopped camera survives
                    assert forall|k: int|
                        0 <= k < self.workers@.len() implies self.workers@[k].0 != msg.id by {
                        let k0: int = if k < rem {
                            k
                        } else {
                            k + 1
                        };
                        assert(self.workers@[k] == pre[k0]);
                        assert(pre[rem].0 == msg.id);
                        if pre[k0].0 == msg.id && k0 != rem {
                            assert(false);
                        }
                    }
                    assert(!has_worker(self.workers@, msg.id));
                    assert forall|id: i32, h: u64|
                        id != msg.id && has_pair(pre, id, h) implies #[trigger] has_pair(
                        self.workers@,
                        id,
                        h,
                    ) by {
                        let k0 = choose|k0: int| 0 <= k0 < pre.len() && pre[k0] == (id, h);
                        assert(k0 != rem);
                        let k: int = if k0 < rem {
                            k0
                        } else {
                            k0 - 1
                        };
                        assert(self.workers@[k] == pre[k0]);
                    }
                    assert forall|id: i32, h: u64|
                        id != msg.id && #[trigger] has_pair(self.workers@, id, h) implies has_pair(
                        pre,
                        id,
                        h,
                    ) by {
                        let k = choose|k: int|
                            0 <= k < self.workers@.len() && self.workers@[k] == (id, h);
                        let k0: int = if k < rem {
                            k
                        } else {
                            k + 1
                        };
                        assert(pre[k0] == (id, h));
                    }
                }
                return Some(handle);
            }
            i = i + 1;
        }
        proof {
            assert(!has_worker(self.workers@, msg.id));
        }
        None
    }

    /// A restart is a stop now and a start five seconds later: the
    /// worker is deregistered, its old handle is returned for
    /// termination, and the start request the caller must schedule
    /// after the delay is handed back.
    pub fn restart_worker(&mut self, msg: RestartCaptureWorker) -> (r: (
        Option<u64>,
        StartCaptureWorker,
    ))
        requires
            old(self).wf(),
        ensures
            final(self).wf(),
            !has_worker(final(self).workers@, msg.id),
            forall|id: i32, h: u64|
                id != msg.id ==> #[trigger] has_pair(final(self).workers@, id, h) == has_pair(
                    old(self).workers@,
                    id,
                    h,
                ),
            match r.0 {
                Option::Some(h) => has_pair(old(self).workers@, msg.id, h),
                Option::None => !has_worker(old(self).workers@, msg.id),
            },
            r.1 == (StartCaptureWorker {
                id: msg.id,
                stream_url: msg.stream_url,
                storage_path: msg.storage_path,
            }),
    {
        let stopped = self.stop_worker(&StopCaptureWorker { id: msg.id });
        (
            stopped,
            StartCaptureWorker {
                id: msg.id,
                stream_url: msg.stream_url,
                storage_path: msg.storage_path,
            },
        )
    }
}

} // verus!
