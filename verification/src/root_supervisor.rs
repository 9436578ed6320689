use vstd::prelude::*;

use crate::capture_supervisor::{CaptureSupervisor, StartCaptureWorker, StopCaptureWorker};
use crate::models::{Camera, CameraGroup, CameraGroupAndCameras};

verus! {

/// Operational modes of the server.
#[derive(Clone, Copy, Debug, PartialEq, Eq, Structural)]
pub enum ExopticonMode {
    /// Captures and reapers are not started; the query surface stays up.
    Standby,
    /// Normal operation.
    Run,
}

/// Request to start the storage reaper of one camera group.
#[derive(Clone, Copy, Debug, PartialEq, Eq, Structural)]
pub struct StartDeletionWorker {
    /// id of the camera group to reap for
    pub camera_group_id: i32,
}

/// The capture start requests for the cameras of one group: one per
/// enabled camera, in camera order, each recording under the group's
/// storage directory.
pub open spec fn spec_camera_starts(group: CameraGroup, cams: Seq<Camera>) -> Seq<
    StartCaptureWorker,
>
    decreases cams.len(),
{
    if cams.len() == 0 {
        Seq::empty()
    } else {
        let rest = spec_camera_starts(group, cams.drop_first());
        if cams[0].enabled {
            seq![
                StartCaptureWorker {
                    id: cams[0].id,
                    stream_url: cams[0].rtsp_url,
                    storage_path: group.storage_path,
                },
            ] + rest
        } else {
            rest
        }
    }
}

/// The capture start requests for a whole configuration, group by
/// group.
pub open spec fn spec_capture_starts(groups: Seq<CameraGroupAndCameras>) -> Seq<StartCaptureWorker>
    decreases groups.len(),
{
    if groups.len() == 0 {
        Seq::empty()
    } else {
        spec_camera_starts(groups[0].0, groups[0].1@) + spec_capture_starts(groups.drop_first())
    }
}

/// Whether `cams` holds an enabled camera with id `id`.
pub open spec fn spec_enabled(cams: Seq<Camera>, id: i32) -> bool {
    exists|i: int| 0 <= i < cams.len() && cams[i].id == id && cams[i].enabled
}

/// The stop requests a supervisor tick issues: one per registered
/// worker whose camera is no longer enabled, in worker order.
pub open spec fn spec_disable_stops(workers: Seq<(i32, u64)>, cams: Seq<Camera>) -> Seq<
    StopCaptureWorker,
>
    decreases workers.len(),
{
    if workers.len() == 0 {
        Seq::empty()
    } else {
        let rest = spec_disable_stops(workers.drop_first(), cams);
        if !spec_enabled(cams, workers[0].0) {
            seq![StopCaptureWorker { id: workers[0].0 }] + rest
        } else {
            rest
        }
    }
}

/// Returns true exactly when `cams` holds an enabled camera with id
/// `id`.
#[verifier::loop_isolation(false)]
fn is_enabled(cams: &Vec<Camera>, id: i32) -> (r: bool)
    ensures
        r == spec_enabled(cams@, id),
{
    let n: usize = cams.len();
    let mut i: usize = 0;
    while i < n
        invariant
            i <= n,
            forall|j: int| 0 <= j < i ==> !(cams@[j].id == id && cams@[j].enabled),
        decreases n - i,
    {
        if cams[i].id == id && cams[i].enabled {
            return true;
        }
        i = i + 1;
    }
    false
}

/// The root supervisor: starts the capture and reaper workers from the
/// persisted configuration, unless the server stands by.
pub struct RootSupervisor {
    /// the server's operational mode
    pub mode: ExopticonMode,
}

impl RootSupervisor {
    /// A root supervisor in the given mode.
    pub fn new(start_mode: ExopticonMode) -> (r: Self)
        ensures
            r.mode == start_mode,
    {
        Self { mode: start_mode }
    }

    /// The capture start requests for a configuration: one per enabled
    /// camera, recording under its group's storage directory.
    #[verifier::loop_isolation(false)]
    pub fn start_capture_workers(&self, cameras: &Vec<CameraGroupAndCameras>) -> (r: Vec<
        StartCaptureWorker,
    >)
        ensures
            r@ == spec_capture_starts(cameras@),
    {
        let ghost goal = spec_capture_starts(cameras@);
        let mut r: Vec<StartCaptureWorker> = Vec::new();
        let n: usize = cameras.len();
        let mut g: usize = 0;
        proof {
            assert(cameras@.skip(0) =~= cameras@);
            assert(r@ + goal =~= goal);
        }
        while g < n
            invariant
                g <= n,
                goal == r@ + spec_capture_starts(cameras@.skip(g as int)),
            decreases n - g,
        {
            proof {
                assert(cameras@.skip(g as int)[0] == cameras@[g as int]);
                assert(cameras@.skip(g as int).drop_first() =~= cameras@.skip(g as int + 1));
            }
            let group = &cameras[g];
            let ghost group_goal = spec_camera_starts(group.0, group.1@);
            let ghost r_pre = r@;
            let m: usize = group.1.len();
            let mut c: usize = 0;
            proof {
                assert(group.1@.skip(0) =~= group.1@);
            }
            while c < m
                invariant
                    c <= m,
                    m == group.1@.len(),
                    r@ + spec_camera_starts(group.0, group.1@.skip(c as int)) == r_pre
                        + group_goal,
                decreases m - c,
            {
                proof {
                    assert(group.1@.skip(c as int)[0] == group.1@[c as int]);
                    assert(group.1@.skip(c as int).drop_first() =~= group.1@.skip(c as int + 1));
                }
                let cam = &group.1[c];
                if cam.enabled {
                    let ghost r_here = r@;
                    let msg = StartCaptureWorker {
                        id: cam.id,
                        stream_url: cam.rtsp_url.clone(),
                        storage_path: group.0.storage_path.clone(),
                    };
                    proof {
                        let start = StartCaptureWorker {
                            id: group.1@[c as int].id,
                            stream_url: group.1@[c as int].rtsp_url,
                            storage_path: group.0.storage_path,
                        };
                        assert(r_here.push(start) =~= r_here + seq![start]);
                        assert((r_here + seq![start]) + spec_camera_starts(
                            group.0,
                            group.1@.skip(c as int + 1),
                        ) =~= r_here + (seq![start] + spec_camera_starts(
                            group.0,
                            group.1@.skip(c as int + 1),
                        )));
                    }
                    r.push(msg);
                }
                c = c + 1;
            }
            proof {
                assert(group.1@.skip(m as int) =~= Seq::<Camera>::empty());
                assert(r@ + Seq::<StartCaptureWorker>::empty() =~= r@);
                assert(r@ == r_pre + group_goal);
                assert((r_pre + group_goal) + spec_capture_starts(cameras@.skip(g as int + 1))
                    =~= r_pre + (group_goal + spec_capture_starts(cameras@.skip(g as int + 1))));
            }
            g = g + 1;
        }
        proof {
            assert(cameras@.skip(n as int) =~= Seq::<CameraGroupAndCameras>::empty());
            assert(r@ + Seq::<StartCaptureWorker>::empty() =~= r@);
        }
        r
    }

    /// The reaper start requests for a configuration: one per camera
    /// group, in group order.
    #[verifier::loop_isolation(false)]
    pub fn start_deletion_workers(&self, camera_groups: &Vec<CameraGroup>) -> (r: Vec<
        StartDeletionWorker,
    >)
        ensures
            r@.len() == camera_groups@.len(),
            forall|i: int|
                0 <= i < r@.len() ==> r@[i] == (StartDeletionWorker {
                    camera_group_id: camera_groups@[i].id,
                }),
    {
        let mut r: Vec<StartDeletionWorker> = Vec::new();
        let n: usize = camera_groups.len();
        let mut i: usize = 0;
        while i < n
            invariant
                i <= n,
                r@.len() == i,
                forall|j: int|
                    0 <= j < i ==> r@[j] == (StartDeletionWorker {
                        camera_group_id: camera_groups@[j].id,
                    }),
            decreases n - i,
        {
            r.push(StartDeletionWorker { camera_group_id: camera_groups[i].id });
            i = i + 1;
        }
        r
    }

    /// What starting the supervisor sets in motion: in `Run` mode the
    /// capture workers of every enabled camera and one reaper per
    /// group; in `Standby` mode nothing.
    pub fn startup_actions(&self, cameras: &Vec<CameraGroupAndCameras>, camera_groups: &Vec<
        CameraGroup,
    >) -> (r: (Vec<StartCaptureWorker>, Vec<StartDeletionWorker>))
        ensures
            self.mode == ExopticonMode::Standby ==> r.0@.len() == 0 && r.1@.len() == 0,
            self.mode == ExopticonMode::Run ==> {
                &&& r.0@ == spec_capture_starts(cameras@)
                &&& r.1@.len() == camera_groups@.len()
                &&& forall|i: int|
                    0 <= i < r.1@.len() ==> r.1@[i] == (StartDeletionWorker {
                        camera_group_id: camera_groups@[i].id,
                    })
            },
    {
        match self.mode {
            ExopticonMode::Standby => (Vec::new(), Vec::new()),
            ExopticonMode::Run => (
                self.start_capture_workers(cameras),
                self.start_deletion_workers(camera_groups),
            ),
        }
    }

    /// One supervisor tick of reconciliation against the persisted
    /// camera list: every registered capture worker whose camera is
    /// gone or disabled gets a stop request, so a camera marked
    /// disabled stops capturing within one tick.  Workers of enabled
    /// cameras are left alone.
    #[verifier::loop_isolation(false)]
    pub fn reconcile_capture_workers(&self, supervisor: &CaptureSupervisor, cameras: &Vec<Camera>)
        -> (r: Vec<StopCaptureWorker>)
        ensures
            r@ == spec_disable_stops(supervisor.workers@, cameras@),
    {
        let ghost goal = spec_disable_stops(supervisor.workers@, cameras@);
        let mut r: Vec<StopCaptureWorker> = Vec::new();
        let n: usize = supervisor.workers.len();
        let mut i: usize = 0;
        proof {
            assert(supervisor.workers@.skip(0) =~= supervisor.workers@);
            assert(r@ + goal =~= goal);
        }
        while i < n
            invariant
                i <= n,
                goal == r@ + spec_disable_stops(supervisor.workers@.skip(i as int), cameras@),
            decreases n - i,
        {
            proof {
                assert(supervisor.workers@.skip(i as int)[0] == supervisor.workers@[i as int]);
                assert(supervisor.workers@.skip(i as int).drop_first() =~= supervisor.workers@.skip(
                    i as int + 1,
                ));
            }
            let id: i32 = supervisor.workers[i].0;
            if !is_enabled(cameras, id) {
                let ghost r_pre = r@;
                r.push(StopCaptureWorker { id });
                proof {
                    let stop = StopCaptureWorker { id: supervisor.workers@[i as int].0 };
                    assert(r_pre.push(stop) =~= r_pre + seq![stop]);
                    assert((r_pre + seq![stop]) + spec_disable_stops(
                        supervisor.workers@.skip(i as int + 1),
                        cameras@,
                    ) =~= r_pre + (seq![stop] + spec_disable_stops(
                        supervisor.workers@.skip(i as int + 1),
                        cameras@,
                    )));
                }
            }
            i = i + 1;
        }
        proof {
            assert(supervisor.workers@.skip(n as int) =~= Seq::<(i32, u64)>::empty());
            assert(r@ + Seq::<StopCaptureWorker>::empty() =~= r@);
        }
        r
    }
}

} // verus!
