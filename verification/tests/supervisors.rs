use exopticon::analysis_actor::AnalysisActor;
use exopticon::analysis_supervisor::AnalysisSupervisor;
use exopticon::capture_supervisor::{
    CaptureSupervisor, RestartCaptureWorker, StartCaptureWorker, StopCaptureWorker,
};
use exopticon::models::{
    AnalysisInstanceModel, Camera, CameraGroup, CameraGroupAndCameras, Notifier,
};
use exopticon::notifier_supervisor::{NotifierSupervisor, SendNotification};
use exopticon::root_supervisor::{ExopticonMode, RootSupervisor};
use exopticon::ws_camera_server::FrameSource;

fn start_msg(id: i32) -> StartCaptureWorker {
    StartCaptureWorker {
        id,
        stream_url: format!("rtsp://camera-{}", id),
        storage_path: "/video/g1".to_string(),
    }
}

fn camera(id: i32, group: i32, enabled: bool) -> Camera {
    Camera {
        id,
        camera_group_id: group,
        name: format!("cam {}", id),
        ip: "10.0.0.2".to_string(),
        onvif_port: 80,
        mac: "00-11-22-33-44-55".to_string(),
        username: "u".to_string(),
        password: "p".to_string(),
        rtsp_url: format!("rtsp://camera-{}", id),
        ptz_type: "onvif".to_string(),
        ptz_profile_token: String::new(),
        enabled,
        inserted_at: 0,
        updated_at: 0,
    }
}

fn group(id: i32, path: &str) -> CameraGroup {
    CameraGroup {
        id,
        name: format!("group {}", id),
        storage_path: path.to_string(),
        max_storage_size: 100,
        inserted_at: 0,
        updated_at: 0,
    }
}

fn notifier(id: i32) -> Notifier {
    Notifier {
        id,
        name: format!("notifier {}", id),
        hostname: "mqtt.example".to_string(),
        port: 1883,
        username: None,
        password: Some("SECRET-REDACTED".to_string()),
        inserted_at: 0,
        updated_at: 0,
    }
}

fn instance(id: i32, enabled: bool) -> AnalysisInstanceModel {
    AnalysisInstanceModel {
        id,
        analysis_engine_id: 1,
        name: format!("instance {}", id),
        max_fps: 5,
        enabled,
        subscriptions: Vec::new(),
    }
}

#[test]
fn at_most_one_capture_worker_per_camera() {
    let mut sup = CaptureSupervisor::default();
    assert!(sup.start_worker(&start_msg(7), 1000));
    // a second start for the same camera is rejected as a no-op
    assert!(!sup.start_worker(&start_msg(7), 2000));
    assert_eq!(sup.workers.len(), 1);
    assert_eq!(sup.workers[0], (7, 1000));
    assert!(sup.start_worker(&start_msg(8), 3000));
    assert_eq!(sup.workers.len(), 2);
}

#[test]
fn stop_returns_the_handle_to_terminate() {
    let mut sup = CaptureSupervisor::default();
    sup.start_worker(&start_msg(7), 1000);
    sup.start_worker(&start_msg(8), 2000);
    assert_eq!(sup.stop_worker(&StopCaptureWorker { id: 7 }), Some(1000));
    assert_eq!(sup.stop_worker(&StopCaptureWorker { id: 7 }), None);
    assert_eq!(sup.workers, vec![(8, 2000)]);
}

#[test]
fn capture_restart_replaces_the_worker() {
    // a restart for a running camera: the old subprocess handle comes
    // back for termination, and after the scheduled delay the start
    // registers a fresh handle for the same camera
    let mut sup = CaptureSupervisor::default();
    sup.start_worker(&start_msg(7), 1000);
    let (old_handle, start_again) = sup.restart_worker(RestartCaptureWorker {
        id: 7,
        stream_url: "rtsp://camera-7".to_string(),
        storage_path: "/video/g1".to_string(),
    });
    assert_eq!(old_handle, Some(1000));
    assert_eq!(start_again.id, 7);
    assert_eq!(start_again.stream_url, "rtsp://camera-7");
    assert!(sup.workers.is_empty());
    // five seconds later the scheduled start runs with a new handle
    assert!(sup.start_worker(&start_again, 4242));
    assert_eq!(sup.workers, vec![(7, 4242)]);
}

#[test]
fn startup_starts_only_enabled_cameras() {
    let root = RootSupervisor::new(ExopticonMode::Run);
    let config = vec![
        CameraGroupAndCameras(
            group(1, "/video/g1"),
            vec![camera(1, 1, true), camera(2, 1, false), camera(3, 1, true)],
        ),
        CameraGroupAndCameras(group(2, "/video/g2"), vec![camera(4, 2, true)]),
    ];
    let groups = vec![group(1, "/video/g1"), group(2, "/video/g2")];
    let (starts, reapers) = root.startup_actions(&config, &groups);
    let ids: Vec<i32> = starts.iter().map(|s| s.id).collect();
    assert_eq!(ids, vec![1, 3, 4]);
    assert_eq!(starts[0].storage_path, "/video/g1");
    assert_eq!(starts[2].storage_path, "/video/g2");
    assert_eq!(starts[0].stream_url, "rtsp://camera-1");
    let reaper_ids: Vec<i32> = reapers.iter().map(|r| r.camera_group_id).collect();
    assert_eq!(reaper_ids, vec![1, 2]);
}

#[test]
fn standby_mode_starts_nothing() {
    let root = RootSupervisor::new(ExopticonMode::Standby);
    let config =
        vec![CameraGroupAndCameras(group(1, "/video/g1"), vec![camera(1, 1, true)])];
    let groups = vec![group(1, "/video/g1")];
    let (starts, reapers) = root.startup_actions(&config, &groups);
    assert!(starts.is_empty());
    assert!(reapers.is_empty());
}

#[test]
fn graceful_disable_stops_within_one_tick() {
    // camera 4 is marked disabled; the next supervisor tick issues
    // Stop(4) and leaves the enabled camera's worker alone
    let mut sup = CaptureSupervisor::default();
    sup.start_worker(&start_msg(4), 100);
    sup.start_worker(&start_msg(5), 200);
    let root = RootSupervisor::new(ExopticonMode::Run);
    let cameras = vec![camera(4, 1, false), camera(5, 1, true)];
    let stops = root.reconcile_capture_workers(&sup, &cameras);
    assert_eq!(stops, vec![StopCaptureWorker { id: 4 }]);
    let handle = sup.stop_worker(&stops[0]).unwrap();
    assert_eq!(handle, 100);
    assert_eq!(sup.workers, vec![(5, 200)]);
}

#[test]
fn vanished_cameras_are_stopped_too() {
    let mut sup = CaptureSupervisor::default();
    sup.start_worker(&start_msg(9), 900);
    let root = RootSupervisor::new(ExopticonMode::Run);
    let stops = root.reconcile_capture_workers(&sup, &Vec::new());
    assert_eq!(stops, vec![StopCaptureWorker { id: 9 }]);
}

#[test]
fn notifier_sync_replaces_all_workers() {
    let mut sup = NotifierSupervisor::default();
    sup.sync_notifiers(&vec![notifier(1), notifier(2)], &vec![10, 20]);
    assert_eq!(sup.workers, vec![(1, 10), (2, 20)]);
    // a later sync is a full reconciliation, never a partial update
    sup.sync_notifiers(&vec![notifier(2), notifier(3)], &vec![21, 31]);
    assert_eq!(sup.workers, vec![(2, 21), (3, 31)]);
}

#[test]
fn notifications_route_to_the_right_worker() {
    let mut sup = NotifierSupervisor::default();
    sup.sync_notifiers(&vec![notifier(1), notifier(2)], &vec![10, 20]);
    let msg = SendNotification {
        notifier_id: 2,
        contact_group: "alerts".to_string(),
        message: Some("hello".to_string()),
        attachment: None,
    };
    assert_eq!(sup.route_notification(&msg), Some(20));
    let unknown = SendNotification { notifier_id: 9, ..msg };
    // a notification for an unconfigured notifier is dropped
    assert_eq!(sup.route_notification(&unknown), None);
}

#[test]
fn analysis_reconcile_diffs_desired_against_running() {
    let mut sup = AnalysisSupervisor::default();
    assert!(sup.register_worker(1, 100));
    assert!(sup.register_worker(2, 200));
    assert!(!sup.register_worker(2, 999));
    let instances = vec![instance(2, true), instance(3, true), instance(4, false)];
    let (stops, starts) = sup.reconcile(&instances);
    // instance 1 vanished; instance 3 is new; 4 is disabled
    assert_eq!(stops, vec![1]);
    assert_eq!(starts, vec![3]);
    assert_eq!(sup.deregister_worker(1), Some(100));
    assert!(sup.register_worker(3, 300));
    let (stops, starts) = sup.reconcile(&instances);
    assert!(stops.is_empty());
    assert!(starts.is_empty());
}

#[test]
fn analysis_frame_rate_is_capped_per_source() {
    // 2 fps allows one frame per 500 ms from each source
    let mut actor = AnalysisActor::new(1, 2);
    let cam = FrameSource::Camera(3);
    let other = FrameSource::Camera(4);
    assert!(actor.should_forward(&cam, 0));
    assert!(!actor.should_forward(&cam, 100));
    assert!(actor.should_forward(&other, 100));
    assert!(!actor.should_forward(&cam, 499_999));
    assert!(actor.should_forward(&cam, 500_000));
}

#[test]
fn zero_frame_rate_forwards_nothing() {
    let mut actor = AnalysisActor::new(1, 0);
    assert!(!actor.should_forward(&FrameSource::Camera(1), 0));
    assert!(!actor.should_forward(&FrameSource::Playback(1), 1_000_000));
}
