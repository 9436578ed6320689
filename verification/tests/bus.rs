use exopticon::ws_camera_server::{CameraFrame, FrameResolution, WsCameraServer};

fn empty_bus() -> WsCameraServer {
    WsCameraServer::default()
}

#[test]
fn subscribe_is_idempotent() {
    let mut bus = empty_bus();
    assert!(bus.add_subscriber(1, 10, FrameResolution::SD));
    assert!(!bus.add_subscriber(1, 10, FrameResolution::SD));
    let frame = CameraFrame { camera_id: 1, jpeg: vec![1, 2, 3], resolution: FrameResolution::SD };
    assert_eq!(bus.send_frame(&frame), vec![10]);
}

#[test]
fn unsubscribe_removes_only_that_client() {
    let mut bus = empty_bus();
    bus.add_subscriber(1, 10, FrameResolution::SD);
    bus.add_subscriber(1, 11, FrameResolution::SD);
    bus.remove_subscriber(1, 10, FrameResolution::SD);
    let frame = CameraFrame { camera_id: 1, jpeg: vec![], resolution: FrameResolution::SD };
    assert_eq!(bus.send_frame(&frame), vec![11]);
    // removing an absent subscriber changes nothing
    bus.remove_subscriber(1, 99, FrameResolution::SD);
    assert_eq!(bus.send_frame(&frame), vec![11]);
}

#[test]
fn broadcast_fan_out() {
    // two sessions subscribe (cam 3, SD); a frame reaches both; a third
    // session on (cam 3, HD) receives nothing
    let mut bus = empty_bus();
    bus.add_subscriber(3, 100, FrameResolution::SD);
    bus.add_subscriber(3, 200, FrameResolution::SD);
    bus.add_subscriber(3, 300, FrameResolution::HD);
    let frame =
        CameraFrame { camera_id: 3, jpeg: vec![0xde, 0xad], resolution: FrameResolution::SD };
    let recipients = bus.send_frame(&frame);
    assert_eq!(recipients.len(), 2);
    assert!(recipients.contains(&100));
    assert!(recipients.contains(&200));
    assert!(!recipients.contains(&300));
}

#[test]
fn resolutions_are_distinct_streams() {
    let mut bus = empty_bus();
    bus.add_subscriber(5, 7, FrameResolution::HD);
    let sd = CameraFrame { camera_id: 5, jpeg: vec![1], resolution: FrameResolution::SD };
    let hd = CameraFrame { camera_id: 5, jpeg: vec![1], resolution: FrameResolution::HD };
    assert!(bus.send_frame(&sd).is_empty());
    assert_eq!(bus.send_frame(&hd), vec![7]);
}

#[test]
fn other_cameras_receive_nothing() {
    let mut bus = empty_bus();
    bus.add_subscriber(1, 10, FrameResolution::SD);
    let frame = CameraFrame { camera_id: 2, jpeg: vec![9], resolution: FrameResolution::SD };
    assert!(bus.send_frame(&frame).is_empty());
}
