use exopticon::ws_camera_server::{CameraFrame, FrameResolution, SubscriptionSubject};
use exopticon::ws_session::{
    FrameData, SessionAction, WsCommand, WsSerialization, WsSession,
};

fn frame(camera_id: i32, jpeg: Vec<u8>) -> CameraFrame {
    CameraFrame { camera_id, jpeg, resolution: FrameResolution::SD }
}

#[test]
fn new_session_defaults() {
    let s = WsSession::new(WsSerialization::MsgPack);
    assert!(s.ready);
    assert_eq!(s.window_size, 1);
    assert_eq!(s.live_frames, 0);
    assert!(s.ready_to_send());
}

#[test]
fn ack_at_zero_is_an_error_and_changes_nothing() {
    let mut s = WsSession::new(WsSerialization::Json);
    s.ack();
    assert_eq!(s.live_frames, 0);
    assert_eq!(s.window_size, 1);
}

#[test]
fn adaptive_window_grows_on_ack() {
    // session starts with window 1; one frame, then an ack, grows it to 2
    let mut s = WsSession::new(WsSerialization::MsgPack);
    let out = s.handle_frame(frame(1, vec![1]));
    assert!(out.is_some());
    assert_eq!(s.live_frames, 1);
    assert!(!s.ready);
    s.ack();
    assert_eq!(s.live_frames, 0);
    assert_eq!(s.window_size, 2);
}

#[test]
fn adaptive_window_halves_on_failed_send() {
    // a frame arriving while live_frames == window_size == 4 halves the
    // window to 2
    let mut s = WsSession::new(WsSerialization::MsgPack);
    s.window_size = 4;
    s.live_frames = 4;
    s.ready = true;
    let out = s.handle_frame(frame(1, vec![1]));
    assert!(out.is_none());
    assert_eq!(s.window_size, 2);
    assert_eq!(s.live_frames, 4);
}

#[test]
fn window_never_exceeds_ten() {
    let mut s = WsSession::new(WsSerialization::MsgPack);
    for _ in 0..50 {
        let out = s.handle_frame(frame(1, vec![1]));
        if out.is_some() {
            s.drained();
            s.ack();
        }
        assert!(s.window_size <= 10);
        assert!(s.window_size >= 1);
    }
    assert_eq!(s.window_size, 10);
}

#[test]
fn frame_dropped_while_not_ready() {
    let mut s = WsSession::new(WsSerialization::MsgPack);
    assert!(s.handle_frame(frame(1, vec![1])).is_some());
    // transport not drained yet: the next frame is dropped
    assert!(s.handle_frame(frame(1, vec![2])).is_none());
    s.drained();
    s.ack();
    assert!(s.handle_frame(frame(1, vec![3])).is_some());
}

#[test]
fn msgpack_frames_carry_raw_jpeg() {
    let mut s = WsSession::new(WsSerialization::MsgPack);
    let out = s.handle_frame(frame(9, vec![1, 2, 3])).unwrap();
    assert_eq!(out.camera_id, 9);
    assert_eq!(out.resolution, FrameResolution::SD);
    match out.jpeg {
        FrameData::Raw(bytes) => assert_eq!(bytes, vec![1, 2, 3]),
        FrameData::Text(_) => panic!("msgpack session must carry raw bytes"),
    }
}

#[test]
fn json_frames_carry_base64_jpeg() {
    let mut s = WsSession::new(WsSerialization::Json);
    let out = s.handle_frame(frame(9, vec![0, 0, 0])).unwrap();
    match out.jpeg {
        FrameData::Text(text) => assert_eq!(text, "AAAA"),
        FrameData::Raw(_) => panic!("json session must carry base64 text"),
    }
    s.drained();
    s.ack();
    let out = s.handle_frame(frame(9, b"hello".to_vec())).unwrap();
    match out.jpeg {
        FrameData::Text(text) => assert_eq!(text, "aGVsbG8"),
        FrameData::Raw(_) => panic!("json session must carry base64 text"),
    }
}

#[test]
fn commands_become_actions() {
    let mut s = WsSession::new(WsSerialization::Json);
    let subject = SubscriptionSubject { camera_id: 4, resolution: FrameResolution::HD };
    match s.handle_command(WsCommand::Subscribe(subject), 77) {
        Some(SessionAction::Subscribe(sub)) => {
            assert_eq!(sub.camera_id, 4);
            assert_eq!(sub.client, 77);
            assert_eq!(sub.resolution, FrameResolution::HD);
        }
        other => panic!("unexpected action: {:?}", other),
    }
    match s.handle_command(WsCommand::Unsubscribe(subject), 77) {
        Some(SessionAction::Unsubscribe(unsub)) => {
            assert_eq!(unsub.camera_id, 4);
            assert_eq!(unsub.client, 77);
        }
        other => panic!("unexpected action: {:?}", other),
    }
    match s.handle_command(
        WsCommand::StartPlayback { id: 8, video_unit_id: 21, offset: 5 },
        77,
    ) {
        Some(SessionAction::StartPlayback { id, video_unit_id, offset }) => {
            assert_eq!((id, video_unit_id, offset), (8, 21, 5));
        }
        other => panic!("unexpected action: {:?}", other),
    }
    match s.handle_command(WsCommand::StopPlayback { id: 8 }, 77) {
        Some(SessionAction::StopPlayback { id }) => assert_eq!(id, 8),
        other => panic!("unexpected action: {:?}", other),
    }
}

#[test]
fn ack_command_acts_on_the_window() {
    let mut s = WsSession::new(WsSerialization::Json);
    assert!(s.handle_frame(frame(1, vec![1])).is_some());
    assert!(s.handle_command(WsCommand::Ack, 1).is_none());
    assert_eq!(s.live_frames, 0);
    assert_eq!(s.window_size, 2);
}
