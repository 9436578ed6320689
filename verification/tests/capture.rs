use exopticon::capture_actor::{
    extract_record, parse_capture_record, CaptureActor, CaptureMessage, CaptureOutcome, ParseError,
};

fn begin_unit_bytes(index: u32, begin_time: i64, filename: &[u8]) -> Vec<u8> {
    let mut d = vec![0x01u8];
    d.extend_from_slice(&index.to_be_bytes());
    d.extend_from_slice(&begin_time.to_be_bytes());
    d.extend_from_slice(&(filename.len() as u16).to_be_bytes());
    d.extend_from_slice(filename);
    d
}

fn frame_bytes(resolution: u8, offset_us: i64, jpeg: &[u8]) -> Vec<u8> {
    let mut d = vec![0x02u8, resolution];
    d.extend_from_slice(&offset_us.to_be_bytes());
    d.extend_from_slice(&(jpeg.len() as u32).to_be_bytes());
    d.extend_from_slice(jpeg);
    d
}

fn end_unit_bytes(end_time: i64, size: u32) -> Vec<u8> {
    let mut d = vec![0x03u8];
    d.extend_from_slice(&end_time.to_be_bytes());
    d.extend_from_slice(&size.to_be_bytes());
    d
}

#[test]
fn parses_begin_unit() {
    let d = begin_unit_bytes(7, 1_600_000_000_000_000, b"1/7.mp4");
    match parse_capture_record(&d) {
        Ok(CaptureMessage::BeginUnit { monotonic_index, begin_time, filename }) => {
            assert_eq!(monotonic_index, 7);
            assert_eq!(begin_time, 1_600_000_000_000_000);
            assert_eq!(filename, b"1/7.mp4".to_vec());
        }
        other => panic!("unexpected parse: {:?}", other),
    }
}

#[test]
fn parses_frame_record() {
    let d = frame_bytes(1, 250_000, &[0xff, 0xd8, 0xff]);
    match parse_capture_record(&d) {
        Ok(CaptureMessage::Frame { resolution, offset_us, jpeg }) => {
            assert_eq!(resolution, 1);
            assert_eq!(offset_us, 250_000);
            assert_eq!(jpeg, vec![0xff, 0xd8, 0xff]);
        }
        other => panic!("unexpected parse: {:?}", other),
    }
}

#[test]
fn parses_end_unit_and_negative_times() {
    let d = end_unit_bytes(-5, 4096);
    match parse_capture_record(&d) {
        Ok(CaptureMessage::EndUnit { end_time, size }) => {
            assert_eq!(end_time, -5);
            assert_eq!(size, 4096);
        }
        other => panic!("unexpected parse: {:?}", other),
    }
}

#[test]
fn parses_log_record() {
    let mut d = vec![0x04u8, 2];
    d.extend_from_slice(&(5u16.to_be_bytes()));
    d.extend_from_slice(b"hello");
    match parse_capture_record(&d) {
        Ok(CaptureMessage::Log { level, msg }) => {
            assert_eq!(level, 2);
            assert_eq!(msg, b"hello".to_vec());
        }
        other => panic!("unexpected parse: {:?}", other),
    }
}

#[test]
fn unknown_tag_is_rejected() {
    let d = vec![0x09u8, 0, 0];
    assert_eq!(parse_capture_record(&d), Err(ParseError::BadTag));
}

#[test]
fn wrong_framing_is_rejected() {
    assert_eq!(parse_capture_record(&[]), Err(ParseError::BadLength));
    // end-unit record one byte short
    let mut d = end_unit_bytes(0, 0);
    d.pop();
    assert_eq!(parse_capture_record(&d), Err(ParseError::BadLength));
    // begin-unit whose filename length disagrees with the data
    let mut d = begin_unit_bytes(1, 0, b"a.mp4");
    d.push(0);
    assert_eq!(parse_capture_record(&d), Err(ParseError::BadLength));
}

#[test]
fn extracts_length_prefixed_records() {
    let record = end_unit_bytes(10, 20);
    let mut stream = (record.len() as u32).to_be_bytes().to_vec();
    stream.extend_from_slice(&record);
    stream.extend_from_slice(&[1, 2, 3]);
    let (payload, consumed) = extract_record(&stream).unwrap();
    assert_eq!(payload, record);
    assert_eq!(consumed, 4 + record.len());
    // a truncated buffer yields nothing yet
    assert!(extract_record(&stream[..3]).is_none());
    assert!(extract_record(&stream[..record.len() + 3]).is_none());
}

#[test]
fn worker_opens_and_closes_segments() {
    let mut w = CaptureActor::new(5, "rtsp://cam".to_string(), "/video/5".to_string());
    let req = w.on_begin_unit(1, 1000, "5/1.mp4".to_string()).unwrap();
    assert_eq!(req.camera_id, 5);
    assert_eq!(req.monotonic_index, 1);
    assert_eq!(req.begin_time, 1000);
    assert_eq!(req.filename, "5/1.mp4");
    w.on_unit_created(301, 401);
    let close = w.on_end_unit(2000, 4096).unwrap();
    assert_eq!(close.video_unit_id, 301);
    assert_eq!(close.video_file_id, 401);
    assert_eq!(close.end_time, 2000);
    assert_eq!(close.size, 4096);
    // the segment is closed: a second end-unit emits nothing
    assert!(w.on_end_unit(2500, 1).is_none());
}

#[test]
fn monotonic_index_only_moves_forward() {
    let mut w = CaptureActor::new(5, "rtsp://cam".to_string(), "/video/5".to_string());
    assert!(w.on_begin_unit(10, 0, "a".to_string()).is_some());
    // a stale or repeated index is rejected
    assert!(w.on_begin_unit(10, 1, "b".to_string()).is_none());
    assert!(w.on_begin_unit(9, 2, "c".to_string()).is_none());
    assert!(w.on_begin_unit(11, 3, "d".to_string()).is_some());
}

#[test]
fn worker_maps_resolution_codes() {
    let w = CaptureActor::new(2, String::new(), String::new());
    let sd = w.on_frame(0, vec![1]).unwrap();
    assert_eq!(sd.camera_id, 2);
    let hd = w.on_frame(1, vec![2]).unwrap();
    assert_eq!(hd.camera_id, 2);
    assert!(w.on_frame(7, vec![3]).is_none());
}

#[test]
fn dispatch_drives_the_worker() {
    let mut w = CaptureActor::new(5, String::new(), String::new());
    let begin = parse_capture_record(&begin_unit_bytes(1, 50, b"5/1.mp4")).unwrap();
    match w.handle_message(begin) {
        CaptureOutcome::CreateUnit(req) => {
            assert_eq!(req.filename, "5/1.mp4");
            assert_eq!(req.monotonic_index, 1);
        }
        other => panic!("unexpected outcome: {:?}", other),
    }
    w.on_unit_created(1, 2);
    let publish = parse_capture_record(&frame_bytes(0, 0, &[9])).unwrap();
    match w.handle_message(publish) {
        CaptureOutcome::Publish(f) => assert_eq!(f.jpeg, vec![9]),
        other => panic!("unexpected outcome: {:?}", other),
    }
    let end = parse_capture_record(&end_unit_bytes(99, 1234)).unwrap();
    match w.handle_message(end) {
        CaptureOutcome::CloseUnit(u) => {
            assert_eq!(u.video_unit_id, 1);
            assert_eq!(u.size, 1234);
        }
        other => panic!("unexpected outcome: {:?}", other),
    }
    match w.handle_message(CaptureMessage::Log { level: 1, msg: b"ok".to_vec() }) {
        CaptureOutcome::Log { level, msg } => {
            assert_eq!(level, 1);
            assert_eq!(msg, b"ok".to_vec());
        }
        other => panic!("unexpected outcome: {:?}", other),
    }
}
