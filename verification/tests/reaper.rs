use exopticon::file_deletion_actor::{FileDeletionActor, VideoUnitPair};
use exopticon::models::{Camera, VideoFile, VideoUnit};

fn camera(id: i32) -> Camera {
    Camera {
        id,
        camera_group_id: 1,
        name: format!("cam {}", id),
        ip: "192.168.0.50".to_string(),
        onvif_port: 80,
        mac: "9C-84-AE-0E-33-5A".to_string(),
        username: String::new(),
        password: String::new(),
        rtsp_url: "rtsp://example".to_string(),
        ptz_type: "onvif".to_string(),
        ptz_profile_token: String::new(),
        enabled: true,
        inserted_at: 0,
        updated_at: 0,
    }
}

fn pair(unit_id: i32, file_id: i32, size: i32, begin_time: i64) -> VideoUnitPair {
    (
        camera(1),
        (
            VideoUnit {
                id: unit_id,
                camera_id: 1,
                monotonic_index: unit_id,
                begin_time,
                end_time: begin_time + 1,
                inserted_at: 0,
                updated_at: 0,
            },
            VideoFile {
                id: file_id,
                video_unit_id: unit_id,
                filename: format!("1/{}.mp4", unit_id),
                size,
                inserted_at: 0,
                updated_at: 0,
            },
        ),
    )
}

#[test]
fn budget_reaping_deletes_exactly_the_first_file() {
    // group budget 1 MB; three 400 KB files; one tick deletes exactly
    // the oldest, leaving 800 KB in use
    let reaper = FileDeletionActor::new(1);
    let files =
        vec![pair(1, 11, 409_600, 0), pair(2, 12, 409_600, 1), pair(3, 13, 409_600, 2)];
    let current: i64 = 3 * 409_600;
    let plan = reaper.handle_files(1, current, &files);
    assert_eq!(plan.len(), 1);
    assert_eq!(plan[0].video_unit_id, 1);
    assert_eq!(plan[0].video_file_id, 11);
    assert_eq!(plan[0].filename, "1/1.mp4");
    let used_after: i64 = current - 409_600;
    assert_eq!(used_after, 819_200);
    assert!(used_after <= 1 * 1024 * 1024);
}

#[test]
fn group_within_budget_keeps_every_file() {
    let reaper = FileDeletionActor::new(1);
    let files = vec![pair(1, 11, 100, 0), pair(2, 12, 100, 1)];
    let plan = reaper.handle_files(1, 200, &files);
    assert!(plan.is_empty());
}

#[test]
fn deep_excess_consumes_the_whole_list() {
    let reaper = FileDeletionActor::new(1);
    let files = vec![pair(1, 11, 1000, 0), pair(2, 12, 1000, 1)];
    // far over budget: both delivered files go
    let plan = reaper.handle_files(0, 1_000_000, &files);
    assert_eq!(plan.len(), 2);
    assert_eq!(plan[1].video_unit_id, 2);
}

#[test]
fn deletion_stops_once_the_excess_is_covered() {
    let reaper = FileDeletionActor::new(1);
    let files = vec![
        pair(1, 11, 600, 0),
        pair(2, 12, 600, 1),
        pair(3, 13, 600, 2),
        pair(4, 14, 600, 3),
    ];
    // budget 0 MB, used 2400 bytes minus budget 0 -> delete everything
    let plan = reaper.handle_files(0, 2400, &files);
    assert_eq!(plan.len(), 4);
    // used 1100 over a 1 MB budget... a small excess takes only the oldest
    let plan = reaper.handle_files(1, 1024 * 1024 + 500, &files);
    assert_eq!(plan.len(), 1);
}
