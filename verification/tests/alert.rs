use exopticon::alert_actor::AlertActor;
use exopticon::models::{AlertRule, AlertRuleModel, Observation};

fn rule(id: i32, camera_ids: Vec<i32>, min_cluster_size: i16, cool_down_time: i64)
    -> AlertRuleModel {
    AlertRuleModel(
        AlertRule {
            id,
            name: format!("rule {}", id),
            analysis_instance_id: 1,
            tag: "person".to_string(),
            details: "unknown".to_string(),
            min_score: 50,
            min_cluster_size,
            cool_down_time,
            notifier_id: 9,
            inserted_at: 0,
            updated_at: 0,
            notification_topic: "alerts".to_string(),
        },
        camera_ids,
    )
}

fn observation(tag: &str, details: &str, score: i16) -> Observation {
    Observation {
        id: 1,
        video_unit_id: 1,
        frame_offset: 0,
        tag: tag.to_string(),
        details: details.to_string(),
        score,
        ul_x: 0,
        ul_y: 0,
        lr_x: 10,
        lr_y: 10,
        inserted_at: 0,
    }
}

#[test]
fn matching_is_the_conjunction_of_its_parts() {
    let r = rule(1, vec![4], 1, 0);
    let obs = observation("person", "unknown", 80);
    assert!(r.matches_observation(4, &obs));
    // each component alone breaks the match
    assert!(!r.matches_observation(4, &observation("motion", "unknown", 80)));
    assert!(!r.matches_observation(4, &observation("person", "deer", 80)));
    assert!(!r.matches_observation(4, &observation("person", "unknown", 49)));
    assert!(!r.matches_observation(5, &obs));
    // the score floor is inclusive
    assert!(r.matches_observation(4, &observation("person", "unknown", 50)));
}

#[test]
fn empty_camera_scope_matches_every_camera() {
    let r = rule(1, vec![], 1, 0);
    assert!(r.matches_camera_id(1));
    assert!(r.matches_camera_id(-7));
    let scoped = rule(2, vec![2, 3], 1, 0);
    assert!(scoped.matches_camera_id(3));
    assert!(!scoped.matches_camera_id(4));
}

#[test]
fn rule_accessor_returns_the_row() {
    let r = rule(12, vec![], 1, 0);
    assert_eq!(r.rule().id, 12);
    assert_eq!(r.rule().notification_topic, "alerts");
}

#[test]
fn cool_down_allows_exactly_one_of_three_bursts() {
    // min_cluster_size 2, cool-down 1 s; three matching observations at
    // t = 0, 1, 2 us fire exactly one notification, at the second
    let rules = vec![rule(1, vec![], 2, 1_000_000)];
    let mut engine = AlertActor::new();
    let obs = observation("person", "unknown", 90);
    assert!(engine.handle_observation(&rules, 3, &obs, 0).is_empty());
    let fired = engine.handle_observation(&rules, 3, &obs, 1);
    assert_eq!(fired.len(), 1);
    assert_eq!(fired[0].notifier_id, 9);
    assert_eq!(fired[0].contact_group, "alerts");
    assert_eq!(fired[0].message.as_deref(), Some("rule 1"));
    assert!(fired[0].attachment.is_none());
    assert!(engine.handle_observation(&rules, 3, &obs, 2).is_empty());
}

#[test]
fn notifications_fire_again_after_the_cool_down() {
    let rules = vec![rule(1, vec![], 1, 1_000_000)];
    let mut engine = AlertActor::new();
    let obs = observation("person", "unknown", 90);
    assert_eq!(engine.handle_observation(&rules, 3, &obs, 0).len(), 1);
    // still cooling down
    assert!(engine.handle_observation(&rules, 3, &obs, 999_999).is_empty());
    // note the burst above also grew the cluster, so the next match fires
    assert_eq!(engine.handle_observation(&rules, 3, &obs, 1_000_000).len(), 1);
}

#[test]
fn cameras_cool_down_independently() {
    let rules = vec![rule(1, vec![], 1, 1_000_000)];
    let mut engine = AlertActor::new();
    let obs = observation("person", "unknown", 90);
    assert_eq!(engine.handle_observation(&rules, 3, &obs, 0).len(), 1);
    // a different camera has its own cool-down clock
    assert_eq!(engine.handle_observation(&rules, 4, &obs, 1).len(), 1);
    assert!(engine.handle_observation(&rules, 3, &obs, 2).is_empty());
}

#[test]
fn matching_rules_fire_independently() {
    let rules = vec![rule(1, vec![], 1, 0), rule(2, vec![], 1, 0), rule(3, vec![99], 1, 0)];
    let mut engine = AlertActor::new();
    let obs = observation("person", "unknown", 90);
    let fired = engine.handle_observation(&rules, 3, &obs, 0);
    assert_eq!(fired.len(), 2);
    assert_eq!(fired[0].message.as_deref(), Some("rule 1"));
    assert_eq!(fired[1].message.as_deref(), Some("rule 2"));
}

#[test]
fn non_matching_observations_leave_no_trace() {
    let rules = vec![rule(1, vec![], 2, 0)];
    let mut engine = AlertActor::new();
    let wrong = observation("motion", "unknown", 90);
    assert!(engine.handle_observation(&rules, 3, &wrong, 0).is_empty());
    // the cluster never grew, so one matching observation is not enough
    let right = observation("person", "unknown", 90);
    assert!(engine.handle_observation(&rules, 3, &right, 1).is_empty());
    assert_eq!(engine.handle_observation(&rules, 3, &right, 2).len(), 1);
}
