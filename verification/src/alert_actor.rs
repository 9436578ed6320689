use vstd::prelude::*;

use std::collections::HashMap;

use crate::models::{AlertRuleModel, Observation};
use crate::notifier_supervisor::SendNotification;

verus! {

broadcast use vstd::std_specs::hash::group_hash_axioms;

/// An `i32` mapped injectively into `[0, 2^32)`.
pub open spec fn spec_key_part(x: i32) -> u64 {
    if x >= 0 {
        x as u64
    } else {
        (x + 0x1_0000_0000) as u64
    }
}

/// The table key of a `(rule, camera)` pair.
pub open spec fn spec_rule_camera_key(rule_id: i32, camera_id: i32) -> u64 {
    (spec_key_part(rule_id) * 0x1_0000_0000 + spec_key_part(camera_id)) as u64
}

/// Distinct `(rule, camera)` pairs get distinct table keys.
pub proof fn lemma_rule_camera_key_injective(r1: i32, c1: i32, r2: i32, c2: i32)
    requires
        spec_rule_camera_key(r1, c1) == spec_rule_camera_key(r2, c2),
    ensures
        r1 == r2,
        c1 == c2,
{
    let h1 = spec_key_part(r1);
    let l1 = spec_key_part(c1);
    let h2 = spec_key_part(r2);
    let l2 = spec_key_part(c2);
    assert(h1 * 0x1_0000_0000 <= 0xFFFF_FFFF * 0x1_0000_0000);
    assert(h2 * 0x1_0000_0000 <= 0xFFFF_FFFF * 0x1_0000_0000);
    assert(h1 * 0x1_0000_0000 + l1 == h2 * 0x1_0000_0000 + l2);
    assert(h1 == h2 && l1 == l2) by (nonlinear_arith)
        requires
            h1 * 0x1_0000_0000 + l1 == h2 * 0x1_0000_0000 + l2,
            h1 < 0x1_0000_0000,
            l1 < 0x1_0000_0000,
            h2 < 0x1_0000_0000,
            l2 < 0x1_0000_0000,
    ;
}

fn key_part(x: i32) -> (r: u64)
    ensures
        r == spec_key_part(x),
{
    if x >= 0 {
        x as u64
    } else {
        ((x as i64) + 0x1_0000_0000) as u64
    }
}

/// Computes the table key of a `(rule, camera)` pair.
fn rule_camera_key(rule_id: i32, camera_id: i32) -> (r: u64)
    ensures
        r == spec_rule_camera_key(rule_id, camera_id),
{
    key_part(rule_id) * 0x1_0000_0000 + key_part(camera_id)
}

/// The rolling cluster of one `(rule, camera)` pair: how many matching
/// observations have arrived since the cluster was last reset, and
/// when the first of them was seen.
#[derive(Clone, Copy, Debug, PartialEq, Eq, Structural)]
pub struct ClusterState {
    /// matching observations in the current cluster
    pub count: u64,
    /// arrival time of the cluster's first observation, UTC microseconds
    pub first_seen: i64,
}

/// The alert engine's state as mathematical maps from `(rule, camera)`
/// table keys.
pub struct AlertState {
    /// rolling cluster per pair
    pub clusters: Map<u64, ClusterState>,
    /// time of the last notification per pair
    pub last_fired: Map<u64, i64>,
}

/// The cluster count a pair would reach with one more matching
/// observation, saturating instead of wrapping.
pub open spec fn spec_new_count(clusters: Map<u64, ClusterState>, key: u64) -> u64 {
    if clusters.contains_key(key) {
        if clusters[key].count == u64::MAX {
            u64::MAX
        } else {
            (clusters[key].count + 1) as u64
        }
    } else {
        1u64
    }
}

/// Whether the pair's cool-down has elapsed: it never fired, or at
/// least `cool_down` microseconds passed since it last fired.
pub open spec fn spec_fire_ok(
    last_fired: Map<u64, i64>,
    key: u64,
    now: i64,
    cool_down: i64,
) -> bool {
    !last_fired.contains_key(key) || now - last_fired[key] >= cool_down
}

/// The notification one rule sends for one camera: addressed to the
/// rule's notifier and topic, carrying the rule's name.  A snapshot
/// attachment, when wanted, is added by the delivery side.
pub open spec fn spec_notification(rule: AlertRuleModel) -> SendNotification {
    SendNotification {
        notifier_id: rule.0.notifier_id,
        contact_group: rule.0.notification_topic,
        message: Some(rule.0.name),
        attachment: None,
    }
}

/// One step of the alert engine: the effect of one observation on one
/// rule.  A matching observation grows the pair's cluster; once the
/// cluster reaches the rule's `min_cluster_size` and the pair's
/// cool-down has elapsed, the notification fires, the cluster resets,
/// and the firing time is recorded.
pub open spec fn spec_step(
    s: AlertState,
    rule: AlertRuleModel,
    camera_id: i32,
    obs: Observation,
    now: i64,
) -> (AlertState, Option<SendNotification>) {
    if !rule.spec_matches(camera_id, obs) {
        (s, None)
    } else {
        let key = spec_rule_camera_key(rule.0.id, camera_id);
        let newcount = spec_new_count(s.clusters, key);
        if newcount as int >= rule.0.min_cluster_size as int && spec_fire_ok(
            s.last_fired,
            key,
            now,
            rule.0.cool_down_time,
        ) {
            (
                AlertState {
                    clusters: s.clusters.remove(key),
                    last_fired: s.last_fired.insert(key, now),
                },
                Some(spec_notification(rule)),
            )
        } else {
            (
                AlertState {
                    clusters: s.clusters.insert(
                        key,
                        ClusterState {
                            count: newcount,
                            first_seen: if s.clusters.contains_key(key) {
                                s.clusters[key].first_seen
                            } else {
                                now
                            },
                        },
                    ),
                    last_fired: s.last_fired,
                },
                None,
            )
        }
    }
}

/// The effect of one observation on a whole rule list, first rule
/// first: the final state and the notifications fired, in rule order.
pub open spec fn spec_run(
    s: AlertState,
    rules: Seq<AlertRuleModel>,
    camera_id: i32,
    obs: Observation,
    now: i64,
) -> (AlertState, Seq<SendNotification>)
    decreases rules.len(),
{
    if rules.len() == 0 {
        (s, Seq::empty())
    } else {
        let stepped = spec_step(s, rules[0], camera_id, obs, now);
        let rest = spec_run(stepped.0, rules.drop_first(), camera_id, obs, now);
        (
            rest.0,
            match stepped.1 {
                Some(n) => seq![n] + rest.1,
                None => rest.1,
            },
        )
    }
}

/// The alert engine: clusters matching observations per `(rule,
/// camera)` pair and fires notifications subject to each rule's
/// cluster size and cool-down.
pub struct AlertActor {
    /// rolling cluster per `(rule, camera)` table key
    pub clusters: HashMap<u64, ClusterState>,
    /// time of the last notification per `(rule, camera)` table key
    pub last_fired: HashMap<u64, i64>,
}

impl AlertActor {
    /// The engine's state as mathematical maps.
    pub open spec fn view(self) -> AlertState {
        AlertState { clusters: self.clusters@, last_fired: self.last_fired@ }
    }

    /// A fresh engine: no clusters, nothing fired yet.
    pub fn new() -> (r: Self)
        ensures
            r.view() == (AlertState {
                clusters: Map::<u64, ClusterState>::empty(),
                last_fired: Map::<u64, i64>::empty(),
            }),
    {
        AlertActor { clusters: HashMap::new(), last_fired: HashMap::new() }
    }

    /// Applies one observation to one rule, exactly as `spec_step`
    /// describes: the cluster of `(rule, camera)` grows on a match,
    /// and the notification fires once the cluster reaches the rule's
    /// size floor and the pair's cool-down has elapsed.
    pub fn process_rule(
        &mut self,
        rule: &AlertRuleModel,
        camera_id: i32,
        obs: &Observation,
        now: i64,
    ) -> (r: Option<SendNotification>)
        ensures
            ({
                let stepped = spec_step(old(self).view(), *rule, camera_id, *obs, now);
                &&& final(self).view() == stepped.0
                &&& r == stepped.1
            }),
    {
        if !rule.matches_observation(camera_id, obs) {
            return None;
        }
        let key: u64 = rule_camera_key(rule.0.id, camera_id);
        let (newcount, first_seen): (u64, i64) = match self.clusters.get(&key) {
            Option::Some(c) => {
                (
                    if c.count == u64::MAX {
                        u64::MAX
                    } else {
                        c.count + 1
                    },
                    c.first_seen,
                )
            },
            Option::None => (1u64, now),
        };
        let cluster_ok: bool = if rule.0.min_cluster_size <= 0 {
            true
        } else {
            newcount >= rule.0.min_cluster_size as u64
        };
        let cool_ok: bool = match self.last_fired.get(&key) {
            Option::Some(t) => (now as i128) - (*t as i128) >= (rule.0.cool_down_time as i128),
            Option::None => true,
        };
        if cluster_ok && cool_ok {
            self.clusters.remove(&key);
            self.last_fired.insert(key, now);
            Some(
                SendNotification {
                    notifier_id: rule.0.notifier_id,
                    contact_group: rule.0.notification_topic.clone(),
                    message: Some(rule.0.name.clone()),
                    attachment: None,
                },
            )
        } else {
            self.clusters.insert(key, ClusterState { count: newcount, first_seen });
            None
        }
    }

    /// Applies one observation to every rule in order, exactly as
    /// `spec_run` describes, and returns the notifications that fired,
    /// in rule order.  Rules matching the observation all fire
    /// independently.
    #[verifier::loop_isolation(false)]
    pub fn handle_observation(
        &mut self,
        rules: &Vec<AlertRuleModel>,
        camera_id: i32,
        obs: &Observation,
        now: i64,
    ) -> (r: Vec<SendNotification>)
        ensures
            ({
                let ran = spec_run(old(self).view(), rules@, camera_id, *obs, now);
                &&& final(self).view() == ran.0
                &&& r@ == ran.1
            }),
    {
        let ghost goal = spec_run(old(self).view(), rules@, camera_id, *obs, now);
        let mut r: Vec<SendNotification> = Vec::new();
        let n: usize = rules.len();
        let mut i: usize = 0;
        proof {
            assert(rules@.skip(0) =~= rules@);
            assert(r@ + goal.1 =~= goal.1);
        }
        while i < n
            invariant
                i <= n,
                ({
                    let rest = spec_run(self.view(), rules@.skip(i as int), camera_id, *obs, now);
                    goal.0 == rest.0 && goal.1 == r@ + rest.1
                }),
            decreases n - i,
        {
            let ghost pre = self.view();
            let ghost rest_pre = spec_run(pre, rules@.skip(i as int), camera_id, *obs, now);
            proof {
                assert(rules@.skip(i as int).len() > 0);
                assert(rules@.skip(i as int)[0] == rules@[i as int]);
                assert(rules@.skip(i as int).drop_first() =~= rules@.skip(i as int + 1));
            }
            let ghost r_pre = r@;
            let stepped = self.process_rule(&rules[i], camera_id, obs, now);
            match stepped {
                Option::Some(notification) => {
                    r.push(notification);
                },
                Option::None => {},
            }
            proof {
                let rest_post = spec_run(self.view(), rules@.skip(i as int + 1), camera_id, *obs, now);
                match spec_step(pre, rules@[i as int], camera_id, *obs, now).1 {
                    Some(x) => {
                        assert(rest_pre.1 == seq![x] + rest_post.1);
                        assert(r@ == r_pre.push(x));
                        assert(r_pre.push(x) =~= r_pre + seq![x]);
                        assert((r_pre + seq![x]) + rest_post.1 =~= r_pre + (seq![x]
                            + rest_post.1));
                    },
                    None => {
                        assert(rest_pre.1 == rest_post.1);
                    },
                }
            }
            i = i + 1;
        }
        proof {
            assert(rules@.skip(n as int) =~= Seq::<AlertRuleModel>::empty());
            assert(r@ + Seq::<SendNotification>::empty() =~= r@);
        }
        r
    }
}

/// Law: cool-down.  For each `(rule, camera)` pair, successive
/// notifications are at least the rule's `cool_down_time` apart: once
/// a firing at `t_prev` is on record for the pair, a step can fire it
/// again at `now` only when `now - t_prev` reaches the cool-down, and
/// the new firing time is then recorded in its place.
pub proof fn lemma_cool_down(
    s: AlertState,
    rule: AlertRuleModel,
    camera_id: i32,
    obs: Observation,
    now: i64,
    t_prev: i64,
)
    requires
        s.last_fired.contains_key(spec_rule_camera_key(rule.0.id, camera_id)),
        s.last_fired[spec_rule_camera_key(rule.0.id, camera_id)] == t_prev,
        spec_step(s, rule, camera_id, obs, now).1 is Some,
    ensures
        now - t_prev >= rule.0.cool_down_time,
        spec_step(s, rule, camera_id, obs, now).0.last_fired[spec_rule_camera_key(
            rule.0.id,
            camera_id,
        )] == now,
{
}

/// Law: matching correctness.  The rule predicate is the conjunction
/// of its four component predicates: equal tag, equal details, a score
/// at or above the rule's floor, and a camera inside the rule's scope.
pub proof fn lemma_matching_correctness(rule: AlertRuleModel, camera_id: i32, obs: Observation)
    ensures
        rule.spec_matches(camera_id, obs) <==> ((obs.tag@ == rule.0.tag@) && (obs.details@
            == rule.0.details@) && obs.score >= rule.0.min_score && rule.spec_matches_camera_id(
            camera_id,
        )),
{
}

} // verus!
