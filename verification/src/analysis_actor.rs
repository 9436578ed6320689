use vstd::prelude::*;

use std::collections::HashMap;

use crate::alert_actor::spec_key_part;
use crate::ws_camera_server::FrameSource;

verus! {

broadcast use vstd::std_specs::hash::group_hash_axioms;

/// The table key of a frame source: the variant tag in the upper half,
/// the id in the lower half.
pub open spec fn spec_source_key(source: FrameSource) -> u64 {
    match source {
        FrameSource::Camera(id) => spec_key_part(id),
        FrameSource::AnalysisInstance(id) => (0x1_0000_0000u64 + spec_key_part(id)) as u64,
        FrameSource::Playback(id) => (0x2_0000_0000u64 + spec_key_part(id)) as u64,
    }
}

fn key_part_exec(x: i32) -> (r: u64)
    ensures
        r == spec_key_part(x),
{
    if x >= 0 {
        x as u64
    } else {
        ((x as i64) + 0x1_0000_0000) as u64
    }
}

/// Computes the table key of a frame source.
fn source_key(source: &FrameSource) -> (r: u64)
    ensures
        r == spec_source_key(*source),
{
    match source {
        FrameSource::Camera(id) => key_part_exec(*id),
        FrameSource::AnalysisInstance(id) => 0x1_0000_0000u64 + key_part_exec(*id),
        FrameSource::Playback(id) => 0x2_0000_0000u64 + key_part_exec(*id),
    }
}

/// The shortest allowed spacing between two forwarded frames of one
/// source, in microseconds: one second divided by the instance's
/// frame-rate cap.
pub open spec fn spec_min_interval(max_fps: i32) -> int
    recommends
        max_fps > 0,
{
    1_000_000int / (max_fps as int)
}

/// Whether a frame arriving at `now` from the source keyed `key` is
/// forwarded: the cap is positive, and the source either never
/// forwarded or last forwarded at least the minimum interval ago.
pub open spec fn spec_forwards(
    last: Map<u64, i64>,
    key: u64,
    now: i64,
    max_fps: i32,
) -> bool {
    &&& max_fps > 0
    &&& (!last.contains_key(key) || now - last[key] >= spec_min_interval(max_fps))
}

/// One analysis worker: feeds subscribed frames to its engine
/// subprocess, holding each source to the instance's frame-rate cap.
pub struct AnalysisActor {
    /// id of the analysis instance this worker runs
    pub instance_id: i32,
    /// frame-rate cap per subscribed source, frames per second
    pub max_fps: i32,
    /// when each source last had a frame forwarded, UTC microseconds
    pub last_forwarded: HashMap<u64, i64>,
}

impl AnalysisActor {
    /// A fresh worker: nothing forwarded yet.
    pub fn new(instance_id: i32, max_fps: i32) -> (r: Self)
        ensures
            r.instance_id == instance_id,
            r.max_fps == max_fps,
            r.last_forwarded@ == Map::<u64, i64>::empty(),
    {
        AnalysisActor { instance_id, max_fps, last_forwarded: HashMap::new() }
    }

    /// Decides whether a frame from `source` arriving at `now` is fed
    /// to the engine: frames above the per-source rate cap are
    /// dropped.  A forwarded frame advances the source's clock; a
    /// dropped one changes nothing.
    pub fn should_forward(&mut self, source: &FrameSource, now: i64) -> (r: bool)
        ensures
            r == spec_forwards(
                old(self).last_forwarded@,
                spec_source_key(*source),
                now,
                old(self).max_fps,
            ),
            r ==> final(self).last_forwarded@ == old(self).last_forwarded@.insert(
                spec_source_key(*source),
                now,
            ),
            !r ==> *final(self) == *old(self),
            final(self).instance_id == old(self).instance_id,
            final(self).max_fps == old(self).max_fps,
    {
        if self.max_fps <= 0 {
            return false;
        }
        let key: u64 = source_key(source);
        let interval: i64 = 1_000_000i64 / (self.max_fps as i64);
        let allowed: bool = match self.last_forwarded.get(&key) {
            Option::Some(t) => (now as i128) - (*t as i128) >= (interval as i128),
            Option::None => true,
        };
        if allowed {
            self.last_forwarded.insert(key, now);
            true
        } else {
            false
        }
    }
}

} // verus!
