use vstd::prelude::*;

use crate::models::{Camera, VideoFile, VideoUnit};

verus! {

/// A recording segment paired with its source camera, as delivered by
/// `FetchCameraGroupFiles`: oldest first, in-progress files excluded.
pub type VideoUnitPair = (Camera, (VideoUnit, VideoFile));

/// One deletion the reaper has decided on: unlink the file at
/// `filename`, then delete the video unit and video file rows.
#[derive(Clone, Debug, PartialEq)]
pub struct ReapAction {
    /// path of the on-disk file to unlink
    pub filename: String,
    /// id of the video unit row to delete
    pub video_unit_id: i32,
    /// id of the video file row to delete
    pub video_file_id: i32,
}

/// The sizes, in bytes, of a delivered file list.
pub open spec fn spec_sizes(files: Seq<VideoUnitPair>) -> Seq<int> {
    files.map_values(|p: VideoUnitPair| p.1.1.size as int)
}

/// The sum of a sequence of integers.
pub open spec fn sum_of(s: Seq<int>) -> int
    decreases s.len(),
{
    if s.len() == 0 {
        0
    } else {
        s[0] + sum_of(s.drop_first())
    }
}

/// How many leading files the reaper deletes: it walks the list oldest
/// first and stops as soon as the bytes still to free, `over`, reach
/// zero or the list is exhausted.
pub open spec fn spec_take_count(sizes: Seq<int>, over: int) -> int
    decreases sizes.len(),
{
    if over <= 0 || sizes.len() == 0 {
        0
    } else {
        1 + spec_take_count(sizes.drop_first(), over - sizes[0])
    }
}

/// The reaper never plans past the end of the list.
pub proof fn lemma_take_count_in_range(sizes: Seq<int>, over: int)
    ensures
        0 <= spec_take_count(sizes, over) <= sizes.len(),
    decreases sizes.len(),
{
    if !(over <= 0 || sizes.len() == 0) {
        lemma_take_count_in_range(sizes.drop_first(), over - sizes[0]);
    }
}

/// A sequence of 32-bit sizes sums to something proportional to its
/// length.
proof fn lemma_sum_bounds(s: Seq<int>)
    requires
        forall|i: int| 0 <= i < s.len() ==> -0x8000_0000 <= #[trigger] s[i] < 0x8000_0000,
    ensures
        -0x8000_0000 * s.len() <= sum_of(s) <= 0x8000_0000 * s.len(),
    decreases s.len(),
{
    if s.len() > 0 {
        assert(forall|i: int|
            0 <= i < s.drop_first().len() ==> -0x8000_0000 <= #[trigger] s.drop_first()[i]
                < 0x8000_0000);
        lemma_sum_bounds(s.drop_first());
    }
}

/// Splitting a sum at the first element.
proof fn lemma_sum_take_succ(s: Seq<int>, i: int)
    requires
        0 <= i < s.len(),
    ensures
        sum_of(s.take(i + 1)) == sum_of(s.take(i)) + s[i],
    decreases i,
{
    if i == 0 {
        assert(s.take(1).drop_first() =~= Seq::<int>::empty());
        assert(s.take(1)[0] == s[0]);
        assert(s.take(0) =~= Seq::<int>::empty());
    } else {
        assert(s.take(i + 1).drop_first() =~= s.drop_first().take(i));
        assert(s.take(i).drop_first() =~= s.drop_first().take(i - 1));
        lemma_sum_take_succ(s.drop_first(), i - 1);
        assert(s.take(i + 1)[0] == s[0]);
        assert(s.take(i)[0] == s[0]);
    }
}

/// The storage reaper of one camera group.  Each tick it asks for the
/// group's budget, current usage, and oldest files, then deletes
/// leading files until the usage is back inside the budget.
pub struct FileDeletionActor {
    /// id of the camera group this reaper deletes excess files for
    pub camera_group_id: i32,
}

impl FileDeletionActor {
    /// A reaper for the given camera group.
    pub fn new(camera_group_id: i32) -> (r: Self)
        ensures
            r.camera_group_id == camera_group_id,
    {
        Self { camera_group_id }
    }

    /// Plans one reaper tick over the delivered file list.  `max_size`
    /// is the group's budget in megabytes, `current_size` the bytes
    /// currently used, and `files` the group's recordings oldest first.
    /// The plan deletes exactly the shortest prefix of `files` whose
    /// sizes cover the excess `current_size - max_size * 2^20`, or the
    /// whole list when it does not suffice; a group within budget
    /// keeps every file.
    #[verifier::loop_isolation(false)]
    pub fn handle_files(&self, max_size: i64, current_size: i64, files: &Vec<VideoUnitPair>)
        -> (r: Vec<ReapAction>)
        ensures
            r@.len() == spec_take_count(
                spec_sizes(files@),
                current_size - max_size * 1048576,
            ),
            forall|j: int|
                0 <= j < r@.len() ==> r@[j] == (ReapAction {
                    filename: files@[j].1.1.filename,
                    video_unit_id: files@[j].1.0.id,
                    video_file_id: files@[j].1.1.id,
                }),
    {
        let ghost sizes = spec_sizes(files@);
        let ghost over = current_size - max_size * 1048576;
        let max_size_bytes: i128 = (max_size as i128) * 1048576;
        let mut delete_amount: i128 = (current_size as i128) - max_size_bytes;
        let mut r: Vec<ReapAction> = Vec::new();
        let n: usize = files.len();
        let mut i: usize = 0;
        proof {
            assert(sizes.len() == n);
            assert(forall|k: int|
                0 <= k < sizes.len() ==> -0x8000_0000 <= #[trigger] sizes[k] < 0x8000_0000);
            assert(sizes.take(0) =~= Seq::<int>::empty());
            assert(sizes.skip(0) =~= sizes);
        }
        while i < n
            invariant
                i <= n,
                r@.len() == i,
                delete_amount == over - sum_of(sizes.take(i as int)),
                spec_take_count(sizes, over) == i + spec_take_count(
                    sizes.skip(i as int),
                    delete_amount as int,
                ),
                forall|j: int|
                    0 <= j < i ==> r@[j] == (ReapAction {
                        filename: files@[j].1.1.filename,
                        video_unit_id: files@[j].1.0.id,
                        video_file_id: files@[j].1.1.id,
                    }),
            decreases n - i,
        {
            if delete_amount <= 0 {
                proof {
                    assert(spec_take_count(sizes.skip(i as int), delete_amount as int) == 0);
                }
                return r;
            }
            let file = &files[i];
            proof {
                assert(sizes.skip(i as int).len() == n - i);
                assert(sizes.skip(i as int)[0] == sizes[i as int]);
                assert(sizes.skip(i as int).drop_first() =~= sizes.skip(i as int + 1));
                lemma_sum_take_succ(sizes, i as int);
                lemma_sum_bounds(sizes.take(i as int));
                lemma_sum_bounds(sizes.take(i as int + 1));
                assert(sizes.take(i as int).len() == i);
                assert(0x8000_0000 * (i as int) <= 0x8000_0000 * (n as int));
            }
            delete_amount = delete_amount - (file.1.1.size as i128);
            r.push(
                ReapAction {
                    filename: file.1.1.filename.clone(),
                    video_unit_id: file.1.0.id,
                    video_file_id: file.1.1.id,
                },
            );
            i = i + 1;
        }
        proof {
            assert(sizes.skip(n as int) =~= Seq::<int>::empty());
            assert(spec_take_count(sizes.skip(n as int), delete_amount as int) == 0);
        }
        r
    }
}

/// Law: budget safety.  When the delivered list covers the whole group
/// (its sizes sum to `current`) and sizes are nonnegative, the files a
/// reaper tick keeps sum to at most the group's byte budget.  Files
/// still being written are excluded from `current` and from the list,
/// so the budget can be exceeded by at most those in-flight segments.
pub proof fn lemma_budget_safety(sizes: Seq<int>, max_bytes: int, current: int)
    requires
        current == sum_of(sizes),
        max_bytes >= 0,
        forall|i: int| 0 <= i < sizes.len() ==> #[trigger] sizes[i] >= 0,
    ensures
        sum_of(sizes.skip(spec_take_count(sizes, current - max_bytes))) <= max_bytes,
    decreases sizes.len(),
{
    let over = current - max_bytes;
    if over <= 0 || sizes.len() == 0 {
        assert(spec_take_count(sizes, over) == 0);
        assert(sizes.skip(0) =~= sizes);
        if sizes.len() == 0 {
            assert(sum_of(sizes) == 0);
        }
    } else {
        let rest = sizes.drop_first();
        let current2 = current - sizes[0];
        assert(current2 == sum_of(rest));
        assert(forall|i: int| 0 <= i < rest.len() ==> #[trigger] rest[i] >= 0);
        lemma_budget_safety(rest, max_bytes, current2);
        let k = spec_take_count(rest, current2 - max_bytes);
        assert(spec_take_count(sizes, over) == 1 + k);
        lemma_take_count_in_range(rest, current2 - max_bytes);
        assert(sizes.skip(1 + k) =~= rest.skip(k));
    }
}

} // verus!
