use vstd::prelude::*;

use crate::capture_supervisor::{has_pair, has_worker};
use crate::models::Notifier;

verus! {

/// Request that the supervisor rebuild its notifier workers from the
/// persisted notifier list.
pub struct SyncNotifiers {}

/// Request to deliver one alert through a notifier.
#[derive(Clone, Debug, PartialEq)]
pub struct SendNotification {
    /// id of the notifier that delivers the alert
    pub notifier_id: i32,
    /// contact group or topic the alert is addressed to
    pub contact_group: String,
    /// optional message text
    pub message: Option<String>,
    /// optional image attachment
    pub attachment: Option<Vec<u8>>,
}

/// Supervisor of the notifier workers: one worker per configured
/// notifier, keyed by notifier id.
pub struct NotifierSupervisor {
    /// running workers: notifier id paired with the worker's handle
    pub workers: Vec<(i32, u64)>,
}

impl Default for NotifierSupervisor {
    /// A supervisor with no running workers.
    fn default() -> (r: Self)
        ensures
            r.wf(),
            r.workers@.len() == 0,
    {
        NotifierSupervisor { workers: Vec::new() }
    }
}

impl NotifierSupervisor {
    /// No notifier id appears twice in the worker map.
    pub open spec fn wf(self) -> bool {
        forall|i: int, j: int|
            0 <= i < j < self.workers@.len() ==> self.workers@[i].0 != self.workers@[j].0
    }

    /// An idempotent reconciliation: drops every current worker and
    /// registers one freshly started worker per persisted notifier,
    /// `handles[i]` serving `notifiers[i]`.  Never a partial update.
    #[verifier::loop_isolation(false)]
    pub fn sync_notifiers(&mut self, notifiers: &Vec<Notifier>, handles: &Vec<u64>)
        requires
            notifiers@.len() == handles@.len(),
            forall|i: int, j: int|
                0 <= i < j < notifiers@.len() ==> notifiers@[i].id != notifiers@[j].id,
        ensures
            final(self).wf(),
            final(self).workers@.len() == notifiers@.len(),
            forall|i: int|
                0 <= i < notifiers@.len() ==> final(self).workers@[i] == (
                notifiers@[i].id,
                handles@[i],
                ),
    {
        self.workers = Vec::new();
        let n: usize = notifiers.len();
        let mut i: usize = 0;
        while i < n
            invariant
                i <= n,
                self.workers@.len() == i,
                forall|j: int|
                    0 <= j < i ==> self.workers@[j] == (notifiers@[j].id, handles@[j]),
            decreases n - i,
        {
            self.workers.push((notifiers[i].id, handles[i]));
            i = i + 1;
        }
    }

    /// Routes a notification to the worker of its notifier: the
    /// worker's handle when one is registered for `msg.notifier_id`,
    /// nothing (the notification is dropped with a warning) when none
    /// is.
    #[verifier::loop_isolation(false)]
    pub fn route_notification(&self, msg: &SendNotification) -> (r: Option<u64>)
        requires
            self.wf(),
        ensures
            match r {
                Option::Some(h) => has_pair(self.workers@, msg.notifier_id, h),
                Option::None => !has_worker(self.workers@, msg.notifier_id),
            },
            has_worker(self.workers@, msg.notifier_id) ==> r is Some,
    {
        let n: usize = self.workers.len();
        let mut i: usize = 0;
        while i < n
            invariant
                i <= n,
                forall|j: int| 0 <= j < i ==> self.workers@[j].0 != msg.notifier_id,
            decreases n - i,
        {
            if self.workers[i].0 == msg.notifier_id {
                proof {
                    assert(has_pair(self.workers@, msg.notifier_id, self.workers@[i as int].1));
                }
                return Some(self.workers[i].1);
            }
            i = i + 1;
        }
        proof {
            assert(!has_worker(self.workers@, msg.notifier_id));
        }
        None
    }
}

} // verus!
