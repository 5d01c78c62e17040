//! A deletion task: deletes the keys of one listing page, one request per key,
//! in the order listed. An outcome never stops the task or changes what it
//! deletes next.
use vstd::prelude::*;
use crate::store::{DeleteRequest, StoreError};

verus! {

/// The abstract state of a deletion task.
pub struct DeletionTaskView {
    pub bucket: String,
    pub keys: Seq<String>,
    /// How many keys have had their delete request issued (a prefix of `keys`).
    pub attempted: nat,
    /// How many of those requests have had their outcome recorded.
    pub settled: nat,
    /// How many recorded outcomes were failures.
    pub failed: nat,
}

/// A task that has not issued any request yet.
pub open spec fn fresh_task(bucket: String, keys: Seq<String>) -> DeletionTaskView {
    DeletionTaskView { bucket, keys, attempted: 0, settled: 0, failed: 0 }
}

/// The task after it issued the delete request for its next key.
pub open spec fn after_request(t: DeletionTaskView) -> DeletionTaskView {
    DeletionTaskView { attempted: t.attempted + 1, ..t }
}

/// The task after the outcome of its oldest unsettled request came in.
pub open spec fn after_outcome(t: DeletionTaskView, ok: bool) -> DeletionTaskView {
    DeletionTaskView {
        settled: t.settled + 1,
        failed: if ok { t.failed } else { t.failed + 1 },
        ..t
    }
}

/// The keys whose deletion has been requested so far.
pub open spec fn requested(t: DeletionTaskView) -> Seq<String> {
    t.keys.take(t.attempted as int)
}

/// The counters of a task stay ordered: failures among the settled, settled
/// among the attempted, attempted among the keys.
pub open spec fn task_wf(t: DeletionTaskView) -> bool {
    t.failed <= t.settled <= t.attempted <= t.keys.len()
}

/// Deletes the keys of one batch of a bucket.
pub struct DeletionTask {
    bucket: String,
    keys: Vec<String>,
    attempted: usize,
    settled: usize,
    failed: usize,
}

impl View for DeletionTask {
    type V = DeletionTaskView;

    closed spec fn view(&self) -> DeletionTaskView {
        DeletionTaskView {
            bucket: self.bucket,
            keys: self.keys@,
            attempted: self.attempted as nat,
            settled: self.settled as nat,
            failed: self.failed as nat,
        }
    }
}

impl DeletionTask {
    pub closed spec fn wf(&self) -> bool {
        task_wf(self@)
    }

    /// A task that deletes `keys` from `bucket`.
    pub fn new(bucket: String, keys: Vec<String>) -> (t: DeletionTask)
        ensures
            t@ == fresh_task(bucket, keys@),
            t.wf(),
    {
        DeletionTask { bucket, keys, attempted: 0, settled: 0, failed: 0 }
    }

    /// The number of keys in the batch.
    pub fn len(&self) -> (r: usize)
        ensures
            r == self@.keys.len(),
    {
        self.keys.len()
    }

    /// Whether every key of the batch has had its delete request issued.
    pub fn is_done(&self) -> (r: bool)
        requires
            self.wf(),
        ensures
            r == (self@.attempted == self@.keys.len()),
    {
        self.attempted == self.keys.len()
    }

    /// How many recorded outcomes were failures.
    pub fn failures(&self) -> (r: usize)
        ensures
            r == self@.failed,
    {
        self.failed
    }

    /// The delete request for the next key in listing order, or `None` when
    /// every key has had its request. Earlier outcomes play no part.
    pub fn next_delete(&mut self) -> (r: Option<DeleteRequest>)
        requires
            old(self).wf(),
        ensures
            final(self).wf(),
            old(self)@.attempted < old(self)@.keys.len() ==> {
                &&& final(self)@ == after_request(old(self)@)
                &&& r matches Some(q) && q.bucket == old(self)@.bucket
                    && q.key == old(self)@.keys[old(self)@.attempted as int]
            },
            old(self)@.attempted == old(self)@.keys.len() ==> r is None && final(self)@
                == old(self)@,
    {
        if self.attempted < self.keys.len() {
            let key = self.keys[self.attempted].clone();
            self.attempted = self.attempted + 1;
            Some(DeleteRequest { bucket: self.bucket.clone(), key })
        } else {
            None
        }
    }

    /// Records the outcome of the oldest request whose outcome is not yet in.
    /// A failure is counted and nothing else: it is neither retried nor
    /// passed on.
    pub fn record_outcome(&mut self, outcome: &Result<(), StoreError>)
        requires
            old(self).wf(),
            old(self)@.settled < old(self)@.attempted,
        ensures
            final(self).wf(),
            final(self)@ == after_outcome(old(self)@, outcome is Ok),
    {
        self.settled = self.settled + 1;
        if outcome.is_err() {
            self.failed = self.failed + 1;
        }
    }
}

} // verus!
