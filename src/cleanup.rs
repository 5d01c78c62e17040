//! The pagination loop of a bucket cleanup: which page to ask for next, when
//! to stop, and which batch of keys to hand to a deletion task.
use vstd::prelude::*;
use crate::store::{ListPage, ListRequest, PageView, StoreError};
use crate::deletion::DeletionTask;

verus! {

/// The page size that the cleanup asks for when none is chosen.
pub const DEFAULT_PAGE_SIZE: i32 = 20;

/// The abstract state of a cleanup, with the history that the laws speak of.
pub struct CleanupView {
    pub bucket: String,
    pub page_size: i32,
    /// The cursor that the next listing request carries.
    pub token: Option<String>,
    /// Set once the store answered with no cursor, or failed.
    pub finished: bool,
    /// How many listing answers (pages or failures) were taken in.
    pub listings: nat,
    /// The key batches handed to deletion tasks, in order.
    pub batches: Seq<Seq<String>>,
}

/// The state of a cleanup before its first request.
pub open spec fn fresh(bucket: String, page_size: i32) -> CleanupView {
    CleanupView {
        bucket,
        page_size,
        token: None,
        finished: false,
        listings: 0,
        batches: Seq::empty(),
    }
}

/// The state after the store answered the pending request with `page`.
pub open spec fn after_page(s: CleanupView, page: PageView) -> CleanupView {
    CleanupView {
        token: page.next,
        finished: page.next is None,
        listings: s.listings + 1,
        batches: if page.keys.len() > 0 { s.batches.push(page.keys) } else { s.batches },
        ..s
    }
}

/// The state after the pending listing request failed: the cleanup is over.
pub open spec fn after_failure(s: CleanupView) -> CleanupView {
    CleanupView { finished: true, listings: s.listings + 1, ..s }
}

/// Orchestrates the draining of one bucket, one listing page at a time.
pub struct Cleanup {
    bucket: String,
    page_size: i32,
    token: Option<String>,
    finished: bool,
    listings: Ghost<nat>,
    batches: Ghost<Seq<Seq<String>>>,
}

impl View for Cleanup {
    type V = CleanupView;

    closed spec fn view(&self) -> CleanupView {
        CleanupView {
            bucket: self.bucket,
            page_size: self.page_size,
            token: self.token,
            finished: self.finished,
            listings: self.listings@,
            batches: self.batches@,
        }
    }
}

fn clone_token(t: &Option<String>) -> (r: Option<String>)
    ensures
        r == *t,
{
    match t {
        Some(s) => Some(s.clone()),
        None => None,
    }
}

impl Cleanup {
    /// A cleanup of `bucket` that asks for pages of `page_size` keys.
    pub fn new(bucket: String, page_size: i32) -> (c: Cleanup)
        ensures
            c@ == fresh(bucket, page_size),
    {
        Cleanup {
            bucket,
            page_size,
            token: None,
            finished: false,
            listings: Ghost(0),
            batches: Ghost(Seq::empty()),
        }
    }

    pub fn is_finished(&self) -> (r: bool)
        ensures
            r == self@.finished,
    {
        self.finished
    }

    /// The listing request to send next, or `None` once the listing is over.
    /// The request depends on the last page's cursor alone, never on how far
    /// the deletion tasks have come.
    pub fn next_request(&self) -> (r: Option<ListRequest>)
        ensures
            r is Some <==> !self@.finished,
            r matches Some(q) ==> q.bucket == self@.bucket && q.max_keys == self@.page_size
                && q.continuation_token == self@.token,
    {
        if self.finished {
            None
        } else {
            Some(
                ListRequest {
                    bucket: self.bucket.clone(),
                    max_keys: self.page_size,
                    continuation_token: clone_token(&self.token),
                },
            )
        }
    }

    /// Takes in the store's answer to the pending request. A page moves the
    /// cursor on and yields a deletion task for its keys, if it has any; a
    /// failure ends the cleanup and is handed back unchanged.
    pub fn on_listing(&mut self, answer: Result<ListPage, StoreError>) -> (r: Result<
        Option<DeletionTask>,
        StoreError,
    >)
        requires
            !old(self)@.finished,
        ensures
            answer matches Ok(page) ==> {
                &&& final(self)@ == after_page(old(self)@, page@)
                &&& r matches Ok(t) && (t is Some <==> page@.keys.len() > 0)
                &&& (r matches Ok(Some(task)) ==> task.wf() && task@ == crate::deletion::fresh_task(
                    old(self)@.bucket,
                    page@.keys,
                ))
            },
            answer matches Err(e) ==> r == Err::<Option<DeletionTask>, StoreError>(e)
                && final(self)@ == after_failure(old(self)@),
    {
        match answer {
            Ok(page) => {
                let ghost keys = page.keys@;
                self.finished = page.next_token.is_none();
                self.token = page.next_token;
                self.listings = Ghost(self.listings@ + 1);
                if page.keys.len() > 0 {
                    self.batches = Ghost(self.batches@.push(keys));
                    Ok(Some(DeletionTask::new(self.bucket.clone(), page.keys)))
                } else {
                    Ok(None)
                }
            },
            Err(e) => {
                self.finished = true;
                self.listings = Ghost(self.listings@ + 1);
                Err(e)
            },
        }
    }
}

} // verus!
