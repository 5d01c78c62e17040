//! The values exchanged with the object store: requests, pages and errors.
use vstd::prelude::*;

verus! {

/// A failure reported by the object store (network, permission, missing bucket).
pub struct StoreError {
    pub message: String,
}

/// One request for a page of the bucket's listing.
pub struct ListRequest {
    pub bucket: String,
    pub max_keys: i32,
    /// The continuation cursor; `None` asks for the first page.
    pub continuation_token: Option<String>,
}

/// One page of the bucket's listing, as the store answered it.
pub struct ListPage {
    /// The object keys of the page, in the order the store listed them.
    pub keys: Vec<String>,
    /// The number of keys that the store reports for the page.
    pub key_count: i32,
    /// The cursor of the next page; `None` when this page is the last.
    pub next_token: Option<String>,
}

/// What the pagination reads of a page: its keys and its continuation cursor.
pub struct PageView {
    pub keys: Seq<String>,
    pub next: Option<String>,
}

impl View for ListPage {
    type V = PageView;

    open spec fn view(&self) -> PageView {
        PageView { keys: self.keys@, next: self.next_token }
    }
}

/// One request to delete a single object.
pub struct DeleteRequest {
    pub bucket: String,
    pub key: String,
}

} // verus!
