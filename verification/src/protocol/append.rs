//! Appends to a thread, and the list of its items.
use vstd::prelude::*;

verus! {

/// One item to append.
#[derive(Debug, Clone, PartialEq, Eq)]
pub struct AppendThreadItem {
    pub payload_ref: String,
}

/// Asks for items to be appended under a writer lease.
#[derive(Debug, Clone, PartialEq, Eq)]
pub struct AppendThreadItemsWithLeaseParams {
    pub thread_id: String,
    pub request_id: String,
    pub lease_id: String,
    pub writer_owner_token: String,
    pub fencing_token: u64,
    pub append_idempotency_key: String,
    pub expected_thread_version: Option<u64>,
    pub items: Vec<AppendThreadItem>,
}

impl AppendThreadItemsWithLeaseParams {
    /// The payload references of the items, in order.
    pub open spec fn payload_refs(&self) -> Seq<Seq<char>> {
        Seq::new(self.items@.len(), |i: int| self.items@[i].payload_ref@)
    }
}

/// Answers [`AppendThreadItemsWithLeaseParams`].
#[derive(Debug, Clone, Copy, PartialEq, Eq, Structural)]
pub struct AppendThreadItemsWithLeaseResponse {
    pub thread_version: u64,
    pub first_append_sequence: u64,
    pub last_append_sequence: u64,
    pub deduplicated: bool,
}

impl DeepView for AppendThreadItemsWithLeaseResponse {
    type V = AppendThreadItemsWithLeaseResponse;

    open spec fn deep_view(&self) -> AppendThreadItemsWithLeaseResponse {
        *self
    }
}

/// Asks for the items of a thread after a cursor.
#[derive(Debug, Clone, PartialEq, Eq)]
pub struct ThreadItemsListParams {
    pub thread_id: String,
    pub cursor: Option<u64>,
    pub limit: Option<u32>,
}

/// One item of a thread.
#[derive(Debug, PartialEq, Eq)]
pub struct ThreadItemRecord {
    pub thread_id: String,
    pub sequence: u64,
    pub payload_ref: String,
}

/// What a [`ThreadItemRecord`] says.
#[verifier::ext_equal]
pub struct ThreadItemView {
    pub thread_id: Seq<char>,
    pub sequence: u64,
    pub payload_ref: Seq<char>,
}

impl DeepView for ThreadItemRecord {
    type V = ThreadItemView;

    open spec fn deep_view(&self) -> ThreadItemView {
        ThreadItemView {
            thread_id: self.thread_id@,
            sequence: self.sequence,
            payload_ref: self.payload_ref@,
        }
    }
}

impl Clone for ThreadItemRecord {
    fn clone(&self) -> (r: Self)
        ensures
            r == *self,
    {
        ThreadItemRecord {
            thread_id: self.thread_id.clone(),
            sequence: self.sequence,
            payload_ref: self.payload_ref.clone(),
        }
    }
}

/// Answers [`ThreadItemsListParams`].
#[derive(Debug, Clone, PartialEq, Eq)]
pub struct ThreadItemsListResponse {
    pub data: Vec<ThreadItemRecord>,
    pub next_cursor: Option<u64>,
}

/// What a [`ThreadItemsListResponse`] says.
#[verifier::ext_equal]
pub struct ThreadItemsListResponseView {
    pub data: Seq<ThreadItemView>,
    pub next_cursor: Option<u64>,
}

impl DeepView for ThreadItemsListResponse {
    type V = ThreadItemsListResponseView;

    open spec fn deep_view(&self) -> ThreadItemsListResponseView {
        ThreadItemsListResponseView {
            data: self.data.deep_view(),
            next_cursor: self.next_cursor,
        }
    }
}

} // verus!
