//! What the conversations with the database have in common.
use vstd::prelude::*;

use crate::model::StoreModel;
use crate::mysql::statements::ReplyView;
use crate::records::ErrorView;

verus! {

/// Whether the numbers that were read leave room for `more` numbers after them.
pub open spec fn replies_fit(h: Seq<ReplyView>, more: nat) -> bool {
    forall|i: int|
        0 <= i < h.len() ==> match #[trigger] h[i] {
            ReplyView::Number(n) => n + more <= u64::MAX,
            ReplyView::Request(Some(row)) => row.latest_event_cursor < u64::MAX,
            _ => true,
        }
}

/// Where reading starts: after the cursor, or at the beginning.
pub(crate) fn start_of(cursor: Option<u64>) -> (r: u64)
    ensures
        r == StoreModel::start(cursor),
{
    match cursor {
        Some(after) => after,
        None => 0,
    }
}

/// Whether a payload is accepted: it has to be JSON.
pub open spec fn valid_payload(payload_inline: Seq<char>) -> Result<(), ErrorView> {
    if crate::json::json_valid(payload_inline) {
        Ok(())
    } else {
        Err(ErrorView::InvalidEventPayload)
    }
}

} // verus!
