//! What rows of the database mean.
use vstd::prelude::*;

use crate::mysql::statements::{ReplyView, Reply, RequestRow, RequestRowView};
use crate::protocol::RequestStatus;
use crate::records::{outcome, CloudStateError, ErrorView, RequestRecord, RequestView};
use crate::text::{characters, copy_optional};

verus! {

/// The name under which a status is stored.
pub open spec fn status_name(status: RequestStatus) -> Seq<char> {
    match status {
        RequestStatus::Queued => "queued"@,
        RequestStatus::Running => "running"@,
        RequestStatus::Cancelling => "cancelling"@,
        RequestStatus::Completed => "completed"@,
        RequestStatus::Failed => "failed"@,
        RequestStatus::Cancelled => "cancelled"@,
        RequestStatus::Interrupted => "interrupted"@,
        RequestStatus::OwnerTimedOut => "owner_timed_out"@,
        RequestStatus::LeaseLost => "lease_lost"@,
        RequestStatus::TurnTimedOut => "turn_timed_out"@,
    }
}

/// The status that is stored under a name.
pub open spec fn named_status(name: Seq<char>) -> Result<RequestStatus, ErrorView> {
    if exists|status: RequestStatus| status_name(status) == name {
        Ok(choose|status: RequestStatus| status_name(status) == name)
    } else {
        Err(ErrorView::Storage("unknown request status: "@ + name))
    }
}

/// No two statuses are stored under the same name.
pub proof fn status_names_differ(a: RequestStatus, b: RequestStatus)
    requires
        status_name(a) == status_name(b),
    ensures
        a == b,
{
    reveal_strlit("queued");
    reveal_strlit("running");
    reveal_strlit("cancelling");
    reveal_strlit("completed");
    reveal_strlit("failed");
    reveal_strlit("cancelled");
    reveal_strlit("interrupted");
    reveal_strlit("owner_timed_out");
    reveal_strlit("lease_lost");
    reveal_strlit("turn_timed_out");
    assert("queued"@.len() == 6 && "failed"@.len() == 6 && "running"@.len() == 7);
    assert("completed"@.len() == 9 && "cancelled"@.len() == 9 && "cancelling"@.len() == 10);
    assert("lease_lost"@.len() == 10 && "interrupted"@.len() == 11);
    assert("turn_timed_out"@.len() == 14 && "owner_timed_out"@.len() == 15);
    assert("queued"@[0] != "failed"@[0]);
    assert("cancelling"@[0] != "lease_lost"@[0]);
    assert("completed"@[1] != "cancelled"@[1]);
}

/// A status that is stored under its name is read back.
pub proof fn status_reads_back(status: RequestStatus)
    ensures
        named_status(status_name(status)) == Ok::<RequestStatus, ErrorView>(status),
{
    let name = status_name(status);
    let chosen = choose|other: RequestStatus| status_name(other) == name;
    assert(status_name(status) == name);
    status_names_differ(chosen, status);
}

/// The name under which a status is stored.
pub fn status_to_str(status: RequestStatus) -> (r: &'static str)
    ensures
        r@ == status_name(status),
{
    match status {
        RequestStatus::Queued => "queued",
        RequestStatus::Running => "running",
        RequestStatus::Cancelling => "cancelling",
        RequestStatus::Completed => "completed",
        RequestStatus::Failed => "failed",
        RequestStatus::Cancelled => "cancelled",
        RequestStatus::Interrupted => "interrupted",
        RequestStatus::OwnerTimedOut => "owner_timed_out",
        RequestStatus::LeaseLost => "lease_lost",
        RequestStatus::TurnTimedOut => "turn_timed_out",
    }
}

fn is_stored_as(name: &String, status: RequestStatus) -> (r: bool)
    ensures
        r == (name@ == status_name(status)),
{
    *name == status_to_str(status).to_owned()
}

/// The status that is stored under a name.
pub fn status_from_str(status: &str) -> (r: Result<RequestStatus, CloudStateError>)
    ensures
        r matches Ok(status_read) ==> named_status(status@) == Ok::<RequestStatus, ErrorView>(
            status_read,
        ),
        r matches Err(error) ==> named_status(status@) == Err::<RequestStatus, ErrorView>(
            error.deep_view(),
        ),
{
    let name = status.to_owned();
    let read = if is_stored_as(&name, RequestStatus::Queued) {
        Some(RequestStatus::Queued)
    } else if is_stored_as(&name, RequestStatus::Running) {
        Some(RequestStatus::Running)
    } else if is_stored_as(&name, RequestStatus::Cancelling) {
        Some(RequestStatus::Cancelling)
    } else if is_stored_as(&name, RequestStatus::Completed) {
        Some(RequestStatus::Completed)
    } else if is_stored_as(&name, RequestStatus::Failed) {
        Some(RequestStatus::Failed)
    } else if is_stored_as(&name, RequestStatus::Cancelled) {
        Some(RequestStatus::Cancelled)
    } else if is_stored_as(&name, RequestStatus::Interrupted) {
        Some(RequestStatus::Interrupted)
    } else if is_stored_as(&name, RequestStatus::OwnerTimedOut) {
        Some(RequestStatus::OwnerTimedOut)
    } else if is_stored_as(&name, RequestStatus::LeaseLost) {
        Some(RequestStatus::LeaseLost)
    } else if is_stored_as(&name, RequestStatus::TurnTimedOut) {
        Some(RequestStatus::TurnTimedOut)
    } else {
        None
    };
    match read {
        Some(status_read) => {
            proof {
                status_reads_back(status_read);
            }
            Ok(status_read)
        },
        None => {
            let mut message = "unknown request status: ".to_owned();
            message.append(status);
            Err(CloudStateError::Storage(message))
        },
    }
}

impl RequestRowView {
    /// The request of a row.
    pub open spec fn request(self) -> Result<RequestView, ErrorView> {
        match named_status(self.status) {
            Ok(status) => Ok(
                RequestView {
                    request_id: self.request_id,
                    caller_id: self.caller_id,
                    thread_id: self.thread_id,
                    idempotency_key: self.idempotency_key,
                    input_hash: self.input_hash,
                    turn_id: self.turn_id,
                    status,
                    latest_event_cursor: self.latest_event_cursor,
                },
            ),
            Err(error) => Err(error),
        }
    }
}

impl RequestView {
    /// The row that a request is stored in.
    pub open spec fn row(self) -> RequestRowView {
        RequestRowView {
            request_id: self.request_id,
            caller_id: self.caller_id,
            thread_id: self.thread_id,
            idempotency_key: self.idempotency_key,
            input_hash: self.input_hash,
            turn_id: self.turn_id,
            status: status_name(self.status),
            latest_event_cursor: self.latest_event_cursor,
        }
    }

    /// A request that is stored in its row is read back.
    pub proof fn row_reads_back(self)
        ensures
            self.row().request() == Ok::<RequestView, ErrorView>(self),
    {
        status_reads_back(self.status);
    }
}

/// The request of a row.
pub fn request_from_row(row: &RequestRow) -> (r: Result<RequestRecord, CloudStateError>)
    ensures
        outcome(r) == row.deep_view().request(),
{
    match status_from_str(row.status.as_str()) {
        Ok(status) => Ok(
            RequestRecord {
                request_id: row.request_id.clone(),
                caller_id: row.caller_id.clone(),
                thread_id: row.thread_id.clone(),
                idempotency_key: row.idempotency_key.clone(),
                input_hash: row.input_hash.clone(),
                turn_id: copy_optional(&row.turn_id),
                status,
                latest_event_cursor: row.latest_event_cursor,
            },
        ),
        Err(error) => Err(error),
    }
}

impl ReplyView {
    /// The request that was read.
    pub open spec fn request(self) -> Result<Option<RequestView>, ErrorView> {
        match self {
            ReplyView::Request(None) => Ok(None),
            ReplyView::Request(Some(row)) => match row.request() {
                Ok(request) => Ok(Some(request)),
                Err(error) => Err(error),
            },
            ReplyView::Failed(text) => Err(ErrorView::Storage(text)),
            _ => Err(crate::mysql::statements::unexpected()),
        }
    }
}

impl Reply {
    /// The request that was read.
    pub fn request(&self) -> (r: Result<Option<RequestRecord>, CloudStateError>)
        ensures
            outcome(r) == self.deep_view().request(),
    {
        match self {
            Reply::Request(None) => Ok(None),
            Reply::Request(Some(row)) => match request_from_row(row) {
                Ok(request) => Ok(Some(request)),
                Err(error) => Err(error),
            },
            Reply::Failed(text) => Err(CloudStateError::Storage(text.clone())),
            _ => Err(
                CloudStateError::Storage("statement got an answer of another kind".to_owned()),
            ),
        }
    }
}

/// Whether a text occurs in another one.
pub open spec fn occurs_at(text: Seq<char>, part: Seq<char>, at: int) -> bool {
    0 <= at && at + part.len() <= text.len() && text.subrange(at, at + part.len()) == part
}

/// Whether a database error says that a key is there already: by its code, or in words.
pub open spec fn duplicate_entry(code: Option<Seq<char>>, message: Seq<char>) -> bool {
    ||| code == Some("1062"@)
    ||| code == Some("23000"@)
    ||| exists|at: int| occurs_at(message, "Duplicate entry"@, at)
}

/// Whether a text occurs in another one.
fn contains_text(text: &str, part: &str) -> (r: bool)
    ensures
        r == exists|at: int| occurs_at(text@, part@, at),
{
    let whole = characters(text);
    let wanted = characters(part);
    if wanted.len() > whole.len() {
        return false;
    }
    let mut at: usize = 0;
    while whole.len() - at >= wanted.len()
        invariant
            whole@ == text@,
            wanted@ == part@,
            at <= whole@.len(),
            forall|earlier: int| 0 <= earlier < at ==> !occurs_at(text@, part@, earlier),
        decreases whole@.len() - at,
    {
        let mut same: usize = 0;
        while same < wanted.len() && whole[at + same] == wanted[same]
            invariant
                at + wanted@.len() <= whole@.len(),
                whole@.len() <= usize::MAX,
                same <= wanted@.len(),
                whole@.subrange(at as int, at + same) == wanted@.take(same as int),
            decreases wanted@.len() - same,
        {
            same = same + 1;
            assert(whole@.subrange(at as int, at + same) =~= whole@.subrange(
                at as int,
                at + same - 1,
            ).push(whole@[at + same - 1]));
            assert(wanted@.take(same as int) =~= wanted@.take(same - 1).push(wanted@[same - 1]));
        }
        if same == wanted.len() {
            assert(wanted@.take(same as int) =~= wanted@);
            assert(occurs_at(text@, part@, at as int));
            return true;
        }
        assert(!occurs_at(text@, part@, at as int)) by {
            assert(
                whole@.subrange(at as int, at + wanted@.len())[same as int] == whole@[at + same]
            );
        }
        at = at + 1;
    }
    false
}

/// Whether a database error says that a key is there already: by its code, or in words.
pub fn is_duplicate_entry(code: Option<String>, message: &str) -> (r: bool)
    ensures
        r == duplicate_entry(code.deep_view(), message@),
{
    let by_code = match code {
        Some(code) => code == "1062".to_owned() || code == "23000".to_owned(),
        None => false,
    };
    by_code || contains_text(message, "Duplicate entry")
}

} // verus!
