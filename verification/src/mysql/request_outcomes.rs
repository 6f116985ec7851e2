//! What recording a request comes to on the tables of the database.
use vstd::prelude::*;

use crate::mysql::statements::ReplyView;
use crate::mysql::tables::{Database, Tables};
use crate::records::{CreateRequestView, ErrorView, RequestView};

verus! {

impl Tables {
    /// Recording a request under a new identifier.
    pub open spec fn create_request(self, params: CreateRequestView, id: Seq<char>) -> (
        Tables,
        Result<RequestView, ErrorView>,
    ) {
        if exists|x: Seq<char>|
            self.keyed(x, params.caller_id, params.thread_id, params.idempotency_key) {
            let x = choose|x: Seq<char>|
                self.keyed(x, params.caller_id, params.thread_id, params.idempotency_key);
            if self.requests[x].input_hash == params.input_hash {
                (self, Ok(self.requests[x]))
            } else {
                (self, Err(ErrorView::IdempotencyConflict))
            }
        } else {
            let request = crate::mysql::requests::new_request(params, id);
            (self.with_request(id, request), Ok(request))
        }
    }

    /// Recording a request comes to what it should on the tables.
    pub proof fn create_request_carried_out(
        self,
        params: CreateRequestView,
        id: Seq<char>,
        now_ms: i64,
    )
        requires
            !self.requests.dom().contains(id),
        ensures
            self.carry_out(
                |h: Seq<ReplyView>|
                    crate::mysql::requests::create_request_steps(params, id, now_ms, h),
                4,
            ) == Some(self.create_request(params, id)),
    {
        let script = |h: Seq<ReplyView>|
            crate::mysql::requests::create_request_steps(params, id, now_ms, h);
        reveal_with_fuel(Database::run, 6);
        if exists|x: Seq<char>|
            self.keyed(x, params.caller_id, params.thread_id, params.idempotency_key) {
            let x = choose|x: Seq<char>|
                self.keyed(x, params.caller_id, params.thread_id, params.idempotency_key);
            self.requests[x].row_reads_back();
        }
    }

    /// Every request stands under its own identifier.
    pub open spec fn requests_named(self) -> bool {
        forall|id: Seq<char>| #[trigger]
            self.requests.dom().contains(id) ==> self.requests[id].request_id == id
    }
}

} // verus!
