//! What the statuses of requests and the signals that end them mean.
use vstd::prelude::*;

use crate::protocol::request::{RequestStatus, TerminalSignal};

verus! {

/// A request is over unless it waits, runs or is being cancelled.
pub proof fn active_statuses(status: RequestStatus)
    ensures
        status.terminal() <==> status != RequestStatus::Queued && status != RequestStatus::Running
            && status != RequestStatus::Cancelling,
{
}

/// Every signal ends a request: each at the status of that name, but for a denied write,
/// which costs the request its lease.
pub proof fn signals_end_requests(signal: TerminalSignal)
    ensures
        signal.status().terminal(),
        signal.status() == RequestStatus::Completed <==> signal == TerminalSignal::Completed,
        signal.status() == RequestStatus::Failed <==> signal == TerminalSignal::Failed,
        signal.status() == RequestStatus::Interrupted <==> signal == TerminalSignal::Interrupted,
        signal.status() == RequestStatus::Cancelled <==> signal == TerminalSignal::CancelConfirmed,
        signal.status() == RequestStatus::OwnerTimedOut <==> signal
            == TerminalSignal::OwnerLeaseTimedOut,
        signal.status() == RequestStatus::TurnTimedOut <==> signal == TerminalSignal::TurnTimedOut,
        signal.status() == RequestStatus::LeaseLost <==> signal == TerminalSignal::WriterLeaseLost
            || signal == TerminalSignal::RuntimeWriteDenied,
{
}

} // verus!
