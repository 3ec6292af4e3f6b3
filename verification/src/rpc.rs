use vstd::prelude::*;

use crate::errors::DevtoolsError;
use crate::msg::Msg;
use crate::queue::MsgQueue;
use crate::status::{report_status, status_report_spec};

verus! {

/// The two request kinds of the daemon's control surface.
#[derive(Debug, Clone, Copy, PartialEq, Eq, Structural)]
pub enum RpcRequest {
    /// "Print the status on the device": a trigger, acknowledged at once.
    PrintStatus,
    /// "Report the device status to the caller": a query, answered in place.
    ReportStatus,
}

/// How a query failure surfaces to the caller.
#[derive(Debug, Clone, Copy, PartialEq, Eq, Structural)]
pub enum RpcFailure {
    /// The status collaborator failed; the caller sees an internal error.
    Internal,
}

impl RpcFailure {
    /// The description sent with the internal-error reply.
    pub open spec fn message_spec(self) -> Seq<char> {
        "Getting status for report failed"@
    }

    /// The description sent with the internal-error reply.
    pub fn message(&self) -> (r: &'static str)
        ensures
            r@ == self.message_spec(),
    {
        "Getting status for report failed"
    }
}

/// Which application message an inbound request enqueues for the loop:
/// "print status" is fired into the queue and acknowledged without waiting;
/// a "report status" query never goes through the queue at all.
pub open spec fn request_message_spec(req: RpcRequest) -> Option<Msg> {
    match req {
        RpcRequest::PrintStatus => Some(Msg::PrintStatus),
        RpcRequest::ReportStatus => None,
    }
}

/// Which application message an inbound request enqueues for the loop.
pub fn request_message(req: RpcRequest) -> (r: Option<Msg>)
    ensures
        r == request_message_spec(req),
{
    match req {
        RpcRequest::PrintStatus => Some(Msg::PrintStatus),
        RpcRequest::ReportStatus => None,
    }
}

/// Handle the "print status" trigger: enqueue the application message and
/// acknowledge. The reply does not wait for the print to happen.
pub fn handle_print_status(q: &mut MsgQueue)
    ensures
        final(q)@ == old(q)@.push(Msg::PrintStatus),
{
    q.send(Msg::PrintStatus);
}

/// Turn the status collaborator's outcome into the query reply: a
/// successful report is returned word for word; a failure surfaces as the
/// distinct internal-error reply, never as a crash.
pub fn report_status_reply(res: Result<String, DevtoolsError>) -> (r: Result<String, RpcFailure>)
    ensures
        res matches Ok(s) ==> r matches Ok(t) && t == s,
        res is Err ==> r == Result::<String, RpcFailure>::Err(RpcFailure::Internal),
{
    match res {
        Ok(s) => Ok(s),
        Err(_) => Err(RpcFailure::Internal),
    }
}

/// Handle the "report status" query. The query path bypasses the queue and
/// the presentation state entirely, so it answers the same whether or not
/// any initialization has happened yet.
pub fn handle_report_status() -> (r: Result<String, RpcFailure>)
    ensures
        r matches Ok(s) && s@ == status_report_spec(),
{
    report_status_reply(report_status())
}

} // verus!
