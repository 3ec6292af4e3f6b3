use vstd::prelude::*;

use crate::rpc::RpcRequest;

verus! {

/// Parse the command word of the command-line client. Exactly two commands
/// exist; anything else is rejected.
pub fn parse_command(s: &str) -> (r: Option<RpcRequest>)
    ensures
        s@ == "report-status"@ ==> r == Some(RpcRequest::ReportStatus),
        s@ == "print-status"@ ==> r == Some(RpcRequest::PrintStatus),
        s@ != "report-status"@ && s@ != "print-status"@ ==> r is None,
{
    proof {
        reveal_strlit("report-status");
        reveal_strlit("print-status");
        assert("report-status"@.len() == 13);
        assert("print-status"@.len() == 12);
    }
    let word = s.to_owned();
    if word == String::from_str("report-status") {
        Some(RpcRequest::ReportStatus)
    } else if word == String::from_str("print-status") {
        Some(RpcRequest::PrintStatus)
    } else {
        None
    }
}

/// The line the client prints when the "print status" trigger was
/// acknowledged.
pub fn print_status_ack_line() -> (r: &'static str)
    ensures
        r@ == "Status printed!"@,
{
    "Status printed!"
}

} // verus!
