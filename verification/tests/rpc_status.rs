use pb_devtools::client::{parse_command, print_status_ack_line};
use pb_devtools::errors::DevtoolsError;
use pb_devtools::msg::Msg;
use pb_devtools::queue::MsgQueue;
use pb_devtools::rpc::{
    handle_print_status, handle_report_status, report_status_reply, request_message, RpcFailure,
    RpcRequest,
};
use pb_devtools::status::report_status;

#[test]
fn status_report_text() {
    assert_eq!(report_status().unwrap(), "status!");
}

#[test]
fn report_status_query_works_before_any_initialization() {
    // the query path touches neither the queue nor the presentation state
    let reply = handle_report_status();
    assert_eq!(reply.unwrap(), "status!");
}

#[test]
fn print_status_request_enqueues_and_does_not_wait() {
    let mut q = MsgQueue::new();
    handle_print_status(&mut q);
    assert_eq!(q.recv(), Some(Msg::PrintStatus));
    assert_eq!(q.recv(), None);
}

#[test]
fn report_status_reply_passes_success_through() {
    let r = report_status_reply(Ok(String::from("status!")));
    assert_eq!(r.unwrap(), "status!");
}

#[test]
fn report_status_reply_maps_failure_to_internal() {
    let r = report_status_reply(Err(DevtoolsError::Logging));
    assert_eq!(r, Err(RpcFailure::Internal));
    assert_eq!(RpcFailure::Internal.message(), "Getting status for report failed");
}

#[test]
fn request_message_mapping() {
    assert_eq!(request_message(RpcRequest::PrintStatus), Some(Msg::PrintStatus));
    assert_eq!(request_message(RpcRequest::ReportStatus), None);
}

#[test]
fn parse_client_commands() {
    assert_eq!(parse_command("report-status"), Some(RpcRequest::ReportStatus));
    assert_eq!(parse_command("print-status"), Some(RpcRequest::PrintStatus));
    assert_eq!(parse_command("status"), None);
    assert_eq!(parse_command(""), None);
    assert_eq!(parse_command("Report-Status"), None);
}

#[test]
fn print_status_ack_text() {
    assert_eq!(print_status_ack_line(), "Status printed!");
}
