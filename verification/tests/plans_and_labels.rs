use pb_devtools::debug::{gdbserver_bind_addr, port_decimal, DEBUG_SERVER_PORT};
use pb_devtools::errors::{DaemonError, DevtoolsError};
use pb_devtools::event::Event;
use pb_devtools::msg::Msg;
use pb_devtools::page::Page;
use pb_devtools::producers::{
    daemon_data_dir, daemon_start_plan, grpc_server_addr, send_failure_policy, signal_message,
    transport_failure_message, Producer, SendFailurePolicy, StartStep, TermSignal,
    GRPC_SERVER_PORT, SSH_SERVER_PORT, WIFI_KEEPALIVE_INTERVAL_SECS,
};
use pb_devtools::render::{daemon_name, paint_plan, TextAlign, TextContent};

#[test]
fn greet_page_plan() {
    let plan = paint_plan(Page::Greet, 600, 800);
    assert_eq!(plan.clear_shade, 0xff);
    assert_eq!(plan.items.len(), 2);
    assert_eq!(plan.items[0].content, TextContent::PageIndicator(Page::Greet));
    assert_eq!((plan.items[0].x, plan.items[0].y), (0, 20));
    assert_eq!(plan.items[0].align, TextAlign::Left);
    assert_eq!(plan.items[0].shade, 0);
    assert_eq!(plan.items[1].content, TextContent::GreetBanner);
    assert_eq!((plan.items[1].x, plan.items[1].y), (299, 399));
    assert_eq!(plan.items[1].align, TextAlign::Center);
}

#[test]
fn status_page_plan_reports_dimensions() {
    let plan = paint_plan(Page::Status, 1024, 758);
    assert_eq!(plan.items[1].content, TextContent::DimensionReport { width: 1024, height: 758 });
    assert_eq!((plan.items[1].x, plan.items[1].y), (511, 378));
    assert_eq!(plan.items[0].content, TextContent::PageIndicator(Page::Status));
}

#[test]
fn daemon_name_text() {
    assert_eq!(daemon_name(), "pb-devtools-daemon");
}

#[test]
fn message_labels() {
    assert_eq!(Msg::InkviewEvent(Event::Init).label(), "InkviewEvent");
    assert_eq!(Msg::WifiKeepAlive.label(), "WifiKeepAlive");
    assert_eq!(Msg::PrintStatus.label(), "PrintStatus");
    assert_eq!(Msg::Quit.label(), "Quit");
}

#[test]
fn error_messages() {
    assert_eq!(DaemonError::DaemonAlreadyRunning.message(), "Daemon is already running");
    assert_eq!(DaemonError::MessageSend.message(), "Sending message failed");
    assert_eq!(DevtoolsError::WifiConnect.message(), "Connecting to Wifi failed");
    assert_eq!(DevtoolsError::InvalidCommand.message(), "Received invalid command");
}

#[test]
fn producer_send_failure_policies() {
    assert_eq!(send_failure_policy(Producer::HardwareRelay), SendFailurePolicy::CloseApp);
    assert_eq!(send_failure_policy(Producer::KeepaliveTicker), SendFailurePolicy::StopAndLog);
    assert_eq!(send_failure_policy(Producer::SignalWatcher), SendFailurePolicy::StopAndLog);
    assert_eq!(send_failure_policy(Producer::RpcAdapter), SendFailurePolicy::StopAndLog);
}

#[test]
fn terminal_messages_of_producers() {
    assert_eq!(signal_message(TermSignal::Terminate), Msg::Quit);
    assert_eq!(signal_message(TermSignal::Interrupt), Msg::Quit);
    assert_eq!(transport_failure_message(), Msg::Quit);
}

#[test]
fn daemon_start_sequence_activates_network_first() {
    let plan = daemon_start_plan();
    assert_eq!(
        plan,
        vec![
            StartStep::ActivateWifi,
            StartStep::SpawnGrpcServer,
            StartStep::SpawnKeepaliveTicker,
            StartStep::SpawnSshServer,
            StartStep::SpawnSignalWatcher,
        ]
    );
    assert_eq!(plan[0], StartStep::ActivateWifi);
}

#[test]
fn fixed_endpoints_and_intervals() {
    assert_eq!(WIFI_KEEPALIVE_INTERVAL_SECS, 30);
    assert_eq!(SSH_SERVER_PORT, 2345);
    assert_eq!(GRPC_SERVER_PORT, 50051);
    assert_eq!(DEBUG_SERVER_PORT, 10003);
    assert_eq!(grpc_server_addr(), "0.0.0.0:50051");
    assert_eq!(daemon_data_dir(), "./pb-devtools-daemon-data");
}

#[test]
fn port_decimal_digits() {
    assert_eq!(port_decimal(0), b"0".to_vec());
    assert_eq!(port_decimal(7), b"7".to_vec());
    assert_eq!(port_decimal(10), b"10".to_vec());
    assert_eq!(port_decimal(65535), b"65535".to_vec());
}

#[test]
fn gdbserver_bind_address() {
    assert_eq!(gdbserver_bind_addr(10003), b"0.0.0.0:10003".to_vec());
    assert_eq!(gdbserver_bind_addr(80), b"0.0.0.0:80".to_vec());
}
