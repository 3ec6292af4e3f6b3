use vstd::prelude::*;

use crate::msg::Msg;

verus! {

/// The seconds between two keepalive ticks.
pub const WIFI_KEEPALIVE_INTERVAL_SECS: u64 = 30;

/// The port the remote-shell server binds.
pub const SSH_SERVER_PORT: u16 = 2345;

/// The port the RPC server binds.
pub const GRPC_SERVER_PORT: u16 = 50051;

/// The endpoint the RPC server binds.
pub fn grpc_server_addr() -> (r: &'static str)
    ensures
        r@ == "0.0.0.0:50051"@,
{
    "0.0.0.0:50051"
}

/// The directory the daemon keeps its side files in.
pub fn daemon_data_dir() -> (r: &'static str)
    ensures
        r@ == "./pb-devtools-daemon-data"@,
{
    "./pb-devtools-daemon-data"
}

/// The producer tasks that feed the dispatch queue.
#[derive(Debug, Clone, Copy, PartialEq, Eq, Structural)]
pub enum Producer {
    /// The SDK callback that relays every hardware event.
    HardwareRelay,
    /// The periodic network-keepalive ticker.
    KeepaliveTicker,
    /// The watcher for the two OS termination signals.
    SignalWatcher,
    /// The inbound RPC server adapter.
    RpcAdapter,
}

/// What a producer does when its enqueue fails because the loop's receiver
/// is gone.
#[derive(Debug, Clone, Copy, PartialEq, Eq, Structural)]
pub enum SendFailurePolicy {
    /// Issue the application-shutdown call directly: the relay's last
    /// resort, since it has no other way to reach the loop.
    CloseApp,
    /// Stop the task and log the failure; the loop is presumed gone.
    StopAndLog,
}

/// Each producer's reaction to a failed enqueue. Only the hardware relay
/// shuts the application down itself; every other producer stops and logs.
pub open spec fn send_failure_policy_spec(p: Producer) -> SendFailurePolicy {
    match p {
        Producer::HardwareRelay => SendFailurePolicy::CloseApp,
        _ => SendFailurePolicy::StopAndLog,
    }
}

/// Each producer's reaction to a failed enqueue.
pub fn send_failure_policy(p: Producer) -> (r: SendFailurePolicy)
    ensures
        r == send_failure_policy_spec(p),
{
    match p {
        Producer::HardwareRelay => SendFailurePolicy::CloseApp,
        Producer::KeepaliveTicker => SendFailurePolicy::StopAndLog,
        Producer::SignalWatcher => SendFailurePolicy::StopAndLog,
        Producer::RpcAdapter => SendFailurePolicy::StopAndLog,
    }
}

/// The two OS signals that terminate the daemon.
#[derive(Debug, Clone, Copy, PartialEq, Eq, Structural)]
pub enum TermSignal {
    Terminate,
    Interrupt,
}

/// The message the signal watcher enqueues on the first signal of either
/// kind: the terminal message, enqueued once.
pub fn signal_message(_s: TermSignal) -> (m: Msg)
    ensures
        m == Msg::Quit,
        m.is_terminal(),
{
    Msg::Quit
}

/// The message the RPC adapter enqueues when the transport itself fails:
/// the terminal message, so the daemon does not linger without its control
/// surface.
pub fn transport_failure_message() -> (m: Msg)
    ensures
        m == Msg::Quit,
        m.is_terminal(),
{
    Msg::Quit
}

/// The steps of the one-time daemon start sequence, in the order they run.
#[derive(Debug, Clone, Copy, PartialEq, Eq, Structural)]
pub enum StartStep {
    /// Activate the network (before anything binds to it).
    ActivateWifi,
    /// Spawn the RPC server adapter.
    SpawnGrpcServer,
    /// Spawn the keepalive ticker.
    SpawnKeepaliveTicker,
    /// Spawn the remote-shell server.
    SpawnSshServer,
    /// Spawn the signal watcher.
    SpawnSignalWatcher,
}

/// The one-time daemon start sequence: the network comes up first, so that
/// it is active before the RPC and remote-shell servers bind and before the
/// keepalive ticker's first tick; then the producers are spawned.
pub fn daemon_start_plan() -> (plan: Vec<StartStep>)
    ensures
        plan@ == seq![
            StartStep::ActivateWifi,
            StartStep::SpawnGrpcServer,
            StartStep::SpawnKeepaliveTicker,
            StartStep::SpawnSshServer,
            StartStep::SpawnSignalWatcher,
        ],
{
    let mut plan: Vec<StartStep> = Vec::new();
    plan.push(StartStep::ActivateWifi);
    plan.push(StartStep::SpawnGrpcServer);
    plan.push(StartStep::SpawnKeepaliveTicker);
    plan.push(StartStep::SpawnSshServer);
    plan.push(StartStep::SpawnSignalWatcher);
    proof {
        assert(plan@ =~= seq![
            StartStep::ActivateWifi,
            StartStep::SpawnGrpcServer,
            StartStep::SpawnKeepaliveTicker,
            StartStep::SpawnSshServer,
            StartStep::SpawnSignalWatcher,
        ]);
    }
    plan
}

} // verus!
