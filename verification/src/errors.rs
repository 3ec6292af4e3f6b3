use vstd::prelude::*;

verus! {

#[verifier::external_type_specification]
#[verifier::external_body]
pub struct ExIoError(std::io::Error);

/// Errors of the devtools actions (network, remote shell, debug sessions,
/// byte receiver, SDK calls).
#[derive(Debug)]
pub enum DevtoolsError {
    /// Setting up the logging sink failed.
    Logging,
    /// An unrecognized command was received.
    InvalidCommand,
    /// Connecting to the wireless network failed.
    WifiConnect,
    /// Disconnecting from the wireless network failed.
    WifiDisconnect,
    /// The remote-shell server failed.
    Ssh,
    /// The byte-receiver utility hit an I/O error.
    AppReceiveIo { source: std::io::Error },
    /// A debug-session operation hit an I/O error.
    DebugSessionIo { msg: String, source: std::io::Error },
    /// The device SDK reported an error.
    Inkview { code: Option<i32>, msg: String },
    /// Anything else.
    Other(String),
}

impl DevtoolsError {
    /// The fixed description of each error kind, as logged and shown to the
    /// operator.
    pub open spec fn message_spec(self) -> Seq<char> {
        match self {
            DevtoolsError::Logging => "Setup logging failed"@,
            DevtoolsError::InvalidCommand => "Received invalid command"@,
            DevtoolsError::WifiConnect => "Connecting to Wifi failed"@,
            DevtoolsError::WifiDisconnect => "Disconnecting to Wifi failed"@,
            DevtoolsError::Ssh => "Ssh Server failed"@,
            DevtoolsError::AppReceiveIo { .. } => "App receiver failed."@,
            DevtoolsError::DebugSessionIo { .. } => "Debug-Session Io failed."@,
            DevtoolsError::Inkview { .. } => "Inkview error occurred."@,
            DevtoolsError::Other(_) => "Other error occurred"@,
        }
    }

    /// The fixed description of each error kind, as logged and shown to the
    /// operator.
    pub fn message(&self) -> (r: &'static str)
        ensures
            r@ == self.message_spec(),
    {
        match self {
            DevtoolsError::Logging => "Setup logging failed",
            DevtoolsError::InvalidCommand => "Received invalid command",
            DevtoolsError::WifiConnect => "Connecting to Wifi failed",
            DevtoolsError::WifiDisconnect => "Disconnecting to Wifi failed",
            DevtoolsError::Ssh => "Ssh Server failed",
            DevtoolsError::AppReceiveIo { .. } => "App receiver failed.",
            DevtoolsError::DebugSessionIo { .. } => "Debug-Session Io failed.",
            DevtoolsError::Inkview { .. } => "Inkview error occurred.",
            DevtoolsError::Other(_) => "Other error occurred",
        }
    }
}

/// Errors of the daemon process itself: startup, producers, and the loop.
#[derive(Debug)]
pub enum DaemonError {
    /// Another daemon instance already holds the process lock.
    DaemonAlreadyRunning,
    /// Installing a handler for the given OS signal number failed.
    UnixSignalHandler { sig: i32, source: std::io::Error },
    /// Setting up the logging sink failed.
    Logging,
    /// Enqueueing a message failed: the loop's receiver is gone.
    MessageSend,
    /// The RPC server failed.
    GrpcServer,
    /// A devtools action failed.
    Devtools(DevtoolsError),
    /// The device SDK reported an error.
    Inkview { code: Option<i32>, msg: String },
    /// A generic I/O error.
    Io { source: std::io::Error },
    /// Anything else.
    Other(String),
}

impl DaemonError {
    /// The fixed description of each error kind, as logged.
    pub open spec fn message_spec(self) -> Seq<char> {
        match self {
            DaemonError::DaemonAlreadyRunning => "Daemon is already running"@,
            DaemonError::UnixSignalHandler { .. } => "UNIX Signal handler setup failed"@,
            DaemonError::Logging => "Setup logging failed"@,
            DaemonError::MessageSend => "Sending message failed"@,
            DaemonError::GrpcServer => "Error with Grpc server"@,
            DaemonError::Devtools(_) => "Devtools error occurred"@,
            DaemonError::Inkview { .. } => "Inkview error occurred"@,
            DaemonError::Io { .. } => "Generic Io Error"@,
            DaemonError::Other(_) => "Other error occurred"@,
        }
    }

    /// The fixed description of each error kind, as logged.
    pub fn message(&self) -> (r: &'static str)
        ensures
            r@ == self.message_spec(),
    {
        match self {
            DaemonError::DaemonAlreadyRunning => "Daemon is already running",
            DaemonError::UnixSignalHandler { .. } => "UNIX Signal handler setup failed",
            DaemonError::Logging => "Setup logging failed",
            DaemonError::MessageSend => "Sending message failed",
            DaemonError::GrpcServer => "Error with Grpc server",
            DaemonError::Devtools(_) => "Devtools error occurred",
            DaemonError::Inkview { .. } => "Inkview error occurred",
            DaemonError::Io { .. } => "Generic Io Error",
            DaemonError::Other(_) => "Other error occurred",
        }
    }
}

} // verus!
