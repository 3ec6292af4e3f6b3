use vstd::prelude::*;

use crate::errors::DaemonError;

verus! {

#[verifier::external_type_specification]
#[verifier::external_body]
pub struct ExLockfile(lockfile::Lockfile);

/// Why the lock collaborator could not create the lock file.
#[derive(Debug)]
pub enum LockFailure {
    /// The lock file already exists: another holder is alive.
    Taken,
    /// Any other I/O failure while creating the file.
    Io(std::io::Error),
    /// An error kind the lock collaborator reserves for the future.
    Other,
}

/// Relies on lockfile::Lockfile::create: creates the lock file exclusively
/// (failing with Error::LockTaken when the file already exists, and with
/// Error::Io on any other I/O failure — its error enum is non-exhaustive,
/// so a reserved arm remains), and removes the file again when the returned
/// guard is dropped. Whether it succeeds depends on the filesystem, so
/// nothing more is promised of the outcome.
#[verifier::external_body]
fn create_lockfile(path: &str) -> (r: Result<lockfile::Lockfile, LockFailure>) {
    match lockfile::Lockfile::create(path) {
        Ok(l) => Ok(l),
        Err(lockfile::Error::LockTaken) => Err(LockFailure::Taken),
        Err(lockfile::Error::Io(source)) => Err(LockFailure::Io(source)),
        Err(_) => Err(LockFailure::Other),
    }
}

/// The exclusive, filesystem-visible process singleton guard. It holds the
/// lock for its own lifetime; dropping it (on any process exit path)
/// releases the lock.
#[derive(Debug)]
pub struct ProcessLock {
    /// Held, not read: dropping it releases the lock.
    #[allow(dead_code)]
    lock: lockfile::Lockfile,
}

/// Classify a lock failure the way the daemon reports it: a taken lock is
/// the distinguishable "already running" condition, never a generic I/O
/// error; everything else is the generic I/O condition.
pub fn classify_lock_failure(f: LockFailure) -> (e: DaemonError)
    ensures
        f is Taken <==> e is DaemonAlreadyRunning,
        f matches LockFailure::Io(s) ==> e matches DaemonError::Io { source } && source == s,
        f is Other ==> (e matches DaemonError::Other(m) && m@ == "Other Lockfile Error happened"@),
{
    match f {
        LockFailure::Taken => DaemonError::DaemonAlreadyRunning,
        LockFailure::Io(source) => DaemonError::Io { source },
        LockFailure::Other => DaemonError::Other(
            String::from_str("Other Lockfile Error happened"),
        ),
    }
}

/// Acquire the process singleton lock at `path`. Success hands back the
/// guard; failure is fail-fast, with the "already running" condition kept
/// distinct from generic I/O trouble. There is no retry and no queueing.
pub fn acquire_process_lock(path: &str) -> (r: Result<ProcessLock, DaemonError>)
    ensures
        r matches Err(e) ==> e is DaemonAlreadyRunning || e is Io || e is Other,
{
    match create_lockfile(path) {
        Ok(l) => Ok(ProcessLock { lock: l }),
        Err(f) => Err(classify_lock_failure(f)),
    }
}

/// The well-known path of the daemon's lock file.
pub fn running_lockfile_path() -> (r: &'static str)
    ensures
        r@ == "/tmp/pb-devtools-daemon.lock"@,
{
    "/tmp/pb-devtools-daemon.lock"
}

} // verus!
