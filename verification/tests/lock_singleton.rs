use pb_devtools::errors::DaemonError;
use pb_devtools::lock::{acquire_process_lock, running_lockfile_path};

#[test]
fn lockfile_path_is_well_known() {
    assert_eq!(running_lockfile_path(), "/tmp/pb-devtools-daemon.lock");
}

#[test]
fn second_acquisition_reports_already_running() {
    let path = "/tmp/pb-devtools-singleton-test.lock";
    let first = acquire_process_lock(path);
    assert!(first.is_ok());
    // while the first guard lives, a second acquisition must fail with the
    // distinct "already running" condition, not a generic I/O error
    let second = acquire_process_lock(path);
    assert!(matches!(second, Err(DaemonError::DaemonAlreadyRunning)));
    // releasing the first guard releases the lock
    drop(first);
    let third = acquire_process_lock(path);
    assert!(third.is_ok());
}
