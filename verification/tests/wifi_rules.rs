use pb_devtools::errors::DevtoolsError;
use pb_devtools::wifi::{
    hourglass_flag, try_connect, wifi_activate, wifi_check_connected, wifi_deactivate,
    wifi_keepalive, WifiProbe,
};

fn probe(present: bool, flag: i32) -> WifiProbe {
    WifiProbe { netinfo_present: present, connected_flag: flag }
}

#[test]
fn check_connected_reads_the_flag() {
    assert_eq!(wifi_check_connected(probe(true, 1)).unwrap(), true);
    assert_eq!(wifi_check_connected(probe(true, 0)).unwrap(), false);
}

#[test]
fn check_connected_rejects_missing_record() {
    match wifi_check_connected(probe(false, 0)) {
        Err(DevtoolsError::Inkview { code, msg }) => {
            assert_eq!(code, None);
            assert_eq!(msg, "NetInfo returned NULL");
        },
        other => panic!("unexpected outcome: {other:?}"),
    }
}

#[test]
fn hourglass_flag_shapes() {
    assert_eq!(hourglass_flag(true), 1);
    assert_eq!(hourglass_flag(false), 0);
}

#[test]
fn try_connect_outcomes() {
    assert!(matches!(try_connect(false, 0), Ok(None)));
    assert!(matches!(try_connect(true, 0), Ok(None)));
    assert!(matches!(try_connect(false, -1), Err(DevtoolsError::WifiConnect)));
}

#[test]
fn activate_is_noop_when_connected() {
    assert!(wifi_activate(probe(true, 1), false, 7, probe(false, 0)).is_ok());
}

#[test]
fn activate_connects_when_disconnected() {
    assert!(wifi_activate(probe(true, 0), false, 0, probe(true, 1)).is_ok());
    // the second probe's connected flag does not matter, only its presence
    assert!(wifi_activate(probe(true, 0), false, 0, probe(true, 0)).is_ok());
}

#[test]
fn activate_reports_connect_failure() {
    assert!(matches!(
        wifi_activate(probe(true, 0), true, 3, probe(true, 1)),
        Err(DevtoolsError::WifiConnect)
    ));
}

#[test]
fn deactivate_rules() {
    assert!(wifi_deactivate(probe(true, 0), 0).is_ok());
    assert!(wifi_deactivate(probe(true, 1), 0).is_ok());
    assert!(matches!(
        wifi_deactivate(probe(true, 1), 2),
        Err(DevtoolsError::WifiDisconnect)
    ));
    assert!(wifi_deactivate(probe(false, 0), 0).is_err());
}

#[test]
fn keepalive_is_silent_activation() {
    assert!(wifi_keepalive(probe(true, 1), 9, probe(false, 0)).is_ok());
    assert!(matches!(
        wifi_keepalive(probe(true, 0), 5, probe(true, 1)),
        Err(DevtoolsError::WifiConnect)
    ));
}
