use vstd::prelude::*;

use crate::errors::DevtoolsError;

verus! {

/// What one probe of the network interface reported: whether the SDK
/// returned an information record at all, and the record's raw
/// connected flag.
#[derive(Debug, Clone, Copy, PartialEq, Eq, Structural)]
pub struct WifiProbe {
    /// The SDK returned an information record (a null record is an error).
    pub netinfo_present: bool,
    /// The record's connected field; any non-zero value means connected.
    pub connected_flag: i32,
}

/// Read a probe: connected or not, or the distinct SDK error when the probe
/// returned no record.
pub fn wifi_check_connected(probe: WifiProbe) -> (r: Result<bool, DevtoolsError>)
    ensures
        probe.netinfo_present ==> r == Result::<bool, DevtoolsError>::Ok(
            probe.connected_flag != 0,
        ),
        !probe.netinfo_present ==> (r matches Err(e) && e matches DevtoolsError::Inkview {
            code,
            msg,
        } && code is None && msg@ == "NetInfo returned NULL"@),
{
    if probe.netinfo_present {
        Ok(probe.connected_flag != 0)
    } else {
        Err(
            DevtoolsError::Inkview {
                code: None,
                msg: String::from_str("NetInfo returned NULL"),
            },
        )
    }
}

/// The raw hourglass argument handed to the SDK's connect call: one shows
/// the hourglass while connecting, zero connects silently.
pub fn hourglass_flag(show_hourglass: bool) -> (r: i32)
    ensures
        r == (if show_hourglass {
            1i32
        } else {
            0i32
        }),
{
    if show_hourglass {
        1
    } else {
        0
    }
}

/// Interpret the SDK's connect result: zero is success — with no network
/// name, since the connect call is issued without naming one — and anything
/// else is the distinct connect failure. The hourglass choice changes what
/// the device shows, never the outcome.
pub fn try_connect(show_hourglass: bool, connect_res: i32) -> (r: Result<
    Option<String>,
    DevtoolsError,
>)
    ensures
        connect_res == 0 ==> r == Result::<Option<String>, DevtoolsError>::Ok(None),
        connect_res != 0 ==> r == Result::<Option<String>, DevtoolsError>::Err(
            DevtoolsError::WifiConnect,
        ),
{
    let _ = hourglass_flag(show_hourglass);
    if connect_res != 0 {
        return Err(DevtoolsError::WifiConnect);
    }
    Ok(None)
}

/// Bring the network up: already connected is success; otherwise connect
/// and probe again. `probe_before` and `probe_after` are the two interface
/// probes, `connect_res` the SDK's connect result; a missing probe record
/// is the distinct SDK error, a failed connect the distinct connect
/// failure.
pub fn wifi_activate(
    probe_before: WifiProbe,
    show_hourglass: bool,
    connect_res: i32,
    probe_after: WifiProbe,
) -> (r: Result<(), DevtoolsError>)
    ensures
        !probe_before.netinfo_present ==> (r matches Err(e) && e matches DevtoolsError::Inkview {
            code,
            msg,
        } && code is None && msg@ == "NetInfo returned NULL"@),
        probe_before.netinfo_present && probe_before.connected_flag != 0 ==> r is Ok,
        probe_before.netinfo_present && probe_before.connected_flag == 0 && connect_res != 0
            ==> r == Result::<(), DevtoolsError>::Err(DevtoolsError::WifiConnect),
        probe_before.netinfo_present && probe_before.connected_flag == 0 && connect_res == 0
            && !probe_after.netinfo_present ==> (r matches Err(e)
            && e matches DevtoolsError::Inkview { code, msg } && code is None && msg@
            == "NetInfo returned NULL"@),
        probe_before.netinfo_present && probe_before.connected_flag == 0 && connect_res == 0
            && probe_after.netinfo_present ==> r is Ok,
{
    let connected = match wifi_check_connected(probe_before) {
        Ok(c) => c,
        Err(e) => { return Err(e) },
    };
    if connected {
        return Ok(());
    }
    match try_connect(show_hourglass, connect_res) {
        Ok(_) => {},
        Err(e) => { return Err(e) },
    }
    let _still = match wifi_check_connected(probe_after) {
        Ok(c) => c,
        Err(e) => { return Err(e) },
    };
    Ok(())
}

/// Bring the network down: not connected is success; otherwise disconnect.
/// `disconnect_res` is the SDK's disconnect result; anything non-zero is
/// the distinct disconnect failure.
pub fn wifi_deactivate(probe: WifiProbe, disconnect_res: i32) -> (r: Result<(), DevtoolsError>)
    ensures
        !probe.netinfo_present ==> (r matches Err(e) && e matches DevtoolsError::Inkview {
            code,
            msg,
        } && code is None && msg@ == "NetInfo returned NULL"@),
        probe.netinfo_present && probe.connected_flag == 0 ==> r is Ok,
        probe.netinfo_present && probe.connected_flag != 0 && disconnect_res != 0 ==> r == Result::<
            (),
            DevtoolsError,
        >::Err(DevtoolsError::WifiDisconnect),
        probe.netinfo_present && probe.connected_flag != 0 && disconnect_res == 0 ==> r is Ok,
{
    let connected = match wifi_check_connected(probe) {
        Ok(c) => c,
        Err(e) => { return Err(e) },
    };
    if !connected {
        return Ok(());
    }
    if disconnect_res != 0 {
        return Err(DevtoolsError::WifiDisconnect);
    }
    Ok(())
}

/// The periodic keepalive: the same as bringing the network up silently
/// (no hourglass).
pub fn wifi_keepalive(probe_before: WifiProbe, connect_res: i32, probe_after: WifiProbe) -> (r:
    Result<(), DevtoolsError>)
    ensures
        !probe_before.netinfo_present ==> r is Err,
        probe_before.netinfo_present && probe_before.connected_flag != 0 ==> r is Ok,
        probe_before.netinfo_present && probe_before.connected_flag == 0 && connect_res != 0
            ==> r == Result::<(), DevtoolsError>::Err(DevtoolsError::WifiConnect),
        probe_before.netinfo_present && probe_before.connected_flag == 0 && connect_res == 0
            ==> (r is Ok <==> probe_after.netinfo_present),
{
    wifi_activate(probe_before, false, connect_res, probe_after)
}

} // verus!
