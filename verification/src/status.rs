use vstd::prelude::*;

use crate::errors::DevtoolsError;

verus! {

/// The device status report, as a sequence of characters.
pub open spec fn status_report_spec() -> Seq<char> {
    "status!"@
}

/// Build the device status report. The report never fails and does not read
/// the presentation state.
pub fn report_status() -> (r: Result<String, DevtoolsError>)
    ensures
        r matches Ok(s) && s@ == status_report_spec(),
{
    Ok(String::from_str("status!"))
}

} // verus!
