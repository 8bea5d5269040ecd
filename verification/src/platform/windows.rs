//! Windows: the libwdi driver setup is not available; its status and its
//! setup say so.
use vstd::prelude::*;
use crate::platform::flashing::{InstallOptions, InstallResult, Kind, Status};
use crate::text::owned;

verus! {

/// What the Windows status and setup report: the driver setup is not
/// available.
pub const WINDOWS_SETUP_MESSAGE: &'static str = "Windows libwdi driver install not yet ported";

/// The device-access status on Windows.
pub fn query() -> (res: Status)
    ensures
        res.kind == Kind::WindowsDriver,
        !res.device_relevant,
        !res.ready,
        res.detail@.len() == 0,
        res.error@ == WINDOWS_SETUP_MESSAGE@,
{
    Status {
        kind: Kind::WindowsDriver,
        device_relevant: false,
        ready: false,
        detail: String::new(),
        error: owned(WINDOWS_SETUP_MESSAGE),
    }
}

/// The driver setup on Windows: not available yet.
pub fn install(options: &InstallOptions) -> (res: InstallResult)
    ensures
        !res.success,
        res.error_message@ == WINDOWS_SETUP_MESSAGE@,
{
    InstallResult { success: false, error_message: owned(WINDOWS_SETUP_MESSAGE) }
}

} // verus!
