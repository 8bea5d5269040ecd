//! macOS: libusb detects the device; flashing needs no setup.
use vstd::prelude::*;
use crate::platform::flashing::{Kind, Status};

verus! {

/// The device-access status on macOS: nothing to set up.
pub fn query() -> (res: Status)
    ensures
        res.kind == Kind::NoneRequired,
        res.device_relevant,
        res.ready,
        res.detail@.len() == 0,
        res.error@.len() == 0,
{
    Status { kind: Kind::NoneRequired, device_relevant: true, ready: true, detail: String::new(), error: String::new() }
}

} // verus!
