//! Rockchip USB presence: which devices count, and what a change between
//! two scans reports.
use vstd::prelude::*;

verus! {

/// The USB vendor ID of Rockchip.
pub const ROCKCHIP_VID: u16 = 0x2207;

/// Whether a device with vendor `vid` is a Rockchip device.
pub fn is_rockchip(vid: u16) -> (res: bool)
    ensures
        res == (vid == ROCKCHIP_VID),
{
    vid == ROCKCHIP_VID
}

/// The first Rockchip device among `(vid, pid)` pairs, as a scan finds it.
pub fn first_rockchip(devices: &[(u16, u16)]) -> (res: Option<(u16, u16)>)
    ensures
        match res {
            Some(d) => exists|i: int|
                0 <= i < devices@.len() && devices@[i] == d && d.0 == ROCKCHIP_VID && forall|j: int|
                    0 <= j < i ==> devices@[j].0 != ROCKCHIP_VID,
            None => forall|j: int| 0 <= j < devices@.len() ==> devices@[j].0 != ROCKCHIP_VID,
        },
{
    let mut i: usize = 0;
    while i < devices.len()
        invariant
            i <= devices@.len(),
            forall|j: int| 0 <= j < i ==> devices@[j].0 != ROCKCHIP_VID,
        decreases devices@.len() - i,
    {
        if devices[i].0 == ROCKCHIP_VID {
            return Some(devices[i]);
        }
        i = i + 1;
    }
    None
}

/// A presence change: whether the device is present, and its IDs.
pub struct UsbEvent {
    pub present: bool,
    pub vid: u16,
    pub pid: u16,
}

/// What a scan reports, given the device seen by the previous scan and the
/// one seen now: nothing when they are the same; arrival of the new one
/// when there is one; departure of the old one otherwise.
pub fn scan_change(last: Option<(u16, u16)>, found: Option<(u16, u16)>) -> (res: Option<UsbEvent>)
    ensures
        last == found ==> res is None,
        last != found ==> match found {
            Some((v, p)) => res matches Some(e) && e.present && e.vid == v && e.pid == p,
            None => match last {
                Some((v, p)) => res matches Some(e) && !e.present && e.vid == v && e.pid == p,
                None => res is None,
            },
        },
{
    let same = match (last, found) {
        (Some((a, b)), Some((c, d))) => a == c && b == d,
        (None, None) => true,
        _ => false,
    };
    if same {
        return None;
    }
    match (last, found) {
        (_, Some((v, p))) => Some(UsbEvent { present: true, vid: v, pid: p }),
        (Some((v, p)), None) => Some(UsbEvent { present: false, vid: v, pid: p }),
        _ => None,
    }
}

} // verus!
