//! The device-access status shared by every operating system.
use vstd::prelude::*;
use crate::paths::HostOs;
use crate::text::owned;

verus! {

/// The kind of setup that device access needs.
#[derive(Clone, Copy, PartialEq, Eq, Structural, Debug)]
pub enum Kind {
    /// macOS: no install step required.
    NoneRequired,
    /// Windows: libusb-win32 via libwdi.
    WindowsDriver,
    /// Linux: udev rules for non-root access to Rockchip USB devices.
    LinuxUdev,
}

impl Kind {
    /// The name of the kind, as the interface knows it.
    pub fn as_str(self) -> (res: &'static str)
        ensures
            res@ == (match self {
                Kind::NoneRequired => "none"@,
                Kind::WindowsDriver => "windows_driver"@,
                Kind::LinuxUdev => "linux_udev"@,
            }),
    {
        match self {
            Kind::NoneRequired => "none",
            Kind::WindowsDriver => "windows_driver",
            Kind::LinuxUdev => "linux_udev",
        }
    }
}

/// Whether device access is set up.
pub struct Status {
    pub kind: Kind,
    pub device_relevant: bool,
    pub ready: bool,
    pub detail: String,
    pub error: String,
}

/// Options of the access setup.
pub struct InstallOptions {
    /// Device description for the Windows driver (unused elsewhere).
    pub device_name: String,
}

/// How the access setup ended.
pub struct InstallResult {
    pub success: bool,
    pub error_message: String,
}

/// The device-access status on `os`; `udev_rules_installed` is whether the
/// Linux rules file is present (looked at on Linux only).
pub fn query(os: HostOs, udev_rules_installed: bool) -> (res: Status)
    ensures
        os == HostOs::Linux ==> res.kind == Kind::LinuxUdev && res.device_relevant && res.ready
            == udev_rules_installed && res.detail@ == (if udev_rules_installed {
            "installed"@
        } else {
            Seq::empty()
        }) && res.error@ == (if udev_rules_installed {
            Seq::empty()
        } else {
            "udev rules: not installed \u{2014} flashing may need root"@
        }),
        res.ready == (res.error@.len() == 0),
        os == HostOs::MacOs || os == HostOs::Other ==> res.kind == Kind::NoneRequired && res.device_relevant
            && res.ready && res.detail@.len() == 0 && res.error@.len() == 0,
        os == HostOs::Windows ==> res.kind == Kind::WindowsDriver && !res.device_relevant && !res.ready
            && res.detail@.len() == 0 && res.error@ == crate::platform::windows::WINDOWS_SETUP_MESSAGE@,
{
    proof {
        reveal_strlit("Windows libwdi driver install not yet ported");
        reveal_strlit("udev rules: not installed \u{2014} flashing may need root");
    }
    match os {
        HostOs::Windows => crate::platform::windows::query(),
        HostOs::Linux => crate::platform::linux::query(udev_rules_installed),
        HostOs::MacOs => crate::platform::macos::query(),
        HostOs::Other => Status {
            kind: Kind::NoneRequired,
            device_relevant: true,
            ready: true,
            detail: String::new(),
            error: String::new(),
        },
    }
}

/// The result of the access setup on a system that needs no helper
/// program: Windows (driver setup not available), macOS (nothing to set up) and other
/// systems (unsupported); `None` on Linux, where the udev helper runs.
pub fn install_without_helper(os: HostOs, options: &InstallOptions) -> (res: Option<InstallResult>)
    ensures
        os == HostOs::Linux <==> res is None,
        match res {
            Some(r) => !r.success && r.error_message@ == (match os {
                HostOs::Windows => crate::platform::windows::WINDOWS_SETUP_MESSAGE@,
                HostOs::MacOs => "device access setup is not required on this platform"@,
                _ => "unsupported platform"@,
            }),
            None => true,
        },
{
    match os {
        HostOs::Linux => None,
        HostOs::Windows => Some(crate::platform::windows::install(options)),
        HostOs::MacOs => Some(
            InstallResult {
                success: false,
                error_message: owned("device access setup is not required on this platform"),
            },
        ),
        HostOs::Other => Some(InstallResult { success: false, error_message: owned("unsupported platform") }),
    }
}

} // verus!
