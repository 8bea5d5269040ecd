//! Linux: libusb detects the device; udev rules grant access to it.
use vstd::prelude::*;
use crate::numfmt::{i32_to_decimal, signed_decimal};
use crate::platform::flashing::{InstallResult, Kind, Status};
use crate::text::{owned, trim, trim_spec};

verus! {

/// Where the rules are installed.
pub const RULES_PATH: &'static str = "/etc/udev/rules.d/99-rockchip-universal-imager-rockchip.rules";

/// The rules: any user may open a Rockchip (vendor 2207) USB device.
pub const RULES_CONTENT: &'static str = "# Installed by Rockchip Universal Imager - allow non-root access to Rockchip\n# Maskrom/loader (RockUSB) devices.\nSUBSYSTEM==\"usb\", ATTR{idVendor}==\"2207\", MODE=\"0666\", TAG+=\"uaccess\"\n";

/// The device-access status on Linux: ready once the rules file exists.
pub fn query(installed: bool) -> (res: Status)
    ensures
        res.kind == Kind::LinuxUdev,
        res.device_relevant,
        res.ready == installed,
        res.detail@ == (if installed {
            "installed"@
        } else {
            Seq::empty()
        }),
        res.error@ == (if installed {
            Seq::empty()
        } else {
            "udev rules: not installed \u{2014} flashing may need root"@
        }),
{
    Status {
        kind: Kind::LinuxUdev,
        device_relevant: true,
        ready: installed,
        detail: if installed {
            owned("installed")
        } else {
            String::new()
        },
        error: if installed {
            String::new()
        } else {
            owned("udev rules: not installed \u{2014} flashing may need root")
        },
    }
}

/// The shell command run through `pkexec`: write the rules, reload them and
/// trigger the devices.
pub fn install_script() -> (res: String)
    ensures
        res@ == "printf '%s' '"@ + RULES_CONTENT@ + "' > "@ + RULES_PATH@
            + " && udevadm control --reload-rules && udevadm trigger"@,
{
    let mut s = owned("printf '%s' '");
    s.append(RULES_CONTENT);
    s.append("' > ");
    s.append(RULES_PATH);
    s.append(" && udevadm control --reload-rules && udevadm trigger");
    s
}

/// How the rules installation ended: `exit_status` is `None` when `pkexec`
/// could not be started, else the exit code (`None` inside when the process
/// ended without one, which counts as 1), with its error output.
pub open spec fn install_outcome_spec(exit_status: Option<(Option<i32>, Seq<char>)>) -> (bool, Seq<char>) {
    match exit_status {
        None => (false, "failed to start pkexec (is polkit installed?)"@),
        Some((code, stderr)) => {
            let c: i32 = match code {
                Some(c) => c,
                None => 1,
            };
            if c == 126 || c == 127 {
                (false, "authorization was dismissed"@)
            } else if c != 0 {
                if trim_spec(stderr).len() == 0 {
                    (false, "udev rules install failed (exit "@ + signed_decimal(c as int) + ")"@)
                } else {
                    (false, trim_spec(stderr))
                }
            } else {
                (true, Seq::empty())
            }
        },
    }
}

/// The result of the rules installation (see [`install_outcome_spec`]).
pub fn install_outcome(started: bool, code: Option<i32>, stderr_text: &str) -> (res: InstallResult)
    ensures
        (res.success, res.error_message@) == install_outcome_spec(if started {
            Some((code, stderr_text@))
        } else {
            None
        }),
{
    if !started {
        return InstallResult {
            success: false,
            error_message: owned("failed to start pkexec (is polkit installed?)"),
        };
    }
    let c: i32 = match code {
        Some(c) => c,
        None => 1,
    };
    if c == 126 || c == 127 {
        return InstallResult { success: false, error_message: owned("authorization was dismissed") };
    }
    if c != 0 {
        let msg = trim(stderr_text);
        if msg.as_str().is_empty() {
            let mut m = owned("udev rules install failed (exit ");
            let d = i32_to_decimal(c);
            m.append(d.as_str());
            m.append(")");
            return InstallResult { success: false, error_message: m };
        } else {
            return InstallResult { success: false, error_message: msg };
        }
    }
    InstallResult { success: true, error_message: String::new() }
}

} // verus!
