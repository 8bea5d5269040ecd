//! What each operating system needs before `rkdeveloptool` may open a
//! Rockchip device (udev rules on Linux, a libusb driver on Windows,
//! nothing on macOS), and the USB presence events.

pub mod flashing;
pub mod linux;
pub mod macos;
pub mod windows;
pub mod usb;
