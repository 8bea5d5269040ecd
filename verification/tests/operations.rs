use rockchip_universal_imager::device::{
    check_image_path, dependency_status, device_access_info, image_check, log_contents, pick_canceled,
    picked_backup_destination, picked_image, BackupStartResult, DeviceState, Failure, StartResult,
};
use rockchip_universal_imager::ops::{
    storage_info_result, task_report, used_space_result, Action, Backup, BackupPlan, Connect, Event, Outcome,
    SecureErase, SelectStorage, SizeAnswer, Step, StorageInfo, StorageProbe, TaskEnd, TaskKind, UsedAnswer,
    UsedSpace,
};
use rockchip_universal_imager::paths::{
    companion_dir, first_existing, loader_binaries_candidates, loader_binaries_dir, platform_name,
    resource_dir, resource_dir_candidate, rkdeveloptool_candidates, rkdeveloptool_name, rkdeveloptool_path,
    HostOs, PathModel,
};
use rockchip_universal_imager::platform::flashing::{install_without_helper, query, InstallOptions, Kind};
use rockchip_universal_imager::platform::{linux, macos, usb, windows};
use rockchip_universal_imager::rkdev::{ProcessResult, RkCommand};

fn path(root: &str, names: &[&str]) -> PathModel {
    PathModel { root: root.to_string(), names: names.iter().map(|s| s.to_string()).collect() }
}

fn names_of(p: &PathModel) -> Vec<&str> {
    p.names.iter().map(|s| s.as_str()).collect()
}

fn connected_state() -> DeviceState {
    let mut st = DeviceState::new();
    st.usb_changed(true, 0x2207, 0x350b);
    st.loader_ready = true;
    st.available_storage_mask = 1 | 2;
    st.selected_storage = 1;
    st
}

fn args_of(step: &Step<impl Sized>) -> Option<Vec<String>> {
    match step {
        Step::Do(Action::Run(c)) => Some(c.args()),
        _ => None,
    }
}

// ----- device state -----

#[test]
fn device_presence_and_display() {
    let mut st = DeviceState::new();
    assert_eq!(st.device_status(true), "disconnected");
    assert_eq!(st.device_info(), "");
    assert_eq!(st.device_soc(), "");
    st.usb_changed(true, 0x2207, 0x350b);
    assert_eq!(st.device_status(true), "detected");
    assert_eq!(st.device_status(false), "tool_missing");
    assert_eq!(st.device_info(), "VID 2207 PID 350B");
    assert_eq!(st.device_soc(), "RK3588");
    st.usb_changed(true, 0x2207, 0x9999);
    assert_eq!(st.device_soc(), "unknown");
    st.loader_ready = true;
    assert_eq!(st.device_status(true), "connected");
}

#[test]
fn unplug_forgets_the_connection() {
    let mut st = connected_state();
    st.last_storage_sectors = 1000;
    st.storage_probe_complete = true;
    st.connect_requested = true;
    st.usb_changed(false, 0x2207, 0x350b);
    assert!(!st.device_present);
    assert!(!st.loader_ready && !st.connect_requested && !st.storage_probe_complete);
    assert_eq!((st.available_storage_mask, st.selected_storage, st.last_storage_sectors), (0, 0, 0));
    assert_eq!(st.device_status(true), "disconnected");
}

#[test]
fn claim_release_and_cancel() {
    let mut st = DeviceState::new();
    assert!(st.try_claim());
    assert!(!st.try_claim());
    st.release();
    assert!(!st.flash_running);

    let (f, cancelled) = st.cancel(false);
    assert!(matches!(f, Some(Failure::NothingToCancel)) && !cancelled);
    assert!(st.cancel_requested);

    let mut st = DeviceState::new();
    st.flash_running = true;
    let (f, cancelled) = st.cancel(false);
    assert!(f.is_none() && cancelled && !st.flash_running);

    let mut st = DeviceState::new();
    st.flash_running = true;
    let (f, cancelled) = st.cancel(true);
    assert!(f.is_none() && !cancelled && st.flash_running && st.cancel_requested);

    let mut st = DeviceState::new();
    st.cancel_requested = true;
    assert!(st.begin_task());
    assert!(st.flash_running && !st.cancel_requested);
    assert!(!st.begin_task());
}

#[test]
fn connect_and_disconnect_preconditions() {
    let mut st = DeviceState::new();
    assert!(matches!(st.start_connect(), Err(Failure::NoDevice)));
    assert!(!st.flash_running);
    st.usb_changed(true, 0x2207, 0x350b);
    st.cancel_requested = true;
    assert!(st.start_connect().is_ok());
    assert!(st.flash_running && st.connect_requested && !st.cancel_requested);
    assert!(matches!(st.start_connect(), Err(Failure::Busy)));
    assert!(matches!(st.check_disconnect(), Err(Failure::NotConnected)));
    st.loader_ready = true;
    assert!(st.check_disconnect().is_ok());
}

#[test]
fn storage_targets_report() {
    let st = connected_state();
    let t = st.storage_targets();
    assert!(t.success && t.emmc_available && t.sd_available && !t.spinor_available);
    assert_eq!(t.selected_storage, 1);
    assert_eq!(t.error, "");
}

#[test]
fn failure_messages() {
    let cases: Vec<(Failure, &str)> = vec![
        (Failure::NoDevice, "no device present"),
        (Failure::Busy, "flash already in progress"),
        (Failure::OperationBusy, "operation in progress"),
        (Failure::NotConnected, "device is not connected"),
        (Failure::NoStorageTarget, "no storage target selected"),
        (Failure::NoStorageSelected, "no storage selected"),
        (Failure::UnknownStorage, "unknown storage target"),
        (Failure::NotDetected(2), "SD card not detected"),
        (Failure::SizeUnknown(1), "could not determine eMMC size"),
        (Failure::CannotSelect(9), "could not select SPI NOR"),
        (Failure::CannotReadSize(1), "could not read eMMC size"),
        (Failure::UsedSpaceUnknown(2), "could not determine used space on SD card"),
        (Failure::NoDestination, "no destination selected"),
        (Failure::NoImage, "no .img file selected"),
        (Failure::NotAnImage, "selected file is not a .img"),
        (Failure::MissingImage, "selected file does not exist"),
        (Failure::NothingToCancel, "no flash in progress"),
        (Failure::NoLoaderMapping(0x2207, 0x1234), "no loader mapping for VID 0x2207 PID 0x1234"),
        (Failure::NoLoaderBundled("RK3568"), "no loader bundled for RK3568 - add its SPL loader to loader_binaries/"),
        (Failure::LoaderNotFound("x.bin"), "loader file not found: x.bin"),
        (Failure::EraseSourceFailed, "failed to prepare erase source file"),
    ];
    for (f, m) in cases {
        assert_eq!(f.message(), m);
    }
    let s = StartResult::failed(Failure::Busy);
    assert!(!s.started);
    assert_eq!(s.error, "flash already in progress");
    let s = StartResult::started();
    assert!(s.started && s.error.is_empty());
    let b = BackupStartResult::failed(Failure::NoDestination);
    assert!(!b.started && !b.needs_confirmation);
    assert_eq!(b.message, "no destination selected");
}

#[test]
fn interface_results() {
    let d = dependency_status(&Err("rkdeveloptool is missing".to_string()));
    assert!(!d.ok);
    assert_eq!(d.warning, "rkdeveloptool is missing");
    assert!(dependency_status(&Ok(path("/", &["x"]))).ok);

    let a = device_access_info(linux::query(false));
    assert_eq!(a.kind, "linux_udev");
    assert!(a.device_relevant && !a.ready);
    assert_eq!(a.error, "udev rules: not installed \u{2014} flashing may need root");

    let c = pick_canceled();
    assert!(!c.success);
    assert_eq!(c.error, "file picker canceled");
    let p = picked_image("/a/b.img".to_string(), 4096);
    assert!(p.success);
    assert_eq!((p.path.as_str(), p.size_bytes), ("/a/b.img", 4096));
    assert_eq!(picked_backup_destination("/tmp/backup").path, "/tmp/backup.img");
    assert_eq!(picked_backup_destination("/tmp/b.img").path, "/tmp/b.img");
    assert_eq!(picked_backup_destination("/tmp/b.IMG").path, "/tmp/b.IMG.img");

    let l = log_contents("x\n".to_string());
    assert!(l.ok);
    assert_eq!(l.text, "x\n");
}

#[test]
fn image_path_checks() {
    assert!(matches!(check_image_path("", true), Err(Failure::NoImage)));
    assert!(matches!(check_image_path("/tmp/disk.iso", true), Err(Failure::NotAnImage)));
    assert!(matches!(check_image_path("/tmp/disk", true), Err(Failure::NotAnImage)));
    assert!(matches!(check_image_path("/tmp/.img", true), Err(Failure::NotAnImage)));
    assert!(matches!(check_image_path("/tmp/disk.IMG", true), Err(Failure::NotAnImage)));
    assert!(matches!(check_image_path("/tmp/disk.img.bak", true), Err(Failure::NotAnImage)));
    assert!(check_image_path("rel/dir.x/a.b.img", true).is_ok());
    assert!(check_image_path("C:\\images\\x.img", true).is_ok());
    assert!(matches!(check_image_path("C:\\images\\x.iso", true), Err(Failure::NotAnImage)));
    assert!(matches!(check_image_path("/tmp/disk.img", false), Err(Failure::MissingImage)));
    assert!(check_image_path("/tmp/disk.img", true).is_ok());
    assert!(matches!(image_check("a.img", &Some("img".to_string()), false), Err(Failure::MissingImage)));
    assert!(matches!(image_check("a", &None, true), Err(Failure::NotAnImage)));
    assert!(image_check("a.img", &Some("img".to_string()), true).is_ok());
}

// ----- operations -----

#[test]
fn storage_probe_selects_the_preferred_target() {
    let mut st = connected_state();
    st.selected_storage = 0;
    let mut p = StorageProbe::new();
    let s = p.step(&mut st, Event::Begin);
    assert_eq!(args_of(&s), Some(vec!["cs".to_string(), "1".to_string()]));
    let s = p.step(&mut st, Event::Ran(false));
    assert_eq!(args_of(&s), Some(vec!["cs".to_string(), "2".to_string()]));
    let s = p.step(&mut st, Event::Ran(true));
    assert_eq!(args_of(&s), Some(vec!["cs".to_string(), "9".to_string()]));
    let s = p.step(&mut st, Event::Ran(true));
    assert_eq!(st.available_storage_mask, 6);
    assert_eq!(args_of(&s), Some(vec!["cs".to_string(), "2".to_string()]));
    let s = p.step(&mut st, Event::Ran(true));
    assert!(matches!(s, Step::Finish(())));
    assert_eq!((st.selected_storage, st.last_storage_sectors), (2, 0));
    assert!(st.storage_probe_complete);

    let mut st = connected_state();
    let mut p = StorageProbe::new();
    p.step(&mut st, Event::Begin);
    p.step(&mut st, Event::Ran(true));
    p.step(&mut st, Event::Ran(false));
    p.step(&mut st, Event::Ran(false));
    let s = p.step(&mut st, Event::Ran(true));
    assert!(matches!(s, Step::Do(Action::ReadFlashSize)));
    let s = p.step(&mut st, Event::FlashSize(62521344));
    assert!(matches!(s, Step::Finish(())));
    assert_eq!((st.selected_storage, st.last_storage_sectors), (1, 62521344));

    let mut st = connected_state();
    let mut p = StorageProbe::new();
    p.step(&mut st, Event::Begin);
    p.step(&mut st, Event::Ran(false));
    p.step(&mut st, Event::Ran(false));
    let s = p.step(&mut st, Event::Ran(false));
    assert!(matches!(s, Step::Finish(())));
    assert_eq!((st.available_storage_mask, st.selected_storage), (0, 1));
}

#[test]
fn connect_with_running_loader() {
    let mut st = DeviceState::new();
    st.usb_changed(true, 0x2207, 0x350b);
    st.connect_requested = true;
    assert!(st.try_claim());
    let mut c = Connect::new();
    let s = c.step(&mut st, Event::Begin);
    assert_eq!(args_of(&s), Some(vec!["td".to_string()]));
    let s = c.step(&mut st, Event::Ran(true));
    assert_eq!(args_of(&s), Some(vec!["rci".to_string()]));
    let s = c.step(&mut st, Event::Ran(true));
    assert_eq!(args_of(&s), Some(vec!["cs".to_string(), "1".to_string()]));
    c.step(&mut st, Event::Ran(true));
    c.step(&mut st, Event::Ran(true));
    c.step(&mut st, Event::Ran(false));
    let s = c.step(&mut st, Event::Ran(true));
    assert!(matches!(s, Step::Do(Action::ReadFlashSize)));
    let s = c.step(&mut st, Event::FlashSize(1000));
    match s {
        Step::Finish(end) => {
            assert!(end.push_ui);
            assert!(matches!(end.outcome, Some(Outcome::Succeeded)));
        },
        _ => panic!("connect should have finished"),
    }
    assert!(st.loader_ready && !st.flash_running);
    assert_eq!((st.available_storage_mask, st.selected_storage, st.last_storage_sectors), (3, 1, 1000));
}

#[test]
fn connect_in_maskrom_downloads_the_loader() {
    let mut st = DeviceState::new();
    st.usb_changed(true, 0x2207, 0x350b);
    st.try_claim();
    let mut c = Connect::new();
    c.step(&mut st, Event::Begin);
    let s = c.step(&mut st, Event::Ran(false));
    assert!(matches!(s, Step::Do(Action::LocateLoader("rk3588_spl_loader_v1.15.113.bin"))));
    assert!(!st.flash_running);
    let s = c.step(&mut st, Event::LoaderLocated(Some("/opt/l.bin".to_string())));
    match &s {
        Step::Do(Action::StartTask(RkCommand::DownloadBoot { loader })) => assert_eq!(loader, "/opt/l.bin"),
        _ => panic!("expected the loader download"),
    }
    let s = c.step(&mut st, Event::TaskStarted(true));
    assert!(matches!(s, Step::Finish(e) if !e.push_ui && e.outcome.is_none()));

    let mut st = DeviceState::new();
    st.usb_changed(true, 0x2207, 0x350b);
    st.connect_requested = true;
    let mut c = Connect::new();
    c.step(&mut st, Event::Begin);
    c.step(&mut st, Event::Ran(false));
    let s = c.step(&mut st, Event::LoaderLocated(None));
    assert!(matches!(s, Step::Finish(e) if matches!(e.outcome, Some(Outcome::Failed(Failure::LoaderNotFound(_))))));
    assert!(!st.connect_requested);
}

#[test]
fn connect_failures_and_cancel() {
    let mut st = DeviceState::new();
    st.usb_changed(true, 0x2207, 0x350a);
    let mut c = Connect::new();
    c.step(&mut st, Event::Begin);
    let s = c.step(&mut st, Event::Ran(false));
    match s {
        Step::Finish(e) => {
            let f = match e.outcome {
                Some(Outcome::Failed(f)) => f,
                _ => panic!("expected a failure"),
            };
            assert_eq!(f.message(), "no loader bundled for RK3568 - add its SPL loader to loader_binaries/");
        },
        _ => panic!("expected the end"),
    }

    let mut st = DeviceState::new();
    st.usb_changed(true, 0x1111, 0x2222);
    let mut c = Connect::new();
    c.step(&mut st, Event::Begin);
    let s = c.step(&mut st, Event::Ran(false));
    assert!(matches!(s, Step::Finish(e) if matches!(e.outcome, Some(Outcome::Failed(Failure::NoLoaderMapping(0x1111, 0x2222))))));

    let mut st = DeviceState::new();
    st.usb_changed(true, 0x2207, 0x350b);
    st.try_claim();
    st.connect_requested = true;
    let mut c = Connect::new();
    c.step(&mut st, Event::Begin);
    st.cancel(false);
    let s = c.step(&mut st, Event::Ran(true));
    assert!(matches!(s, Step::Finish(e) if e.outcome.is_none() && !e.push_ui));
    assert!(!st.cancel_requested && !st.connect_requested);

    let mut st = DeviceState::new();
    st.usb_changed(true, 0x2207, 0x350b);
    st.try_claim();
    st.cancel_requested = true;
    let mut c = Connect::new();
    c.step(&mut st, Event::Begin);
    let s = c.step(&mut st, Event::Ran(true));
    assert!(matches!(s, Step::Finish(e) if matches!(e.outcome, Some(Outcome::Cancelled))));
    assert!(!st.flash_running);
}

#[test]
fn task_end_after_download_and_reset() {
    let mut st = DeviceState::new();
    st.usb_changed(true, 0x2207, 0x350b);
    st.begin_task();
    let mut t = TaskEnd::new(true, TaskKind::Connect);
    let s = t.step(&mut st, Event::Begin);
    assert_eq!(args_of(&s), Some(vec!["rci".to_string()]));
    t.step(&mut st, Event::Ran(true));
    t.step(&mut st, Event::Ran(false));
    t.step(&mut st, Event::Ran(false));
    let s = t.step(&mut st, Event::Ran(true));
    assert_eq!(args_of(&s), Some(vec!["cs".to_string(), "9".to_string()]));
    t.step(&mut st, Event::Ran(true));
    let s = t.step(&mut st, Event::FlashSize(77));
    assert!(matches!(s, Step::Finish(true)));
    assert!(st.loader_ready && !st.flash_running);
    assert_eq!((st.selected_storage, st.last_storage_sectors), (9, 77));

    let mut st = connected_state();
    st.begin_task();
    let mut t = TaskEnd::new(true, TaskKind::Disconnect);
    assert!(matches!(t.step(&mut st, Event::Begin), Step::Finish(true)));
    assert!(!st.loader_ready && !st.flash_running && st.selected_storage == 0);

    let mut st = connected_state();
    st.begin_task();
    let mut t = TaskEnd::new(false, TaskKind::Connect);
    assert!(matches!(t.step(&mut st, Event::Begin), Step::Finish(false)));
    assert!(st.loader_ready && !st.flash_running);
}

#[test]
fn task_reports() {
    let ok = ProcessResult { exit_code: 0, was_cancelled: false, error_message: String::new() };
    assert_eq!(task_report(&ok), (true, false, String::new()));
    let bad = ProcessResult { exit_code: 5, was_cancelled: false, error_message: String::new() };
    assert_eq!(task_report(&bad), (false, false, "rkdeveloptool failed with exit code 5".to_string()));
    let msg = ProcessResult { exit_code: 0, was_cancelled: false, error_message: "boom".to_string() };
    assert_eq!(task_report(&msg), (false, false, "boom".to_string()));
    let cancelled = ProcessResult { exit_code: -1, was_cancelled: true, error_message: String::new() };
    assert_eq!(task_report(&cancelled), (false, true, String::new()));
}

#[test]
fn secure_erase_preparation() {
    let mut st = connected_state();
    st.selected_storage = 0;
    let mut e = SecureErase::new();
    assert!(matches!(e.step(&mut st, Event::Begin), Step::Finish(Err(Failure::NoStorageTarget))));

    let mut st = connected_state();
    st.flash_running = true;
    let mut e = SecureErase::new();
    assert!(matches!(e.step(&mut st, Event::Begin), Step::Finish(Err(Failure::Busy))));

    let mut st = connected_state();
    let mut e = SecureErase::new();
    assert!(matches!(e.step(&mut st, Event::Begin), Step::Do(Action::ReadFlashSize)));
    assert!(st.flash_running);
    assert!(matches!(e.step(&mut st, Event::FlashSize(0)), Step::Finish(Err(Failure::SizeUnknown(1)))));
    assert!(!st.flash_running);

    let mut st = connected_state();
    st.last_storage_sectors = 500;
    let mut e = SecureErase::new();
    e.step(&mut st, Event::Begin);
    assert!(matches!(e.step(&mut st, Event::FlashSize(900)), Step::Finish(Ok((1, 500)))));
}

#[test]
fn backup_preparation() {
    let mut st = connected_state();
    let mut b = Backup::new(false, false);
    assert!(matches!(b.step(&mut st, Event::Begin), Step::Finish(BackupPlan::Failed(Failure::NoDestination))));

    let mut st = connected_state();
    let mut b = Backup::new(true, false);
    assert!(matches!(b.step(&mut st, Event::Begin), Step::Do(Action::ReadGpt)));
    assert!(matches!(b.step(&mut st, Event::Gpt(Some(4095))), Step::Do(Action::ReadFlashSize)));
    assert!(matches!(
        b.step(&mut st, Event::FlashSize(1 << 20)),
        Step::Finish(BackupPlan::Read { storage: 1, sectors: 4096 })
    ));
    assert!(!st.flash_running);

    let mut st = connected_state();
    let mut b = Backup::new(true, false);
    b.step(&mut st, Event::Begin);
    b.step(&mut st, Event::Gpt(None));
    assert!(matches!(b.step(&mut st, Event::FlashSize(1 << 20)), Step::Finish(BackupPlan::NeedsConfirmation(1048576))));

    let mut st = connected_state();
    let mut b = Backup::new(true, true);
    b.step(&mut st, Event::Begin);
    b.step(&mut st, Event::Gpt(None));
    assert!(matches!(b.step(&mut st, Event::FlashSize(2048)), Step::Finish(BackupPlan::Read { storage: 1, sectors: 2048 })));

    let mut st = connected_state();
    let mut b = Backup::new(true, true);
    b.step(&mut st, Event::Begin);
    b.step(&mut st, Event::Gpt(None));
    assert!(matches!(b.step(&mut st, Event::FlashSize(0)), Step::Finish(BackupPlan::Failed(Failure::SizeUnknown(1)))));
}

#[test]
fn storage_size_queries() {
    let mut st = connected_state();
    st.last_storage_sectors = 10;
    let mut q = StorageInfo::new();
    assert!(matches!(q.step(&mut st, Event::Begin), Step::Finish(SizeAnswer::Bytes(5120))));

    let mut st = connected_state();
    let mut q = StorageInfo::new();
    let s = q.step(&mut st, Event::Begin);
    assert_eq!(args_of(&s), Some(vec!["cs".to_string(), "1".to_string()]));
    assert!(matches!(q.step(&mut st, Event::Ran(true)), Step::Do(Action::ReadFlashSize)));
    assert!(matches!(q.step(&mut st, Event::FlashSize(4)), Step::Finish(SizeAnswer::Bytes(2048))));
    assert_eq!(st.last_storage_sectors, 4);

    let mut st = connected_state();
    st.selected_storage = 2;
    let mut q = StorageInfo::new();
    assert!(matches!(q.step(&mut st, Event::Begin), Step::Finish(SizeAnswer::Unknown)));

    let mut st = DeviceState::new();
    let mut q = StorageInfo::new();
    let a = match q.step(&mut st, Event::Begin) {
        Step::Finish(a) => a,
        _ => panic!("expected an answer"),
    };
    let r = storage_info_result(a);
    assert!(!r.success);
    assert_eq!(r.error, "no storage selected");

    let mut st = connected_state();
    let mut q = StorageInfo::new();
    q.step(&mut st, Event::Begin);
    assert!(matches!(q.step(&mut st, Event::Ran(false)), Step::Finish(SizeAnswer::Failed(Failure::CannotSelect(1)))));
    let r = storage_info_result(SizeAnswer::Bytes(7));
    assert!(r.success && r.storage_bytes == 7 && r.error.is_empty());
}

#[test]
fn selecting_a_target() {
    let mut st = connected_state();
    let mut s = SelectStorage::new(2);
    let step = s.step(&mut st, Event::Begin);
    assert_eq!(args_of(&step), Some(vec!["cs".to_string(), "2".to_string()]));
    assert!(matches!(s.step(&mut st, Event::Ran(true)), Step::Finish(Ok(()))));
    assert_eq!((st.selected_storage, st.last_storage_sectors), (2, 0));
    assert!(!st.flash_running);

    let mut st = connected_state();
    let mut s = SelectStorage::new(9);
    assert!(matches!(s.step(&mut st, Event::Begin), Step::Finish(Err(Failure::NotDetected(9)))));
    let mut s = SelectStorage::new(4);
    assert!(matches!(s.step(&mut st, Event::Begin), Step::Finish(Err(Failure::UnknownStorage))));
    let mut st2 = DeviceState::new();
    let mut s = SelectStorage::new(1);
    assert!(matches!(s.step(&mut st2, Event::Begin), Step::Finish(Err(Failure::NotConnected))));
}

#[test]
fn used_space_computation() {
    let mut st = connected_state();
    st.last_storage_sectors = 1_000_000;
    let mut u = UsedSpace::new();
    let s = u.step(&mut st, Event::Begin);
    assert_eq!(args_of(&s), Some(vec!["cs".to_string(), "1".to_string()]));
    assert!(matches!(u.step(&mut st, Event::Ran(true)), Step::Do(Action::FindBoundary(1_000_000))));
    let s = u.step(&mut st, Event::Boundary(300_000));
    assert!(matches!(s, Step::Finish(UsedAnswer::Used { bytes: 153_600_000, from_gpt: false })));
    assert!(!st.flash_running);

    let mut st = connected_state();
    st.selected_storage = 2;
    let mut u = UsedSpace::new();
    u.step(&mut st, Event::Begin);
    assert!(matches!(u.step(&mut st, Event::Ran(true)), Step::Do(Action::ReadGpt)));
    let s = u.step(&mut st, Event::Gpt(Some(2047)));
    assert!(matches!(s, Step::Finish(UsedAnswer::Used { bytes: 1_048_576, from_gpt: true })));

    let mut st = connected_state();
    let mut u = UsedSpace::new();
    u.step(&mut st, Event::Begin);
    let a = match u.step(&mut st, Event::Ran(false)) {
        Step::Finish(a) => a,
        _ => panic!("expected an answer"),
    };
    let r = used_space_result(a);
    assert!(!r.success);
    assert_eq!(r.error, "eMMC not detected");
    assert!(!st.flash_running);

    let mut st = DeviceState::new();
    let mut u = UsedSpace::new();
    assert!(matches!(u.step(&mut st, Event::Begin), Step::Finish(UsedAnswer::Failed(Failure::NotConnected))));
}

// ----- paths -----

#[test]
fn platform_and_tool_names() {
    assert_eq!(platform_name(HostOs::Windows), "windows");
    assert_eq!(platform_name(HostOs::MacOs), "macos");
    assert_eq!(platform_name(HostOs::Linux), "linux");
    assert_eq!(platform_name(HostOs::Other), "linux");
    assert_eq!(rkdeveloptool_name(HostOs::Windows), "rkdeveloptool.exe");
    assert_eq!(rkdeveloptool_name(HostOs::Linux), "rkdeveloptool");
}

#[test]
fn companion_directory_of_a_bundle() {
    let exe = path("/", &["Applications", "Imager.app", "Contents", "MacOS"]);
    assert_eq!(names_of(&companion_dir(HostOs::MacOs, &exe)), vec!["Applications"]);
    assert_eq!(names_of(&companion_dir(HostOs::Linux, &exe)), names_of(&exe));
    let not_app = path("/", &["x", "Imager", "Contents", "MacOS"]);
    assert_eq!(names_of(&companion_dir(HostOs::MacOs, &not_app)), names_of(&not_app));
    let bare = path("/", &["x", ".app", "Contents", "MacOS"]);
    assert_eq!(names_of(&companion_dir(HostOs::MacOs, &bare)), names_of(&bare));

    let cand = resource_dir_candidate(HostOs::MacOs, &exe).unwrap();
    assert_eq!(names_of(&cand), vec!["Applications", "Imager.app", "Contents", "Resources"]);
    assert!(resource_dir_candidate(HostOs::Linux, &exe).is_none());
    let r = resource_dir(path("/", &["e"]), Some(path("/", &["r"])), false);
    assert_eq!(names_of(&r), vec!["e"]);
    let r = resource_dir(path("/", &["e"]), Some(path("/", &["r"])), true);
    assert_eq!(names_of(&r), vec!["r"]);
}

#[test]
fn tool_and_loader_lookup() {
    assert_eq!(first_existing(&[false, true, true]), Some(1));
    assert_eq!(first_existing(&[false, false]), None);

    let c = rkdeveloptool_candidates(HostOs::Windows, &path("C:\\", &["c"]), &path("C:\\", &["e"]), &path("C:\\", &["b"]));
    assert_eq!(names_of(&c[1]), vec!["e", "rkdeveloptool.exe"]);
    let found = rkdeveloptool_path(HostOs::Linux, vec![path("/", &["a"]), path("/", &["b"]), path("/", &["c"])], &[false, true, true]);
    assert_eq!(names_of(&found.unwrap()), vec!["b"]);
    let missing = rkdeveloptool_path(HostOs::Windows, vec![path("/", &["a"])], &[false]);
    assert_eq!(missing.err().unwrap(), "rkdeveloptool is missing - place rkdeveloptool.exe next to the app (portable layout).");

    let l = loader_binaries_candidates(&path("/", &["c"]), &path("/", &["r"]), &path("/", &["e"]), &path("/", &["s"]));
    assert_eq!(names_of(&l[3]), vec!["s", "loader_binaries"]);
    let d = loader_binaries_dir(l, &[false, false, true, true]);
    assert_eq!(names_of(&d), vec!["e", "loader_binaries"]);
    let l = loader_binaries_candidates(&path("/", &["c"]), &path("/", &["r"]), &path("/", &["e"]), &path("/", &["s"]));
    let d = loader_binaries_dir(l, &[false, false, false, false]);
    assert_eq!(names_of(&d), vec!["c", "loader_binaries"]);
}

// ----- device access per platform -----

#[test]
fn device_access_per_platform() {
    assert_eq!(Kind::NoneRequired.as_str(), "none");
    assert_eq!(Kind::WindowsDriver.as_str(), "windows_driver");
    assert_eq!(Kind::LinuxUdev.as_str(), "linux_udev");

    let s = query(HostOs::Windows, true);
    assert!(s.kind == Kind::WindowsDriver && !s.ready && !s.device_relevant);
    assert_eq!(s.error, "Windows libwdi driver install not yet ported");
    let s = query(HostOs::Linux, true);
    assert!(s.kind == Kind::LinuxUdev && s.ready);
    assert_eq!(s.detail, "installed");
    let s = query(HostOs::Linux, false);
    assert!(!s.ready && s.detail.is_empty());
    assert_eq!(s.error, "udev rules: not installed \u{2014} flashing may need root");
    let s = macos::query();
    assert!(s.kind == Kind::NoneRequired && s.ready && s.device_relevant);
    assert!(windows::query().error == windows::WINDOWS_SETUP_MESSAGE);

    let opts = InstallOptions { device_name: "RK3588".to_string() };
    assert!(install_without_helper(HostOs::Linux, &opts).is_none());
    let r = install_without_helper(HostOs::MacOs, &opts).unwrap();
    assert!(!r.success);
    assert_eq!(r.error_message, "device access setup is not required on this platform");
    assert_eq!(install_without_helper(HostOs::Other, &opts).unwrap().error_message, "unsupported platform");
    assert_eq!(windows::install(&opts).error_message, windows::WINDOWS_SETUP_MESSAGE);
}

#[test]
fn udev_rules_installation() {
    let script = linux::install_script();
    assert!(script.starts_with("printf '%s' '# Installed by Rockchip Universal Imager"));
    assert!(script.ends_with(
        "' > /etc/udev/rules.d/99-rockchip-universal-imager-rockchip.rules && udevadm control --reload-rules && udevadm trigger"
    ));
    assert!(linux::RULES_CONTENT.contains("ATTR{idVendor}==\"2207\""));

    let r = linux::install_outcome(false, None, "");
    assert_eq!(r.error_message, "failed to start pkexec (is polkit installed?)");
    let r = linux::install_outcome(true, Some(126), "x");
    assert_eq!(r.error_message, "authorization was dismissed");
    let r = linux::install_outcome(true, Some(3), "  \n");
    assert_eq!(r.error_message, "udev rules install failed (exit 3)");
    let r = linux::install_outcome(true, None, "  denied \n");
    assert_eq!(r.error_message, "denied");
    let r = linux::install_outcome(true, Some(0), "warn");
    assert!(r.success && r.error_message.is_empty());
}

#[test]
fn usb_presence_changes() {
    assert!(usb::is_rockchip(0x2207));
    assert!(!usb::is_rockchip(0x1d6b));
    assert_eq!(usb::first_rockchip(&[(0x1d6b, 2), (0x2207, 0x350b), (0x2207, 1)]), Some((0x2207, 0x350b)));
    assert_eq!(usb::first_rockchip(&[(0x1d6b, 2)]), None);
    assert!(usb::scan_change(Some((0x2207, 1)), Some((0x2207, 1))).is_none());
    let e = usb::scan_change(None, Some((0x2207, 0x350b))).unwrap();
    assert!(e.present && e.vid == 0x2207 && e.pid == 0x350b);
    let e = usb::scan_change(Some((0x2207, 0x350b)), None).unwrap();
    assert!(!e.present && e.pid == 0x350b);
    let e = usb::scan_change(Some((0x2207, 1)), Some((0x2207, 2))).unwrap();
    assert!(e.present && e.pid == 2);
    assert!(usb::scan_change(None, None).is_none());
}
