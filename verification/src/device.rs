//! What the application knows of the attached device, and the results its
//! commands hand to the interface.
use vstd::prelude::*;
use crate::loader_map::{entry_for, loader_table, row_matches, soc_name};
use crate::numfmt::{hex4, u16_to_hex4};
use crate::paths::PathModel;
use crate::platform::flashing::{Kind, Status};
use crate::storage::{in_mask, mask_has, storage_name, storage_name_spec, STORAGE_EMMC, STORAGE_SD, STORAGE_SPI_NOR};
use crate::text::{chars_of, has_substring, owned};

verus! {

/// The state the application keeps about the device: presence and IDs,
/// whether the loader runs, which storage targets it offers and which one
/// is selected, and whether an operation holds the device.
pub struct DeviceState {
    pub device_present: bool,
    pub last_vid: u16,
    pub last_pid: u16,
    pub connect_requested: bool,
    pub loader_ready: bool,
    /// An operation holds the device (only one at a time).
    pub flash_running: bool,
    /// Cancel was asked for; checked by operations without a running task.
    pub cancel_requested: bool,
    pub available_storage_mask: u32,
    pub selected_storage: u32,
    /// Size of the selected target in sectors, 0 when unknown.
    pub last_storage_sectors: u64,
    pub storage_probe_complete: bool,
}

/// Why a command did not start or an operation failed.
#[derive(Clone, Copy, Debug)]
pub enum Failure {
    NoDevice,
    Busy,
    OperationBusy,
    NotConnected,
    NoStorageTarget,
    NoStorageSelected,
    UnknownStorage,
    NotDetected(u32),
    SizeUnknown(u32),
    CannotSelect(u32),
    CannotReadSize(u32),
    UsedSpaceUnknown(u32),
    NoDestination,
    NoImage,
    NotAnImage,
    MissingImage,
    NothingToCancel,
    NoLoaderMapping(u16, u16),
    NoLoaderBundled(&'static str),
    LoaderNotFound(&'static str),
    EraseSourceFailed,
}

/// The message the interface shows for a failure.
pub open spec fn failure_message(f: Failure) -> Seq<char> {
    match f {
        Failure::NoDevice => "no device present"@,
        Failure::Busy => "flash already in progress"@,
        Failure::OperationBusy => "operation in progress"@,
        Failure::NotConnected => "device is not connected"@,
        Failure::NoStorageTarget => "no storage target selected"@,
        Failure::NoStorageSelected => "no storage selected"@,
        Failure::UnknownStorage => "unknown storage target"@,
        Failure::NotDetected(s) => storage_name_spec(s) + " not detected"@,
        Failure::SizeUnknown(s) => "could not determine "@ + storage_name_spec(s) + " size"@,
        Failure::CannotSelect(s) => "could not select "@ + storage_name_spec(s),
        Failure::CannotReadSize(s) => "could not read "@ + storage_name_spec(s) + " size"@,
        Failure::UsedSpaceUnknown(s) => "could not determine used space on "@ + storage_name_spec(s),
        Failure::NoDestination => "no destination selected"@,
        Failure::NoImage => "no .img file selected"@,
        Failure::NotAnImage => "selected file is not a .img"@,
        Failure::MissingImage => "selected file does not exist"@,
        Failure::NothingToCancel => "no flash in progress"@,
        Failure::NoLoaderMapping(v, p) => "no loader mapping for VID 0x"@ + hex4(v) + " PID 0x"@ + hex4(p),
        Failure::NoLoaderBundled(soc) => "no loader bundled for "@ + soc@
            + " - add its SPL loader to loader_binaries/"@,
        Failure::LoaderNotFound(f) => "loader file not found: "@ + f@,
        Failure::EraseSourceFailed => "failed to prepare erase source file"@,
    }
}

impl Failure {
    /// The message the interface shows.
    pub fn message(&self) -> (res: String)
        ensures
            res@ == failure_message(*self),
    {
        match *self {
            Failure::NoDevice => owned("no device present"),
            Failure::Busy => owned("flash already in progress"),
            Failure::OperationBusy => owned("operation in progress"),
            Failure::NotConnected => owned("device is not connected"),
            Failure::NoStorageTarget => owned("no storage target selected"),
            Failure::NoStorageSelected => owned("no storage selected"),
            Failure::UnknownStorage => owned("unknown storage target"),
            Failure::NotDetected(s) => {
                let mut m = owned(storage_name(s));
                m.append(" not detected");
                m
            },
            Failure::SizeUnknown(s) => {
                let mut m = owned("could not determine ");
                m.append(storage_name(s));
                m.append(" size");
                m
            },
            Failure::CannotSelect(s) => {
                let mut m = owned("could not select ");
                m.append(storage_name(s));
                m
            },
            Failure::CannotReadSize(s) => {
                let mut m = owned("could not read ");
                m.append(storage_name(s));
                m.append(" size");
                m
            },
            Failure::UsedSpaceUnknown(s) => {
                let mut m = owned("could not determine used space on ");
                m.append(storage_name(s));
                m
            },
            Failure::NoDestination => owned("no destination selected"),
            Failure::NoImage => owned("no .img file selected"),
            Failure::NotAnImage => owned("selected file is not a .img"),
            Failure::MissingImage => owned("selected file does not exist"),
            Failure::NothingToCancel => owned("no flash in progress"),
            Failure::NoLoaderMapping(v, p) => {
                let mut m = owned("no loader mapping for VID 0x");
                let vs = u16_to_hex4(v);
                m.append(vs.as_str());
                m.append(" PID 0x");
                let ps = u16_to_hex4(p);
                m.append(ps.as_str());
                m
            },
            Failure::NoLoaderBundled(soc) => {
                let mut m = owned("no loader bundled for ");
                m.append(soc);
                m.append(" - add its SPL loader to loader_binaries/");
                m
            },
            Failure::LoaderNotFound(f) => {
                let mut m = owned("loader file not found: ");
                m.append(f);
                m
            },
            Failure::EraseSourceFailed => owned("failed to prepare erase source file"),
        }
    }
}

/// Whether a command started, with the reason when it did not.
#[derive(Debug)]
pub struct StartResult {
    pub started: bool,
    pub error: String,
}

impl StartResult {
    /// The command started.
    pub fn started() -> (res: Self)
        ensures
            res.started,
            res.error@.len() == 0,
    {
        StartResult { started: true, error: String::new() }
    }

    /// The command did not start, for reason `f`.
    pub fn failed(f: Failure) -> (res: Self)
        ensures
            !res.started,
            res.error@ == failure_message(f),
    {
        StartResult { started: false, error: f.message() }
    }
}

/// Whether a backup started, or needs the user's confirmation first.
#[derive(Debug)]
pub struct BackupStartResult {
    pub started: bool,
    pub needs_confirmation: bool,
    pub message: String,
}

impl BackupStartResult {
    /// The backup did not start, for reason `f`.
    pub fn failed(f: Failure) -> (res: Self)
        ensures
            !res.started,
            !res.needs_confirmation,
            res.message@ == failure_message(f),
    {
        BackupStartResult { started: false, needs_confirmation: false, message: f.message() }
    }
}

/// Whether `rkdeveloptool` is available.
#[derive(Debug)]
pub struct DependencyStatus {
    pub ok: bool,
    pub warning: String,
}

/// The dependency status for the lookup of `rkdeveloptool`: fine when it
/// was found, else the lookup's message as the warning.
pub fn dependency_status(lookup: &Result<PathModel, String>) -> (res: DependencyStatus)
    ensures
        match lookup {
            Ok(_) => res.ok && res.warning@.len() == 0,
            Err(m) => !res.ok && res.warning@ == m@,
        },
{
    match lookup {
        Ok(_) => DependencyStatus { ok: true, warning: String::new() },
        Err(m) => DependencyStatus { ok: false, warning: owned(m.as_str()) },
    }
}

/// The device-access status, as the interface takes it.
#[derive(Debug)]
pub struct DeviceAccessInfo {
    pub kind: String,
    pub device_relevant: bool,
    pub ready: bool,
    pub detail: String,
    pub error: String,
}

/// The device-access status `s`, as the interface takes it.
pub fn device_access_info(s: Status) -> (res: DeviceAccessInfo)
    ensures
        res.kind@ == (match s.kind {
            Kind::NoneRequired => "none"@,
            Kind::WindowsDriver => "windows_driver"@,
            Kind::LinuxUdev => "linux_udev"@,
        }),
        res.device_relevant == s.device_relevant,
        res.ready == s.ready,
        res.detail == s.detail,
        res.error == s.error,
{
    DeviceAccessInfo {
        kind: owned(s.kind.as_str()),
        device_relevant: s.device_relevant,
        ready: s.ready,
        detail: s.detail,
        error: s.error,
    }
}

/// The outcome of a file dialog.
#[derive(Debug)]
pub struct FilePickResult {
    pub success: bool,
    pub path: String,
    pub error: String,
    pub size_bytes: u64,
}

/// A dialog closed without a choice.
pub fn pick_canceled() -> (res: FilePickResult)
    ensures
        !res.success,
        res.path@.len() == 0,
        res.error@ == "file picker canceled"@,
        res.size_bytes == 0,
{
    FilePickResult { success: false, path: String::new(), error: owned("file picker canceled"), size_bytes: 0 }
}

/// An image file was chosen; `size_bytes` is its size (0 when unknown).
pub fn picked_image(path: String, size_bytes: u64) -> (res: FilePickResult)
    ensures
        res.success,
        res.path == path,
        res.error@.len() == 0,
        res.size_bytes == size_bytes,
{
    FilePickResult { success: true, path, error: String::new(), size_bytes }
}

/// `path` with `.img` appended unless it already ends in `.img`.
pub open spec fn with_img_suffix(path: Seq<char>) -> Seq<char> {
    if path.len() >= 4 && path.subrange(path.len() - 4, path.len() as int) == ".img"@ {
        path
    } else {
        path + ".img"@
    }
}

/// A backup destination was chosen; the name gets the `.img` suffix.
pub fn picked_backup_destination(path: &str) -> (res: FilePickResult)
    ensures
        res.success,
        res.path@ == with_img_suffix(path@),
        res.error@.len() == 0,
        res.size_bytes == 0,
{
    let cs = chars_of(path);
    let k = cs.len();
    let ends = k >= 4 && cs[k - 4] == '.' && cs[k - 3] == 'i' && cs[k - 2] == 'm' && cs[k - 1] == 'g';
    proof {
        reveal_strlit(".img");
        if ends {
            assert(cs@.subrange(k - 4, k as int) =~= ".img"@);
        } else if k >= 4 {
            assert(cs@.subrange(k - 4, k as int) != ".img"@) by {
                if cs@.subrange(k - 4, k as int) == ".img"@ {
                    assert(cs@.subrange(k - 4, k as int)[0] == '.');
                    assert(cs@.subrange(k - 4, k as int)[1] == 'i');
                    assert(cs@.subrange(k - 4, k as int)[2] == 'm');
                    assert(cs@.subrange(k - 4, k as int)[3] == 'g');
                }
            }
        }
    }
    let mut p = owned(path);
    if !ends {
        p.append(".img");
    }
    FilePickResult { success: true, path: p, error: String::new(), size_bytes: 0 }
}

/// The index of the last `c` in `s`, or -1 when there is none.
pub open spec fn last_index_of(s: Seq<char>, c: char) -> int
    decreases s.len(),
{
    if s.len() == 0 {
        -1
    } else if s.last() == c {
        s.len() - 1
    } else {
        last_index_of(s.drop_last(), c)
    }
}

/// What follows the last `/` in `path` (all of it when there is none).
pub open spec fn last_segment(path: Seq<char>) -> Seq<char> {
    path.skip(last_index_of(path, '/') + 1)
}

/// A path that every platform splits the same way: no `\` and no `:`
/// (so no Windows prefix and no other separator than `/`), not starting
/// with `//`, and ending in a file name: its last segment is neither empty
/// nor `.` nor `..`.
pub open spec fn plain_path(path: Seq<char>) -> bool {
    let seg = last_segment(path);
    &&& !path.contains('\\')
    &&& !path.contains(':')
    &&& !(path.len() >= 2 && path[0] == '/' && path[1] == '/')
    &&& seg.len() > 0
    &&& seg != seq!['.']
    &&& seg != seq!['.', '.']
}

/// The extension of a file name, by the rule that `Path::extension`
/// documents: none without a `.`, none when the only `.` is the leading
/// one, else what follows the final `.`.
pub open spec fn name_extension(name: Seq<char>) -> Option<Seq<char>> {
    let k = last_index_of(name, '.');
    if k <= 0 {
        None
    } else {
        Some(name.skip(k + 1))
    }
}

/// A path separator on some platform: `/` everywhere, a backslash on Windows.
pub open spec fn is_sep(c: char) -> bool {
    c == '/' || c == '\\'
}

/// The index of the last separator in `s`, or -1 when there is none.
pub open spec fn last_sep_index(s: Seq<char>) -> int
    decreases s.len(),
{
    if s.len() == 0 {
        -1
    } else if is_sep(s.last()) {
        s.len() - 1
    } else {
        last_sep_index(s.drop_last())
    }
}

/// What follows the last separator (`/` or a backslash) of `path`: on every
/// platform the file name of the path ends with it.
pub open spec fn name_tail(path: Seq<char>) -> Seq<char> {
    path.skip(last_sep_index(path) + 1)
}

/// The path can start with no Windows prefix that swallows its last
/// segment: it does not start with two separators (UNC, verbatim and device
/// prefixes do), and a drive letter `X:` at its start is followed by a
/// separator before its last segment.
pub open spec fn no_prefix_in_tail(path: Seq<char>) -> bool {
    &&& !(path.len() >= 2 && is_sep(path[0]) && is_sep(path[1]))
    &&& !(path.len() >= 2 && path[1] == ':' && last_sep_index(path) < 2)
}

/// A file name made of a non-empty stem and `.img`.
pub open spec fn img_file_name(name: Seq<char>) -> bool {
    name.len() > 4 && name.skip(name.len() - 4) == ".img"@
}

/// The extension of a name made of a non-empty stem and `.img` is `img`.
proof fn lemma_img_extension(name: Seq<char>)
    requires
        img_file_name(name),
    ensures
        name_extension(name) == Some("img"@),
{
    reveal_strlit(".img");
    reveal_strlit("img");
    let k = name.len();
    assert(name.skip(k - 4)[0] == '.');
    assert(name.skip(k - 4)[1] == 'i');
    assert(name.skip(k - 4)[2] == 'm');
    assert(name.skip(k - 4)[3] == 'g');
    assert(name[k - 1] == 'g' && name[k - 2] == 'm' && name[k - 3] == 'i' && name[k - 4] == '.');
    assert(name.drop_last().last() == 'm');
    assert(name.drop_last().drop_last().last() == 'i');
    assert(name.drop_last().drop_last().drop_last().last() == '.');
    assert(last_index_of(name.drop_last().drop_last().drop_last(), '.') == k - 4);
    assert(last_index_of(name.drop_last().drop_last(), '.') == k - 4);
    assert(last_index_of(name.drop_last(), '.') == k - 4);
    assert(last_index_of(name, '.') == k - 4);
    assert(name.skip(k - 3) =~= "img"@);
}

/// `std::path::Path::extension` of `path`, as text. Its documentation says
/// that the extension is taken from the file name, the last component: none
/// without a `.`, none when the name begins with its only `.`, else the part
/// after the final `.`; so it holds no `.`, and a path without a `.` has
/// none. For a [`plain_path`] the file name is what follows the last `/` on
/// every platform. On every platform the file name ends with what follows
/// the last `/` or backslash (when no Windows prefix reaches into it); when that
/// tail has a `.` after its first character, the final `.` of the file name
/// is in it and not at the name's start, so the extension is what follows
/// that `.`. What is left unsaid is the extension of the other paths, where
/// the platforms differ (a tail without such a `.`, or a prefix reaching
/// into it).
#[verifier::external_body]
fn path_extension(path: &str) -> (res: Option<String>)
    ensures
        match res {
            Some(e) => !e@.contains('.') && has_substring(path@, seq!['.'] + e@),
            None => true,
        },
        !path@.contains('.') ==> res is None,
        plain_path(path@) ==> opt_view(res) == name_extension(last_segment(path@)),
        no_prefix_in_tail(path@) && name_tail(path@) != seq!['.', '.'] && name_extension(name_tail(path@)) is Some
            ==> opt_view(res) == name_extension(name_tail(path@)),
{
    std::path::Path::new(path).extension().and_then(|e| e.to_str()).map(|e| e.to_string())
}

/// Whether an image path may be flashed, checked in order: a path was
/// chosen, its extension is `img`, and it names an existing file.
pub open spec fn image_check_spec(path: Seq<char>, extension: Option<Seq<char>>, is_file: bool) -> Result<(), Failure> {
    if path.len() == 0 {
        Err(Failure::NoImage)
    } else if extension != Some("img"@) {
        Err(Failure::NotAnImage)
    } else if !is_file {
        Err(Failure::MissingImage)
    } else {
        Ok(())
    }
}

/// The view of an optional text.
pub open spec fn opt_view(s: Option<String>) -> Option<Seq<char>> {
    match s {
        Some(t) => Some(t@),
        None => None,
    }
}

/// The checks on an image path, given the path's extension and whether it
/// names a file.
pub fn image_check(path: &str, extension: &Option<String>, is_file: bool) -> (res: Result<(), Failure>)
    ensures
        res == image_check_spec(path@, opt_view(*extension), is_file),
{
    if path.is_empty() {
        return Err(Failure::NoImage);
    }
    let is_img = match extension {
        Some(e) => {
            let img = owned("img");
            *e == img
        },
        None => false,
    };
    if !is_img {
        return Err(Failure::NotAnImage);
    }
    if !is_file {
        return Err(Failure::MissingImage);
    }
    Ok(())
}

/// The checks before an image is flashed; `is_file` tells whether `path`
/// names an existing file. An empty path, and a path in which `.img` does
/// not occur, are refused for those reasons; an accepted path names a file.
pub fn check_image_path(path: &str, is_file: bool) -> (res: Result<(), Failure>)
    ensures
        exists|ext: Option<Seq<char>>| res == image_check_spec(path@, ext, is_file),
        (path@.len() == 0) == (res == Err::<(), Failure>(Failure::NoImage)),
        path@.len() > 0 && !has_substring(path@, ".img"@) ==> res == Err::<(), Failure>(Failure::NotAnImage),
        res is Ok ==> is_file && has_substring(path@, ".img"@),
        plain_path(path@) ==> res == image_check_spec(path@, name_extension(last_segment(path@)), is_file),
        plain_path(path@) && is_file && img_file_name(last_segment(path@)) ==> res is Ok,
        no_prefix_in_tail(path@) && name_tail(path@) != seq!['.', '.'] && name_extension(name_tail(path@)) is Some
            ==> res == image_check_spec(path@, name_extension(name_tail(path@)), is_file),
        no_prefix_in_tail(path@) && img_file_name(name_tail(path@)) && is_file ==> res is Ok,
{
    let ext = path_extension(path);
    let res = image_check(path, &ext, is_file);
    proof {
        if img_file_name(name_tail(path@)) {
            lemma_img_extension(name_tail(path@));
        }
        if img_file_name(last_segment(path@)) {
            lemma_img_extension(last_segment(path@));
        }
        reveal_strlit("img");
        reveal_strlit(".img");
        assert(res == image_check_spec(path@, opt_view(ext), is_file));
        if opt_view(ext) == Some("img"@) {
            assert(seq!['.'] + "img"@ =~= ".img"@);
        }
    }
    res
}

/// The capacity of the selected target.
#[derive(Debug)]
pub struct StorageInfoResult {
    pub success: bool,
    pub storage_bytes: u64,
    pub error: String,
}

/// The storage targets that the loader offers, and the selected one.
#[derive(Debug)]
pub struct StorageTargetsResult {
    pub success: bool,
    pub emmc_available: bool,
    pub sd_available: bool,
    pub spinor_available: bool,
    pub selected_storage: u32,
    pub error: String,
}

/// The space in use on the selected target.
#[derive(Debug)]
pub struct UsedSpaceResult {
    pub success: bool,
    pub used_bytes: u64,
    pub error: String,
}

/// The text of the current log file.
#[derive(Debug)]
pub struct LogContentsResult {
    pub ok: bool,
    pub text: String,
}

/// The log text, as handed to the interface.
pub fn log_contents(text: String) -> (res: LogContentsResult)
    ensures
        res.ok,
        res.text == text,
{
    LogContentsResult { ok: true, text }
}

/// The state with the connection to the loader forgotten: no loader, no
/// request to connect, no storage targets, nothing selected, size unknown.
pub open spec fn disconnected(s: DeviceState) -> DeviceState {
    DeviceState {
        connect_requested: false,
        loader_ready: false,
        available_storage_mask: 0,
        selected_storage: 0,
        last_storage_sectors: 0,
        storage_probe_complete: false,
        ..s
    }
}

/// The status word the interface shows for the device.
pub open spec fn status_word(s: DeviceState, tool_available: bool) -> Seq<char> {
    if !tool_available && s.device_present {
        "tool_missing"@
    } else if !s.device_present {
        "disconnected"@
    } else if s.loader_ready {
        "connected"@
    } else {
        "detected"@
    }
}

impl DeviceState {
    /// No device seen yet.
    pub fn new() -> (res: Self)
        ensures
            !res.device_present && res.last_vid == 0 && res.last_pid == 0 && !res.connect_requested
                && !res.loader_ready && !res.flash_running && !res.cancel_requested
                && res.available_storage_mask == 0 && res.selected_storage == 0
                && res.last_storage_sectors == 0 && !res.storage_probe_complete,
    {
        DeviceState {
            device_present: false,
            last_vid: 0,
            last_pid: 0,
            connect_requested: false,
            loader_ready: false,
            flash_running: false,
            cancel_requested: false,
            available_storage_mask: 0,
            selected_storage: 0,
            last_storage_sectors: 0,
            storage_probe_complete: false,
        }
    }

    /// Forgets the connection to the loader (see [`disconnected`]).
    pub fn forget_connection(&mut self)
        ensures
            *final(self) == disconnected(*old(self)),
    {
        self.connect_requested = false;
        self.loader_ready = false;
        self.available_storage_mask = 0;
        self.selected_storage = 0;
        self.last_storage_sectors = 0;
        self.storage_probe_complete = false;
    }

    /// A Rockchip device arrived (with its IDs) or left; leaving forgets the
    /// connection.
    pub fn usb_changed(&mut self, present: bool, vid: u16, pid: u16)
        ensures
            present ==> *final(self) == (DeviceState {
                device_present: true,
                last_vid: vid,
                last_pid: pid,
                ..*old(self)
            }),
            !present ==> *final(self) == disconnected(DeviceState { device_present: false, ..*old(self) }),
    {
        self.device_present = present;
        if present {
            self.last_vid = vid;
            self.last_pid = pid;
        } else {
            self.forget_connection();
        }
    }

    /// Takes the device for an operation; `false` when another holds it.
    pub fn try_claim(&mut self) -> (res: bool)
        ensures
            res == !old(self).flash_running,
            *final(self) == (DeviceState { flash_running: true, ..*old(self) }),
    {
        if self.flash_running {
            false
        } else {
            self.flash_running = true;
            true
        }
    }

    /// Begins the Connect command: a device must be present and free; it is
    /// then held for the connect, which is requested, and an old cancel
    /// request is dropped.
    pub fn start_connect(&mut self) -> (res: Result<(), Failure>)
        ensures
            !old(self).device_present ==> res == Err::<(), Failure>(Failure::NoDevice) && *final(self) == *old(self),
            old(self).device_present && old(self).flash_running ==> res == Err::<(), Failure>(Failure::Busy)
                && *final(self) == *old(self),
            old(self).device_present && !old(self).flash_running ==> res == Ok::<(), Failure>(()) && *final(self)
                == (DeviceState {
                flash_running: true,
                connect_requested: true,
                cancel_requested: false,
                ..*old(self)
            }),
    {
        if !self.device_present {
            return Err(Failure::NoDevice);
        }
        if self.flash_running {
            return Err(Failure::Busy);
        }
        self.flash_running = true;
        self.connect_requested = true;
        self.cancel_requested = false;
        Ok(())
    }

    /// Whether the Disconnect command may reset the device: only a running
    /// loader can be reset.
    pub fn check_disconnect(&self) -> (res: Result<(), Failure>)
        ensures
            res == (if self.loader_ready {
                Ok::<(), Failure>(())
            } else {
                Err(Failure::NotConnected)
            }),
    {
        if self.loader_ready {
            Ok(())
        } else {
            Err(Failure::NotConnected)
        }
    }

    /// Lets go of the device.
    pub fn release(&mut self)
        ensures
            *final(self) == (DeviceState { flash_running: false, ..*old(self) }),
    {
        self.flash_running = false;
    }

    /// The status word the interface shows (see [`status_word`]).
    pub fn device_status(&self, tool_available: bool) -> (res: &'static str)
        ensures
            res@ == status_word(*self, tool_available),
    {
        if !tool_available && self.device_present {
            "tool_missing"
        } else if !self.device_present {
            "disconnected"
        } else if self.loader_ready {
            "connected"
        } else {
            "detected"
        }
    }

    /// The device's IDs as shown (such as `VID 2207 PID 350B`), empty without a
    /// device.
    pub fn device_info(&self) -> (res: String)
        ensures
            res@ == (if self.device_present {
                "VID "@ + hex4(self.last_vid) + " PID "@ + hex4(self.last_pid)
            } else {
                Seq::empty()
            }),
    {
        if self.device_present {
            let mut s = owned("VID ");
            let v = u16_to_hex4(self.last_vid);
            s.append(v.as_str());
            s.append(" PID ");
            let p = u16_to_hex4(self.last_pid);
            s.append(p.as_str());
            s
        } else {
            String::new()
        }
    }

    /// The SoC name shown for the device: the one the loader map gives,
    /// `unknown` for IDs it does not know, empty without a device.
    pub fn device_soc(&self) -> (res: String)
        ensures
            !self.device_present ==> res@.len() == 0,
            self.device_present ==> (forall|i: int|
                0 <= i < loader_table().len() ==> !row_matches(i, self.last_vid, self.last_pid))
                ==> res@ == "unknown"@,
            self.device_present ==> (exists|i: int|
                0 <= i < loader_table().len() && row_matches(i, self.last_vid, self.last_pid) && res@
                    == loader_table()[i].soc@ && forall|j: int|
                    0 <= j < i ==> !row_matches(j, self.last_vid, self.last_pid)) || (forall|i: int|
                0 <= i < loader_table().len() ==> !row_matches(i, self.last_vid, self.last_pid)),
    {
        if self.device_present {
            match soc_name(self.last_vid, self.last_pid) {
                Some(s) => owned(s),
                None => owned("unknown"),
            }
        } else {
            String::new()
        }
    }

    /// The storage targets the loader offers, and the selected one.
    pub fn storage_targets(&self) -> (res: StorageTargetsResult)
        ensures
            res.success == self.loader_ready,
            res.emmc_available == in_mask(self.available_storage_mask, STORAGE_EMMC),
            res.sd_available == in_mask(self.available_storage_mask, STORAGE_SD),
            res.spinor_available == in_mask(self.available_storage_mask, STORAGE_SPI_NOR),
            res.selected_storage == self.selected_storage,
            res.error@.len() == 0,
    {
        let mask = self.available_storage_mask;
        StorageTargetsResult {
            success: self.loader_ready,
            emmc_available: mask_has(mask, STORAGE_EMMC),
            sd_available: mask_has(mask, STORAGE_SD),
            spinor_available: mask_has(mask, STORAGE_SPI_NOR),
            selected_storage: self.selected_storage,
            error: String::new(),
        }
    }

    /// Cancel: marks the request; with a running task the task is stopped
    /// and reports itself; without one, an operation that still holds the
    /// device is let go and reported as cancelled (`true` in the result);
    /// else there was nothing to cancel.
    pub fn cancel(&mut self, has_task: bool) -> (res: (Option<Failure>, bool))
        ensures
            has_task ==> res == (None::<Failure>, false) && *final(self) == (DeviceState {
                cancel_requested: true,
                ..*old(self)
            }),
            !has_task && old(self).flash_running ==> res == (None::<Failure>, true) && *final(self)
                == (DeviceState { cancel_requested: true, flash_running: false, ..*old(self) }),
            !has_task && !old(self).flash_running ==> res == (Some(Failure::NothingToCancel), false)
                && *final(self) == (DeviceState { cancel_requested: true, ..*old(self) }),
    {
        self.cancel_requested = true;
        if has_task {
            return (None, false);
        }
        if self.flash_running {
            self.flash_running = false;
            (None, true)
        } else {
            (Some(Failure::NothingToCancel), false)
        }
    }
}

/// Law: a device that leaves is shown as disconnected, and nothing of its
/// loader connection survives.
pub proof fn law_unplug_forgets_connection(s: DeviceState, vid: u16, pid: u16, tool_available: bool)
    ensures
        ({
            let t = disconnected(DeviceState { device_present: false, ..s });
            &&& status_word(t, tool_available) == "disconnected"@
            &&& !t.loader_ready && !t.connect_requested
            &&& t.available_storage_mask == 0 && t.selected_storage == 0 && t.last_storage_sectors == 0
        }),
{
}

} // verus!
