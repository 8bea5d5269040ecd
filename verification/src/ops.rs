//! The device operations of the application as state machines: each step
//! takes what the last outside action gave (a command's exit status, a
//! flash size, a partition table, ...) and returns the next action or the
//! end of the operation. The host runs the actions and feeds the results
//! back, so every decision an operation takes stands here.
use vstd::prelude::*;
use crate::device::{disconnected, DeviceState, Failure};
use crate::loader_map::{entry_for, loader_table, row_matches};
use crate::rkdev::RkCommand;
use crate::storage::{
    in_mask, known_storage, mask_spec, preferred_spec, preferred_storage, is_known_storage, mask_has,
    storage_mask, STORAGE_EMMC, STORAGE_SD, STORAGE_SPI_NOR,
};

verus! {

/// Outside work that an operation asks for.
pub enum Action {
    /// Run the command (with the probe time limit); answer [`Event::Ran`]
    /// with whether it exited with code 0.
    Run(RkCommand),
    /// Run `rfi` and read the size from it; answer [`Event::FlashSize`].
    ReadFlashSize,
    /// Read the partition table; answer [`Event::Gpt`].
    ReadGpt,
    /// Search for the end of the written data on a target of that many
    /// sectors; answer [`Event::Boundary`].
    FindBoundary(u64),
    /// Look for the bundled loader file; answer [`Event::LoaderLocated`].
    LocateLoader(&'static str),
    /// Start the command as a background task that connects the loader when
    /// it succeeds; answer [`Event::TaskStarted`].
    StartTask(RkCommand),
}

/// What an outside action gave.
pub enum Event {
    /// The operation starts.
    Begin,
    /// A command ran; `true` when it exited with code 0.
    Ran(bool),
    /// The storage size in sectors (0 when unknown).
    FlashSize(u64),
    /// The last LBA in use according to the partition table, if there is one.
    Gpt(Option<u64>),
    /// The end of the written data, in sectors.
    Boundary(u64),
    /// The path of the loader file, if it exists.
    LoaderLocated(Option<String>),
    /// Whether the background task started.
    TaskStarted(bool),
}

/// The next step of an operation.
pub enum Step<R> {
    Do(Action),
    Finish(R),
}

// ----- Storage probe -----

/// Where a storage probe stands.
#[derive(Clone, Copy)]
pub enum ProbeStage {
    Start,
    AwaitEmmc,
    AwaitSd,
    AwaitSpiNor,
    AwaitSelect(u32),
    AwaitSize,
    Done,
}

/// The probe of the storage targets: `cs` is tried for eMMC, SD card and
/// SPI NOR; the targets that answer make the availability mask; the
/// preferred one is selected, and its size read unless it is the SD card
/// (whose reported size is not trusted).
#[derive(Clone, Copy)]
pub struct StorageProbe {
    pub stage: ProbeStage,
    pub emmc: bool,
    pub sd: bool,
}

/// The event that a probe in stage `stage` waits for.
pub open spec fn probe_accepts(stage: ProbeStage, ev: Event) -> bool {
    match stage {
        ProbeStage::Start => ev is Begin,
        ProbeStage::AwaitEmmc | ProbeStage::AwaitSd | ProbeStage::AwaitSpiNor | ProbeStage::AwaitSelect(_) => ev is Ran,
        ProbeStage::AwaitSize => ev is FlashSize,
        ProbeStage::Done => false,
    }
}

/// One step of the probe.
pub open spec fn probe_next(p: StorageProbe, st: DeviceState, ev: Event) -> (StorageProbe, DeviceState, Step<()>) {
    match (p.stage, ev) {
        (ProbeStage::Start, _) => (
            StorageProbe { stage: ProbeStage::AwaitEmmc, ..p },
            st,
            Step::Do(Action::Run(RkCommand::ChangeStorage { storage: STORAGE_EMMC })),
        ),
        (ProbeStage::AwaitEmmc, Event::Ran(ok)) => (
            StorageProbe { stage: ProbeStage::AwaitSd, emmc: ok, ..p },
            st,
            Step::Do(Action::Run(RkCommand::ChangeStorage { storage: STORAGE_SD })),
        ),
        (ProbeStage::AwaitSd, Event::Ran(ok)) => (
            StorageProbe { stage: ProbeStage::AwaitSpiNor, sd: ok, ..p },
            st,
            Step::Do(Action::Run(RkCommand::ChangeStorage { storage: STORAGE_SPI_NOR })),
        ),
        (ProbeStage::AwaitSpiNor, Event::Ran(ok)) => {
            let mask = mask_spec(p.emmc, p.sd, ok);
            let sel = preferred_spec(mask);
            let st1 = DeviceState { available_storage_mask: mask, ..st };
            if sel != 0 {
                (
                    StorageProbe { stage: ProbeStage::AwaitSelect(sel), ..p },
                    st1,
                    Step::Do(Action::Run(RkCommand::ChangeStorage { storage: sel })),
                )
            } else {
                (
                    StorageProbe { stage: ProbeStage::Done, ..p },
                    DeviceState { storage_probe_complete: true, ..st1 },
                    Step::Finish(()),
                )
            }
        },
        (ProbeStage::AwaitSelect(sel), Event::Ran(_)) => {
            let st1 = DeviceState { selected_storage: sel, ..st };
            if sel == STORAGE_SD {
                (
                    StorageProbe { stage: ProbeStage::Done, ..p },
                    DeviceState { last_storage_sectors: 0, storage_probe_complete: true, ..st1 },
                    Step::Finish(()),
                )
            } else {
                (StorageProbe { stage: ProbeStage::AwaitSize, ..p }, st1, Step::Do(Action::ReadFlashSize))
            }
        },
        (ProbeStage::AwaitSize, Event::FlashSize(n)) => (
            StorageProbe { stage: ProbeStage::Done, ..p },
            DeviceState { last_storage_sectors: n, storage_probe_complete: true, ..st },
            Step::Finish(()),
        ),
        _ => (p, st, Step::Finish(())),
    }
}

impl StorageProbe {
    /// A probe that has not begun.
    pub fn new() -> (res: Self)
        ensures
            res == StorageProbe::new_spec(),
    {
        StorageProbe { stage: ProbeStage::Start, emmc: false, sd: false }
    }

    /// Takes the answer to the last action and says what comes next.
    pub fn step(&mut self, st: &mut DeviceState, ev: Event) -> (res: Step<()>)
        requires
            probe_accepts(old(self).stage, ev),
        ensures
            (*final(self), *final(st), res) == probe_next(*old(self), *old(st), ev),
    {
        match (self.stage, ev) {
            (ProbeStage::Start, _) => {
                self.stage = ProbeStage::AwaitEmmc;
                Step::Do(Action::Run(RkCommand::ChangeStorage { storage: STORAGE_EMMC }))
            },
            (ProbeStage::AwaitEmmc, Event::Ran(ok)) => {
                self.stage = ProbeStage::AwaitSd;
                self.emmc = ok;
                Step::Do(Action::Run(RkCommand::ChangeStorage { storage: STORAGE_SD }))
            },
            (ProbeStage::AwaitSd, Event::Ran(ok)) => {
                self.stage = ProbeStage::AwaitSpiNor;
                self.sd = ok;
                Step::Do(Action::Run(RkCommand::ChangeStorage { storage: STORAGE_SPI_NOR }))
            },
            (ProbeStage::AwaitSpiNor, Event::Ran(ok)) => {
                let mask = storage_mask(self.emmc, self.sd, ok);
                let sel = preferred_storage(mask);
                st.available_storage_mask = mask;
                if sel != 0 {
                    self.stage = ProbeStage::AwaitSelect(sel);
                    Step::Do(Action::Run(RkCommand::ChangeStorage { storage: sel }))
                } else {
                    self.stage = ProbeStage::Done;
                    st.storage_probe_complete = true;
                    Step::Finish(())
                }
            },
            (ProbeStage::AwaitSelect(sel), Event::Ran(_)) => {
                st.selected_storage = sel;
                if sel == STORAGE_SD {
                    self.stage = ProbeStage::Done;
                    st.last_storage_sectors = 0;
                    st.storage_probe_complete = true;
                    Step::Finish(())
                } else {
                    self.stage = ProbeStage::AwaitSize;
                    Step::Do(Action::ReadFlashSize)
                }
            },
            (ProbeStage::AwaitSize, Event::FlashSize(n)) => {
                self.stage = ProbeStage::Done;
                st.last_storage_sectors = n;
                st.storage_probe_complete = true;
                Step::Finish(())
            },
            _ => Step::Finish(()),
        }
    }
}

/// Law: a probe whose three `cs` checks gave `e`, `s` and `n` records the
/// targets found, selects the preferred one, and knows its size only if it
/// is not the SD card; when nothing answers, nothing is selected anew.
pub proof fn law_probe_outcome(st: DeviceState, e: bool, s: bool, n: bool, sel_ok: bool, size: u64)
    ensures
        ({
            let (p1, st1, _) = probe_next(StorageProbe::new_spec(), st, Event::Begin);
            let (p2, st2, _) = probe_next(p1, st1, Event::Ran(e));
            let (p3, st3, _) = probe_next(p2, st2, Event::Ran(s));
            let (p4, st4, r4) = probe_next(p3, st3, Event::Ran(n));
            let sel = preferred_spec(mask_spec(e, s, n));
            &&& st4.available_storage_mask == mask_spec(e, s, n)
            &&& sel == 0 ==> r4 is Finish && st4.storage_probe_complete && st4.selected_storage
                == st.selected_storage
            &&& sel != 0 ==> ({
                let (p5, st5, r5) = probe_next(p4, st4, Event::Ran(sel_ok));
                &&& st5.selected_storage == sel
                &&& sel == STORAGE_SD ==> r5 is Finish && st5.last_storage_sectors == 0
                    && st5.storage_probe_complete
                &&& sel != STORAGE_SD ==> ({
                    let (p6, st6, r6) = probe_next(p5, st5, Event::FlashSize(size));
                    &&& r6 is Finish && st6.last_storage_sectors == size && st6.storage_probe_complete
                    &&& st6.selected_storage == sel
                })
            })
        }),
{
}

impl StorageProbe {
    /// A probe that has not begun.
    pub open spec fn new_spec() -> StorageProbe {
        StorageProbe { stage: ProbeStage::Start, emmc: false, sd: false }
    }
}

// ----- Connect -----

/// How an operation that reports to the interface ended.
#[derive(Clone, Copy)]
pub enum Outcome {
    Succeeded,
    Cancelled,
    Failed(Failure),
}

/// The end of a connect: whether to refresh the device display, and the
/// completion to report (none when the background task reports it, or when
/// cancel already did).
#[derive(Clone, Copy)]
pub struct ConnectEnd {
    pub push_ui: bool,
    pub outcome: Option<Outcome>,
}

/// Where a connect stands.
#[derive(Clone, Copy)]
pub enum ConnectStage {
    Start,
    AwaitTestDevice,
    AwaitChipInfo,
    Probing(StorageProbe),
    AwaitLoader(&'static str),
    AwaitTask,
    Done,
}

/// The connect of the Connect button, once the command has claimed the
/// device: `td` tells whether the loader already runs; if so the chip info
/// is read and the storage probed; if not, the SPL loader for the device's
/// IDs is downloaded by a background task. A cancel request is honoured
/// after `td`, after `rci` and after the probe.
#[derive(Clone, Copy)]
pub struct Connect {
    pub stage: ConnectStage,
}

/// The event that a connect in stage `stage` waits for.
pub open spec fn connect_accepts(stage: ConnectStage, ev: Event) -> bool {
    match stage {
        ConnectStage::Start => ev is Begin,
        ConnectStage::AwaitTestDevice | ConnectStage::AwaitChipInfo => ev is Ran,
        ConnectStage::Probing(p) => probe_accepts(p.stage, ev),
        ConnectStage::AwaitLoader(_) => ev is LoaderLocated,
        ConnectStage::AwaitTask => ev is TaskStarted,
        ConnectStage::Done => false,
    }
}

/// The check for a cancel request: when there is one, it is taken back,
/// the device let go, and the connect ends, reported as cancelled if it
/// still held the device; `keep_loader` says the loader is known to run
/// (then the display is refreshed), else the connect request is dropped.
pub open spec fn cancel_check(st: DeviceState, keep_loader: bool) -> Option<(DeviceState, ConnectEnd)> {
    if !st.cancel_requested {
        None
    } else {
        let st1 = DeviceState { cancel_requested: false, flash_running: false, ..st };
        let outcome = if st.flash_running {
            Some(Outcome::Cancelled)
        } else {
            None
        };
        if keep_loader {
            Some((DeviceState { loader_ready: true, ..st1 }, ConnectEnd { push_ui: true, outcome }))
        } else {
            Some((DeviceState { connect_requested: false, ..st1 }, ConnectEnd { push_ui: false, outcome }))
        }
    }
}

/// The connect ends with a failure: the connect request is dropped.
pub open spec fn connect_fails(st: DeviceState, f: Failure) -> (Connect, DeviceState, Step<ConnectEnd>) {
    (
        Connect { stage: ConnectStage::Done },
        DeviceState { connect_requested: false, ..st },
        Step::Finish(ConnectEnd { push_ui: false, outcome: Some(Outcome::Failed(f)) }),
    )
}

/// One step of a connect.
pub open spec fn connect_next(c: Connect, st: DeviceState, ev: Event) -> (Connect, DeviceState, Step<ConnectEnd>) {
    match (c.stage, ev) {
        (ConnectStage::Start, _) => (
            Connect { stage: ConnectStage::AwaitTestDevice },
            st,
            Step::Do(Action::Run(RkCommand::TestDevice)),
        ),
        (ConnectStage::AwaitTestDevice, Event::Ran(ready)) => match cancel_check(st, false) {
            Some((st1, end)) => (Connect { stage: ConnectStage::Done }, st1, Step::Finish(end)),
            None => if ready {
                (Connect { stage: ConnectStage::AwaitChipInfo }, st, Step::Do(Action::Run(RkCommand::ReadChipInfo)))
            } else {
                let st1 = DeviceState { flash_running: false, ..st };
                let vid = st.last_vid;
                let pid = st.last_pid;
                if forall|i: int| 0 <= i < loader_table().len() ==> !row_matches(i, vid, pid) {
                    connect_fails(st1, Failure::NoLoaderMapping(vid, pid))
                } else {
                    let i = choose|i: int|
                        0 <= i < loader_table().len() && row_matches(i, vid, pid) && forall|j: int|
                            0 <= j < i ==> !row_matches(j, vid, pid);
                    connect_maskrom(st1, i)
                }
            },
        },
        (ConnectStage::AwaitChipInfo, Event::Ran(_)) => match cancel_check(st, false) {
            Some((st1, end)) => (Connect { stage: ConnectStage::Done }, st1, Step::Finish(end)),
            None => {
                let (p1, st1, r) = probe_next(StorageProbe::new_spec(), st, Event::Begin);
                match r {
                    Step::Do(a) => (Connect { stage: ConnectStage::Probing(p1) }, st1, Step::Do(a)),
                    Step::Finish(_) => connect_probed(st1),
                }
            },
        },
        (ConnectStage::Probing(p), _) => {
            let (p1, st1, r) = probe_next(p, st, ev);
            match r {
                Step::Do(a) => (Connect { stage: ConnectStage::Probing(p1) }, st1, Step::Do(a)),
                Step::Finish(_) => connect_probed(st1),
            }
        },
        (ConnectStage::AwaitLoader(f), Event::LoaderLocated(found)) => match found {
            None => connect_fails(st, Failure::LoaderNotFound(f)),
            Some(path) => (
                Connect { stage: ConnectStage::AwaitTask },
                st,
                Step::Do(Action::StartTask(RkCommand::DownloadBoot { loader: path })),
            ),
        },
        (ConnectStage::AwaitTask, Event::TaskStarted(ok)) => if ok {
            (Connect { stage: ConnectStage::Done }, st, Step::Finish(ConnectEnd { push_ui: false, outcome: None }))
        } else {
            connect_fails(st, Failure::Busy)
        },
        _ => (c, st, Step::Finish(ConnectEnd { push_ui: false, outcome: None })),
    }
}

/// The maskrom path once row `i` of the loader map is the device's: fail
/// when no loader is bundled for it, else look for the loader file.
pub open spec fn connect_maskrom(st: DeviceState, i: int) -> (Connect, DeviceState, Step<ConnectEnd>) {
    match loader_table()[i].filename {
        None => connect_fails(st, Failure::NoLoaderBundled(loader_table()[i].soc)),
        Some(f) => (Connect { stage: ConnectStage::AwaitLoader(f) }, st, Step::Do(Action::LocateLoader(f))),
    }
}

/// After the probe on the loader-ready path: a last cancel check (keeping
/// the loader), then the device is let go, the loader marked as running,
/// and the connect reported as a success.
pub open spec fn connect_probed(st: DeviceState) -> (Connect, DeviceState, Step<ConnectEnd>) {
    match cancel_check(st, true) {
        Some((st1, end)) => (Connect { stage: ConnectStage::Done }, st1, Step::Finish(end)),
        None => (
            Connect { stage: ConnectStage::Done },
            DeviceState { flash_running: false, loader_ready: true, ..st },
            Step::Finish(ConnectEnd { push_ui: true, outcome: Some(Outcome::Succeeded) }),
        ),
    }
}

/// The check for a cancel request (see [`cancel_check`]).
fn check_cancel(st: &mut DeviceState, keep_loader: bool) -> (res: Option<ConnectEnd>)
    ensures
        match cancel_check(*old(st), keep_loader) {
            Some((st1, end)) => res == Some(end) && *final(st) == st1,
            None => res is None && *final(st) == *old(st),
        },
{
    if !st.cancel_requested {
        return None;
    }
    st.cancel_requested = false;
    let still_claimed = st.flash_running;
    st.flash_running = false;
    let outcome = if still_claimed {
        Some(Outcome::Cancelled)
    } else {
        None
    };
    if keep_loader {
        st.loader_ready = true;
        Some(ConnectEnd { push_ui: true, outcome })
    } else {
        st.connect_requested = false;
        Some(ConnectEnd { push_ui: false, outcome })
    }
}

impl Connect {
    /// A connect that has not begun.
    pub fn new() -> (res: Self)
        ensures
            res.stage is Start,
    {
        Connect { stage: ConnectStage::Start }
    }

    fn finish_probe(&mut self, st: &mut DeviceState) -> (res: Step<ConnectEnd>)
        ensures
            (*final(self), *final(st), res) == connect_probed(*old(st)),
    {
        self.stage = ConnectStage::Done;
        match check_cancel(st, true) {
            Some(end) => Step::Finish(end),
            None => {
                st.flash_running = false;
                st.loader_ready = true;
                Step::Finish(ConnectEnd { push_ui: true, outcome: Some(Outcome::Succeeded) })
            },
        }
    }

    fn fail(&mut self, st: &mut DeviceState, f: Failure) -> (res: Step<ConnectEnd>)
        ensures
            (*final(self), *final(st), res) == connect_fails(*old(st), f),
    {
        self.stage = ConnectStage::Done;
        st.connect_requested = false;
        Step::Finish(ConnectEnd { push_ui: false, outcome: Some(Outcome::Failed(f)) })
    }

    /// Takes the answer to the last action and says what comes next.
    pub fn step(&mut self, st: &mut DeviceState, ev: Event) -> (res: Step<ConnectEnd>)
        requires
            connect_accepts(old(self).stage, ev),
        ensures
            (*final(self), *final(st), res) == connect_next(*old(self), *old(st), ev),
    {
        match (self.stage, ev) {
            (ConnectStage::Start, _) => {
                self.stage = ConnectStage::AwaitTestDevice;
                Step::Do(Action::Run(RkCommand::TestDevice))
            },
            (ConnectStage::AwaitTestDevice, Event::Ran(ready)) => {
                if let Some(end) = check_cancel(st, false) {
                    self.stage = ConnectStage::Done;
                    return Step::Finish(end);
                }
                if ready {
                    self.stage = ConnectStage::AwaitChipInfo;
                    return Step::Do(Action::Run(RkCommand::ReadChipInfo));
                }
                st.flash_running = false;
                let vid = st.last_vid;
                let pid = st.last_pid;
                match entry_for(vid, pid) {
                    None => self.fail(st, Failure::NoLoaderMapping(vid, pid)),
                    Some(e) => {
                        let ghost i = choose|i: int|
                            0 <= i < loader_table().len() && row_matches(i, vid, pid) && e
                                == loader_table()[i] && forall|j: int| 0 <= j < i ==> !row_matches(j, vid, pid);
                        proof {
                            assert forall|k: int|
                                0 <= k < loader_table().len() && row_matches(k, vid, pid) && forall|j: int|
                                    0 <= j < k ==> !row_matches(j, vid, pid) implies k == i by {
                                if k < i {
                                    assert(!row_matches(k, vid, pid));
                                }
                                if i < k {
                                    assert(!row_matches(i, vid, pid));
                                }
                            }
                            let k = choose|i: int|
                                0 <= i < loader_table().len() && row_matches(i, vid, pid) && forall|j: int|
                                    0 <= j < i ==> !row_matches(j, vid, pid);
                            assert(0 <= k < loader_table().len() && row_matches(k, vid, pid) && forall|j: int|
                                0 <= j < k ==> !row_matches(j, vid, pid));
                            assert(k == i);
                        }
                        match e.filename {
                            None => self.fail(st, Failure::NoLoaderBundled(e.soc)),
                            Some(f) => {
                                self.stage = ConnectStage::AwaitLoader(f);
                                Step::Do(Action::LocateLoader(f))
                            },
                        }
                    },
                }
            },
            (ConnectStage::AwaitChipInfo, Event::Ran(_)) => {
                if let Some(end) = check_cancel(st, false) {
                    self.stage = ConnectStage::Done;
                    return Step::Finish(end);
                }
                let mut p = StorageProbe::new();
                match p.step(st, Event::Begin) {
                    Step::Do(a) => {
                        self.stage = ConnectStage::Probing(p);
                        Step::Do(a)
                    },
                    Step::Finish(_) => self.finish_probe(st),
                }
            },
            (ConnectStage::Probing(p0), ev) => {
                let mut p = p0;
                match p.step(st, ev) {
                    Step::Do(a) => {
                        self.stage = ConnectStage::Probing(p);
                        Step::Do(a)
                    },
                    Step::Finish(_) => self.finish_probe(st),
                }
            },
            (ConnectStage::AwaitLoader(f), Event::LoaderLocated(found)) => match found {
                None => self.fail(st, Failure::LoaderNotFound(f)),
                Some(path) => {
                    self.stage = ConnectStage::AwaitTask;
                    Step::Do(Action::StartTask(RkCommand::DownloadBoot { loader: path }))
                },
            },
            (ConnectStage::AwaitTask, Event::TaskStarted(ok)) => {
                if ok {
                    self.stage = ConnectStage::Done;
                    Step::Finish(ConnectEnd { push_ui: false, outcome: None })
                } else {
                    self.fail(st, Failure::Busy)
                }
            },
            _ => Step::Finish(ConnectEnd { push_ui: false, outcome: None }),
        }
    }
}


/// Law: a connect to a device whose loader already runs, with no cancel on
/// the way, probes the storage and ends connected: the loader marked as
/// running, the targets found recorded, the device let go, the display
/// refreshed and the connect reported as a success.
pub proof fn law_connect_with_running_loader(
    st: DeviceState,
    chip_ok: bool,
    e: bool,
    s: bool,
    n: bool,
    sel_ok: bool,
    size: u64,
)
    requires
        !st.cancel_requested,
    ensures
        ({
            let (c1, st1, _) = connect_next(Connect { stage: ConnectStage::Start }, st, Event::Begin);
            let (c2, st2, r2) = connect_next(c1, st1, Event::Ran(true));
            let (c3, st3, _) = connect_next(c2, st2, Event::Ran(chip_ok));
            let (c4, st4, _) = connect_next(c3, st3, Event::Ran(e));
            let (c5, st5, _) = connect_next(c4, st4, Event::Ran(s));
            let (c6, st6, r6) = connect_next(c5, st5, Event::Ran(n));
            let sel = preferred_spec(mask_spec(e, s, n));
            let success = Step::Finish(ConnectEnd { push_ui: true, outcome: Some(Outcome::Succeeded) });
            &&& r2 == Step::<ConnectEnd>::Do(Action::Run(RkCommand::ReadChipInfo))
            &&& sel == 0 ==> r6 == success && st6.loader_ready && !st6.flash_running
                && st6.storage_probe_complete && st6.available_storage_mask == 0
            &&& sel != 0 ==> ({
                let (c7, st7, r7) = connect_next(c6, st6, Event::Ran(sel_ok));
                &&& sel == STORAGE_SD ==> r7 == success && st7.loader_ready && !st7.flash_running
                    && st7.selected_storage == sel && st7.storage_probe_complete
                &&& sel != STORAGE_SD ==> ({
                    let (c8, st8, r8) = connect_next(c7, st7, Event::FlashSize(size));
                    &&& r8 == success && st8.loader_ready && !st8.flash_running
                    &&& st8.selected_storage == sel && st8.last_storage_sectors == size
                    &&& st8.available_storage_mask == mask_spec(e, s, n) && st8.storage_probe_complete
                })
            })
        }),
{
    law_probe_outcome(st, e, s, n, sel_ok, size);
}

/// Law: a connect to a device in maskrom mode, with no cancel on the way,
/// lets the device go and looks for the loader of the first row of the
/// loader map with the device's IDs; once found, that loader is downloaded
/// by a background task, which reports the end itself; when it is missing,
/// the connect fails naming it and the connect request is dropped.
pub proof fn law_connect_in_maskrom(st: DeviceState, i: int, f: &'static str, path: String)
    requires
        !st.cancel_requested,
        0 <= i < loader_table().len(),
        row_matches(i, st.last_vid, st.last_pid),
        forall|j: int| 0 <= j < i ==> !row_matches(j, st.last_vid, st.last_pid),
        loader_table()[i].filename == Some(f),
    ensures
        ({
            let (c1, st1, _) = connect_next(Connect { stage: ConnectStage::Start }, st, Event::Begin);
            let (c2, st2, r2) = connect_next(c1, st1, Event::Ran(false));
            let (c3, st3, r3) = connect_next(c2, st2, Event::LoaderLocated(Some(path)));
            let (c4, st4, r4) = connect_next(c3, st3, Event::TaskStarted(true));
            let (c5, st5, r5) = connect_next(c2, st2, Event::LoaderLocated(None));
            &&& r2 == Step::<ConnectEnd>::Do(Action::LocateLoader(f)) && !st2.flash_running
            &&& r3 == Step::<ConnectEnd>::Do(Action::StartTask(RkCommand::DownloadBoot { loader: path }))
            &&& r4 == Step::Finish(ConnectEnd { push_ui: false, outcome: None })
            &&& r5 == Step::Finish(ConnectEnd { push_ui: false, outcome: Some(Outcome::Failed(Failure::LoaderNotFound(f))) })
            &&& !st5.connect_requested
        }),
{
    let vid = st.last_vid;
    let pid = st.last_pid;
    let k = choose|k: int|
        0 <= k < loader_table().len() && row_matches(k, vid, pid) && forall|j: int|
            0 <= j < k ==> !row_matches(j, vid, pid);
    assert(0 <= k < loader_table().len() && row_matches(k, vid, pid));
    assert(k == i) by {
        if k < i {
            assert(!row_matches(k, vid, pid));
        }
        if i < k {
            assert(!row_matches(i, vid, pid));
        }
    }
}

// ----- Background tasks -----

/// What a background task does on success besides reporting: connect the
/// loader (after `db`), forget the connection (after `rd`), or nothing.
#[derive(Clone, Copy, PartialEq, Eq, Structural)]
pub enum TaskKind {
    Plain,
    Connect,
    Disconnect,
}

impl DeviceState {
    /// Takes the device for a background task and clears an old cancel
    /// request; `false` when another operation holds the device.
    pub fn begin_task(&mut self) -> (res: bool)
        ensures
            res == !old(self).flash_running,
            res ==> *final(self) == (DeviceState { flash_running: true, cancel_requested: false, ..*old(self) }),
            !res ==> *final(self) == *old(self),
    {
        if self.flash_running {
            return false;
        }
        self.flash_running = true;
        self.cancel_requested = false;
        true
    }
}

/// A task succeeded: exit code 0, no message, not cancelled.
pub open spec fn task_success(r: crate::rkdev::ProcessResult) -> bool {
    r.exit_code == 0 && r.error_message@.len() == 0 && !r.was_cancelled
}

/// The completion reported for a finished task: success, cancellation, or
/// failure with the task's message (or its exit code when it has none).
pub open spec fn task_report_spec(r: crate::rkdev::ProcessResult) -> (bool, bool, Seq<char>) {
    let success = task_success(r);
    let err = if !success && !r.was_cancelled {
        if r.error_message@.len() == 0 {
            "rkdeveloptool failed with exit code "@ + crate::numfmt::signed_decimal(r.exit_code as int)
        } else {
            r.error_message@
        }
    } else {
        Seq::empty()
    };
    (success, r.was_cancelled, err)
}

/// The completion reported for a finished task (see [`task_report_spec`]).
pub fn task_report(r: &crate::rkdev::ProcessResult) -> (res: (bool, bool, String))
    ensures
        (res.0, res.1, res.2@) == task_report_spec(*r),
{
    let cancelled = r.was_cancelled;
    let success = r.exit_code == 0 && r.error_message.as_str().is_empty() && !cancelled;
    let err = if !success && !cancelled {
        if r.error_message.as_str().is_empty() {
            let mut m = crate::text::owned("rkdeveloptool failed with exit code ");
            let code = crate::numfmt::i32_to_decimal(r.exit_code);
            m.append(code.as_str());
            m
        } else {
            crate::text::owned(r.error_message.as_str())
        }
    } else {
        String::new()
    };
    (success, cancelled, err)
}

/// Where the end of a task stands.
#[derive(Clone, Copy)]
pub enum TaskEndStage {
    Start,
    AwaitChipInfo,
    Probing(StorageProbe),
    Done,
}

/// What happens when a background task ends: after a successful `db` the
/// chip info is read, the storage probed and the loader marked as running;
/// after a successful `rd` the connection is forgotten; in every case the
/// device is let go. The result says whether to refresh the device display.
#[derive(Clone, Copy)]
pub struct TaskEnd {
    pub stage: TaskEndStage,
    pub success: bool,
    pub kind: TaskKind,
}

/// The event that a task end in stage `stage` waits for.
pub open spec fn task_end_accepts(stage: TaskEndStage, ev: Event) -> bool {
    match stage {
        TaskEndStage::Start => ev is Begin,
        TaskEndStage::AwaitChipInfo => ev is Ran,
        TaskEndStage::Probing(p) => probe_accepts(p.stage, ev),
        TaskEndStage::Done => false,
    }
}

/// After the probe: the loader runs; the display is refreshed.
pub open spec fn task_end_probed(t: TaskEnd, st: DeviceState) -> (TaskEnd, DeviceState, Step<bool>) {
    (
        TaskEnd { stage: TaskEndStage::Done, ..t },
        DeviceState { loader_ready: true, flash_running: false, ..st },
        Step::Finish(true),
    )
}

/// One step of the end of a task.
pub open spec fn task_end_next(t: TaskEnd, st: DeviceState, ev: Event) -> (TaskEnd, DeviceState, Step<bool>) {
    match t.stage {
        TaskEndStage::Start => if t.success && t.kind == TaskKind::Connect {
            (
                TaskEnd { stage: TaskEndStage::AwaitChipInfo, ..t },
                st,
                Step::Do(Action::Run(RkCommand::ReadChipInfo)),
            )
        } else if t.success && t.kind == TaskKind::Disconnect {
            (
                TaskEnd { stage: TaskEndStage::Done, ..t },
                DeviceState { flash_running: false, ..disconnected(st) },
                Step::Finish(true),
            )
        } else {
            (TaskEnd { stage: TaskEndStage::Done, ..t }, DeviceState { flash_running: false, ..st }, Step::Finish(false))
        },
        TaskEndStage::AwaitChipInfo => {
            let (p1, st1, r) = probe_next(StorageProbe::new_spec(), st, Event::Begin);
            match r {
                Step::Do(a) => (TaskEnd { stage: TaskEndStage::Probing(p1), ..t }, st1, Step::Do(a)),
                Step::Finish(_) => task_end_probed(t, st1),
            }
        },
        TaskEndStage::Probing(p) => {
            let (p1, st1, r) = probe_next(p, st, ev);
            match r {
                Step::Do(a) => (TaskEnd { stage: TaskEndStage::Probing(p1), ..t }, st1, Step::Do(a)),
                Step::Finish(_) => task_end_probed(t, st1),
            }
        },
        TaskEndStage::Done => (t, st, Step::Finish(false)),
    }
}

impl TaskEnd {
    /// The end of a task of kind `kind` that succeeded or not.
    pub fn new(success: bool, kind: TaskKind) -> (res: Self)
        ensures
            res == (TaskEnd { stage: TaskEndStage::Start, success, kind }),
    {
        TaskEnd { stage: TaskEndStage::Start, success, kind }
    }

    fn probed(&mut self, st: &mut DeviceState) -> (res: Step<bool>)
        ensures
            (*final(self), *final(st), res) == task_end_probed(*old(self), *old(st)),
    {
        self.stage = TaskEndStage::Done;
        st.loader_ready = true;
        st.flash_running = false;
        Step::Finish(true)
    }

    /// Takes the answer to the last action and says what comes next.
    pub fn step(&mut self, st: &mut DeviceState, ev: Event) -> (res: Step<bool>)
        requires
            task_end_accepts(old(self).stage, ev),
        ensures
            (*final(self), *final(st), res) == task_end_next(*old(self), *old(st), ev),
    {
        match self.stage {
            TaskEndStage::Start => {
                if self.success && self.kind == TaskKind::Connect {
                    self.stage = TaskEndStage::AwaitChipInfo;
                    Step::Do(Action::Run(RkCommand::ReadChipInfo))
                } else if self.success && self.kind == TaskKind::Disconnect {
                    self.stage = TaskEndStage::Done;
                    st.forget_connection();
                    st.flash_running = false;
                    Step::Finish(true)
                } else {
                    self.stage = TaskEndStage::Done;
                    st.flash_running = false;
                    Step::Finish(false)
                }
            },
            TaskEndStage::AwaitChipInfo => {
                let mut p = StorageProbe::new();
                match p.step(st, Event::Begin) {
                    Step::Do(a) => {
                        self.stage = TaskEndStage::Probing(p);
                        Step::Do(a)
                    },
                    Step::Finish(_) => self.probed(st),
                }
            },
            TaskEndStage::Probing(p0) => {
                let mut p = p0;
                match p.step(st, ev) {
                    Step::Do(a) => {
                        self.stage = TaskEndStage::Probing(p);
                        Step::Do(a)
                    },
                    Step::Finish(_) => self.probed(st),
                }
            },
            TaskEndStage::Done => Step::Finish(false),
        }
    }
}

/// Law: when a background task ends, the device is let go at once unless a
/// loader download succeeded (then the chip info is read first); a reset
/// that succeeded forgets the connection and refreshes the display.
pub proof fn law_task_end_releases(st: DeviceState, success: bool, kind: TaskKind)
    ensures
        ({
            let (t1, st1, r1) = task_end_next(TaskEnd { stage: TaskEndStage::Start, success, kind }, st, Event::Begin);
            &&& success && kind == TaskKind::Connect ==> r1 == Step::<bool>::Do(Action::Run(RkCommand::ReadChipInfo))
                && st1 == st
            &&& !(success && kind == TaskKind::Connect) ==> r1 == Step::<bool>::Finish(
                success && kind == TaskKind::Disconnect,
            ) && !st1.flash_running
            &&& success && kind == TaskKind::Disconnect ==> st1 == DeviceState { flash_running: false, ..disconnected(st) }
            &&& !success ==> st1 == DeviceState { flash_running: false, ..st }
        }),
{
}

// ----- Secure erase -----

/// Where the preparation of a secure erase stands.
#[derive(Clone, Copy)]
pub enum EraseStage {
    Start,
    AwaitSize(u32),
    Done,
}

/// The preparation of a secure erase: a target must be selected and the
/// device free; the size is read (a cached size wins over it) and must be
/// known. The result is the target and its size in sectors.
#[derive(Clone, Copy)]
pub struct SecureErase {
    pub stage: EraseStage,
}

/// The event that a secure erase in stage `stage` waits for.
pub open spec fn erase_accepts(stage: EraseStage, ev: Event) -> bool {
    match stage {
        EraseStage::Start => ev is Begin,
        EraseStage::AwaitSize(_) => ev is FlashSize,
        EraseStage::Done => false,
    }
}

/// The size to use: a cached size wins over the one just read.
pub open spec fn known_size(cached: u64, read: u64) -> u64 {
    if cached != 0 {
        cached
    } else {
        read
    }
}

/// One step of the preparation of a secure erase.
pub open spec fn erase_next(e: SecureErase, st: DeviceState, ev: Event) -> (SecureErase, DeviceState, Step<Result<(u32, u64), Failure>>) {
    match (e.stage, ev) {
        (EraseStage::Start, _) => {
            let storage = st.selected_storage;
            if storage == 0 {
                (SecureErase { stage: EraseStage::Done }, st, Step::Finish(Err(Failure::NoStorageTarget)))
            } else if st.flash_running {
                (SecureErase { stage: EraseStage::Done }, st, Step::Finish(Err(Failure::Busy)))
            } else {
                (
                    SecureErase { stage: EraseStage::AwaitSize(storage) },
                    DeviceState { flash_running: true, ..st },
                    Step::Do(Action::ReadFlashSize),
                )
            }
        },
        (EraseStage::AwaitSize(storage), Event::FlashSize(n)) => {
            let st1 = DeviceState { flash_running: false, ..st };
            let total = known_size(st.last_storage_sectors, n);
            if total == 0 {
                (SecureErase { stage: EraseStage::Done }, st1, Step::Finish(Err(Failure::SizeUnknown(storage))))
            } else {
                (SecureErase { stage: EraseStage::Done }, st1, Step::Finish(Ok((storage, total))))
            }
        },
        _ => (e, st, Step::Finish(Err(Failure::Busy))),
    }
}

impl SecureErase {
    /// A secure erase that has not begun.
    pub fn new() -> (res: Self)
        ensures
            res.stage is Start,
    {
        SecureErase { stage: EraseStage::Start }
    }

    /// Takes the answer to the last action and says what comes next.
    pub fn step(&mut self, st: &mut DeviceState, ev: Event) -> (res: Step<Result<(u32, u64), Failure>>)
        requires
            erase_accepts(old(self).stage, ev),
        ensures
            (*final(self), *final(st), res) == erase_next(*old(self), *old(st), ev),
    {
        match (self.stage, ev) {
            (EraseStage::Start, _) => {
                let storage = st.selected_storage;
                if storage == 0 {
                    self.stage = EraseStage::Done;
                    return Step::Finish(Err(Failure::NoStorageTarget));
                }
                if !st.try_claim() {
                    self.stage = EraseStage::Done;
                    return Step::Finish(Err(Failure::Busy));
                }
                self.stage = EraseStage::AwaitSize(storage);
                Step::Do(Action::ReadFlashSize)
            },
            (EraseStage::AwaitSize(storage), Event::FlashSize(n)) => {
                st.release();
                self.stage = EraseStage::Done;
                let total = if st.last_storage_sectors != 0 {
                    st.last_storage_sectors
                } else {
                    n
                };
                if total == 0 {
                    Step::Finish(Err(Failure::SizeUnknown(storage)))
                } else {
                    Step::Finish(Ok((storage, total)))
                }
            },
            _ => Step::Finish(Err(Failure::Busy)),
        }
    }
}

// ----- Backup -----

/// How the preparation of a backup ends: a failure; a question to the user
/// (no partition table, so the whole target of that many sectors would be
/// read); or the read of that many sectors of the target.
#[derive(Clone, Copy)]
pub enum BackupPlan {
    Failed(Failure),
    NeedsConfirmation(u64),
    Read { storage: u32, sectors: u64 },
}

/// Where the preparation of a backup stands.
#[derive(Clone, Copy)]
pub enum BackupStage {
    Start,
    AwaitGpt(u32),
    AwaitSize(u32, u64),
    Done,
}

/// The preparation of a backup into a chosen file: the end of the last
/// partition bounds what is read; without a partition table the whole
/// target is read, but only once the user confirmed (`force`).
#[derive(Clone, Copy)]
pub struct Backup {
    pub stage: BackupStage,
    pub has_destination: bool,
    pub force: bool,
}

/// The event that a backup in stage `stage` waits for.
pub open spec fn backup_accepts(stage: BackupStage, ev: Event) -> bool {
    match stage {
        BackupStage::Start => ev is Begin,
        BackupStage::AwaitGpt(_) => match ev {
            Event::Gpt(g) => g != Some(u64::MAX),
            _ => false,
        },
        BackupStage::AwaitSize(_, _) => ev is FlashSize,
        BackupStage::Done => false,
    }
}

/// One step of the preparation of a backup.
pub open spec fn backup_next(b: Backup, st: DeviceState, ev: Event) -> (Backup, DeviceState, Step<BackupPlan>) {
    let done = Backup { stage: BackupStage::Done, ..b };
    match (b.stage, ev) {
        (BackupStage::Start, _) => {
            let storage = st.selected_storage;
            if !b.has_destination {
                (done, st, Step::Finish(BackupPlan::Failed(Failure::NoDestination)))
            } else if storage == 0 {
                (done, st, Step::Finish(BackupPlan::Failed(Failure::NoStorageTarget)))
            } else if st.flash_running {
                (done, st, Step::Finish(BackupPlan::Failed(Failure::Busy)))
            } else {
                (
                    Backup { stage: BackupStage::AwaitGpt(storage), ..b },
                    DeviceState { flash_running: true, ..st },
                    Step::Do(Action::ReadGpt),
                )
            }
        },
        (BackupStage::AwaitGpt(storage), Event::Gpt(g)) => {
            let main: u64 = match g {
                Some(l) => (l + 1) as u64,
                None => 0,
            };
            (Backup { stage: BackupStage::AwaitSize(storage, main), ..b }, st, Step::Do(Action::ReadFlashSize))
        },
        (BackupStage::AwaitSize(storage, main), Event::FlashSize(n)) => {
            let st1 = DeviceState { flash_running: false, ..st };
            let total = known_size(st.last_storage_sectors, n);
            if main != 0 {
                (done, st1, Step::Finish(BackupPlan::Read { storage, sectors: main }))
            } else if total == 0 {
                (done, st1, Step::Finish(BackupPlan::Failed(Failure::SizeUnknown(storage))))
            } else if !b.force {
                (done, st1, Step::Finish(BackupPlan::NeedsConfirmation(total)))
            } else {
                (done, st1, Step::Finish(BackupPlan::Read { storage, sectors: total }))
            }
        },
        _ => (b, st, Step::Finish(BackupPlan::Failed(Failure::Busy))),
    }
}

impl Backup {
    /// A backup preparation; `has_destination` is whether a destination
    /// path was given, `force` whether the user confirmed a full read.
    pub fn new(has_destination: bool, force: bool) -> (res: Self)
        ensures
            res == (Backup { stage: BackupStage::Start, has_destination, force }),
    {
        Backup { stage: BackupStage::Start, has_destination, force }
    }

    /// Takes the answer to the last action and says what comes next.
    pub fn step(&mut self, st: &mut DeviceState, ev: Event) -> (res: Step<BackupPlan>)
        requires
            backup_accepts(old(self).stage, ev),
        ensures
            (*final(self), *final(st), res) == backup_next(*old(self), *old(st), ev),
    {
        match (self.stage, ev) {
            (BackupStage::Start, _) => {
                self.stage = BackupStage::Done;
                if !self.has_destination {
                    return Step::Finish(BackupPlan::Failed(Failure::NoDestination));
                }
                let storage = st.selected_storage;
                if storage == 0 {
                    return Step::Finish(BackupPlan::Failed(Failure::NoStorageTarget));
                }
                if !st.try_claim() {
                    return Step::Finish(BackupPlan::Failed(Failure::Busy));
                }
                self.stage = BackupStage::AwaitGpt(storage);
                Step::Do(Action::ReadGpt)
            },
            (BackupStage::AwaitGpt(storage), Event::Gpt(g)) => {
                let main: u64 = match g {
                    Some(l) => l + 1,
                    None => 0,
                };
                self.stage = BackupStage::AwaitSize(storage, main);
                Step::Do(Action::ReadFlashSize)
            },
            (BackupStage::AwaitSize(storage, main), Event::FlashSize(n)) => {
                self.stage = BackupStage::Done;
                st.release();
                let total = if st.last_storage_sectors != 0 {
                    st.last_storage_sectors
                } else {
                    n
                };
                if main != 0 {
                    Step::Finish(BackupPlan::Read { storage, sectors: main })
                } else if total == 0 {
                    Step::Finish(BackupPlan::Failed(Failure::SizeUnknown(storage)))
                } else if !self.force {
                    Step::Finish(BackupPlan::NeedsConfirmation(total))
                } else {
                    Step::Finish(BackupPlan::Read { storage, sectors: total })
                }
            },
            _ => Step::Finish(BackupPlan::Failed(Failure::Busy)),
        }
    }
}

/// Law: a backup reads exactly the sectors up to the end of the last
/// partition when there is a partition table, whatever the size reported
/// and whether the user confirmed anything.
pub proof fn law_backup_reads_to_last_partition(st: DeviceState, last: u64, n: u64, force: bool)
    requires
        st.selected_storage != 0,
        !st.flash_running,
        last < u64::MAX,
    ensures
        ({
            let (b1, st1, r1) = backup_next(Backup { stage: BackupStage::Start, has_destination: true, force }, st, Event::Begin);
            let (b2, st2, r2) = backup_next(b1, st1, Event::Gpt(Some(last)));
            let (b3, st3, r3) = backup_next(b2, st2, Event::FlashSize(n));
            &&& r1 == Step::<BackupPlan>::Do(Action::ReadGpt)
            &&& r3 == Step::Finish(BackupPlan::Read { storage: st.selected_storage, sectors: (last + 1) as u64 })
            &&& !st3.flash_running
        }),
{
}


// ----- Storage size -----

/// How a size query ends: the size in bytes; unknown without an error (the
/// SD card, whose reported size is not trusted); or a failure.
#[derive(Clone, Copy)]
pub enum SizeAnswer {
    Bytes(u64),
    Unknown,
    Failed(Failure),
}

/// The answer for a size in sectors: unreadable when 0, else in bytes.
pub open spec fn sized(storage: u32, sectors: u64) -> SizeAnswer {
    if sectors == 0 {
        SizeAnswer::Failed(Failure::CannotReadSize(storage))
    } else {
        SizeAnswer::Bytes((sectors * 512) as u64)
    }
}

/// Where a size query stands.
#[derive(Clone, Copy)]
pub enum InfoStage {
    Start,
    AwaitSelect(u32),
    AwaitSize(u32),
    Done,
}

/// The size query of the selected target: it needs a connected loader and
/// a selected target; the SD card's size is never shown; a cached size is
/// used as it is, else the target is selected again and its size read and
/// cached.
#[derive(Clone, Copy)]
pub struct StorageInfo {
    pub stage: InfoStage,
}

/// The cached size would be used, and it fits in bytes.
pub open spec fn info_cache_fits(st: DeviceState) -> bool {
    st.selected_storage == 0 || !st.loader_ready || st.selected_storage == STORAGE_SD
        || st.last_storage_sectors <= u64::MAX / 512
}

/// The event that a size query in stage `stage` waits for, with sizes that
/// fit in bytes.
pub open spec fn info_accepts(stage: InfoStage, st: DeviceState, ev: Event) -> bool {
    match stage {
        InfoStage::Start => ev is Begin && info_cache_fits(st),
        InfoStage::AwaitSelect(_) => ev is Ran,
        InfoStage::AwaitSize(_) => match ev {
            Event::FlashSize(n) => n <= u64::MAX / 512,
            _ => false,
        },
        InfoStage::Done => false,
    }
}

/// One step of a size query.
pub open spec fn info_next(q: StorageInfo, st: DeviceState, ev: Event) -> (StorageInfo, DeviceState, Step<SizeAnswer>) {
    let done = StorageInfo { stage: InfoStage::Done };
    match (q.stage, ev) {
        (InfoStage::Start, _) => {
            let storage = st.selected_storage;
            if storage == 0 || !st.loader_ready {
                (done, st, Step::Finish(SizeAnswer::Failed(Failure::NoStorageSelected)))
            } else if storage == STORAGE_SD {
                (done, st, Step::Finish(SizeAnswer::Unknown))
            } else if st.last_storage_sectors == 0 {
                (
                    StorageInfo { stage: InfoStage::AwaitSelect(storage) },
                    st,
                    Step::Do(Action::Run(RkCommand::ChangeStorage { storage })),
                )
            } else {
                (done, st, Step::Finish(sized(storage, st.last_storage_sectors)))
            }
        },
        (InfoStage::AwaitSelect(storage), Event::Ran(ok)) => if !ok {
            (done, st, Step::Finish(SizeAnswer::Failed(Failure::CannotSelect(storage))))
        } else {
            (StorageInfo { stage: InfoStage::AwaitSize(storage) }, st, Step::Do(Action::ReadFlashSize))
        },
        (InfoStage::AwaitSize(storage), Event::FlashSize(n)) => (
            done,
            DeviceState { last_storage_sectors: n, ..st },
            Step::Finish(sized(storage, n)),
        ),
        _ => (q, st, Step::Finish(SizeAnswer::Unknown)),
    }
}

impl StorageInfo {
    /// A size query that has not begun.
    pub fn new() -> (res: Self)
        ensures
            res.stage is Start,
    {
        StorageInfo { stage: InfoStage::Start }
    }

    /// Takes the answer to the last action and says what comes next.
    pub fn step(&mut self, st: &mut DeviceState, ev: Event) -> (res: Step<SizeAnswer>)
        requires
            info_accepts(old(self).stage, *old(st), ev),
        ensures
            (*final(self), *final(st), res) == info_next(*old(self), *old(st), ev),
    {
        match (self.stage, ev) {
            (InfoStage::Start, _) => {
                self.stage = InfoStage::Done;
                let storage = st.selected_storage;
                if storage == 0 || !st.loader_ready {
                    return Step::Finish(SizeAnswer::Failed(Failure::NoStorageSelected));
                }
                if storage == STORAGE_SD {
                    return Step::Finish(SizeAnswer::Unknown);
                }
                let sectors = st.last_storage_sectors;
                if sectors == 0 {
                    self.stage = InfoStage::AwaitSelect(storage);
                    return Step::Do(Action::Run(RkCommand::ChangeStorage { storage }));
                }
                Step::Finish(SizeAnswer::Bytes(sectors * 512))
            },
            (InfoStage::AwaitSelect(storage), Event::Ran(ok)) => {
                if !ok {
                    self.stage = InfoStage::Done;
                    return Step::Finish(SizeAnswer::Failed(Failure::CannotSelect(storage)));
                }
                self.stage = InfoStage::AwaitSize(storage);
                Step::Do(Action::ReadFlashSize)
            },
            (InfoStage::AwaitSize(storage), Event::FlashSize(n)) => {
                self.stage = InfoStage::Done;
                st.last_storage_sectors = n;
                if n == 0 {
                    Step::Finish(SizeAnswer::Failed(Failure::CannotReadSize(storage)))
                } else {
                    Step::Finish(SizeAnswer::Bytes(n * 512))
                }
            },
            _ => Step::Finish(SizeAnswer::Unknown),
        }
    }
}

/// The size answer as the interface takes it.
pub fn storage_info_result(a: SizeAnswer) -> (res: crate::device::StorageInfoResult)
    ensures
        match a {
            SizeAnswer::Bytes(b) => res.success && res.storage_bytes == b && res.error@.len() == 0,
            SizeAnswer::Unknown => !res.success && res.storage_bytes == 0 && res.error@.len() == 0,
            SizeAnswer::Failed(f) => !res.success && res.storage_bytes == 0 && res.error@
                == crate::device::failure_message(f),
        },
{
    match a {
        SizeAnswer::Bytes(b) => crate::device::StorageInfoResult { success: true, storage_bytes: b, error: String::new() },
        SizeAnswer::Unknown => crate::device::StorageInfoResult { success: false, storage_bytes: 0, error: String::new() },
        SizeAnswer::Failed(f) => crate::device::StorageInfoResult { success: false, storage_bytes: 0, error: f.message() },
    }
}

// ----- Selecting a target -----

/// Where the selection of a target stands.
#[derive(Clone, Copy)]
pub enum SelectStage {
    Start,
    AwaitSelect,
    AwaitSize,
    Done,
}

/// The selection of a storage target: the loader must run, the target be
/// known and found by the probe, and the device free; `cs` selects it;
/// its size is read and cached, except for the SD card, whose size is
/// forgotten.
#[derive(Clone, Copy)]
pub struct SelectStorage {
    pub stage: SelectStage,
    pub storage: u32,
}

/// The event that a selection in stage `stage` waits for.
pub open spec fn select_accepts(stage: SelectStage, ev: Event) -> bool {
    match stage {
        SelectStage::Start => ev is Begin,
        SelectStage::AwaitSelect => ev is Ran,
        SelectStage::AwaitSize => ev is FlashSize,
        SelectStage::Done => false,
    }
}

/// One step of a selection.
pub open spec fn select_next(sel: SelectStorage, st: DeviceState, ev: Event) -> (SelectStorage, DeviceState, Step<Result<(), Failure>>) {
    let done = SelectStorage { stage: SelectStage::Done, ..sel };
    let storage = sel.storage;
    match (sel.stage, ev) {
        (SelectStage::Start, _) => if !st.loader_ready {
            (done, st, Step::Finish(Err(Failure::NotConnected)))
        } else if !known_storage(storage) {
            (done, st, Step::Finish(Err(Failure::UnknownStorage)))
        } else if !in_mask(st.available_storage_mask, storage) {
            (done, st, Step::Finish(Err(Failure::NotDetected(storage))))
        } else if st.flash_running {
            (done, st, Step::Finish(Err(Failure::Busy)))
        } else {
            (
                SelectStorage { stage: SelectStage::AwaitSelect, ..sel },
                DeviceState { flash_running: true, ..st },
                Step::Do(Action::Run(RkCommand::ChangeStorage { storage })),
            )
        },
        (SelectStage::AwaitSelect, Event::Ran(ok)) => {
            let st1 = DeviceState { flash_running: false, ..st };
            if !ok {
                (done, st1, Step::Finish(Err(Failure::NotDetected(storage))))
            } else if storage == STORAGE_SD {
                (done, DeviceState { selected_storage: storage, last_storage_sectors: 0, ..st1 }, Step::Finish(Ok(())))
            } else {
                (
                    SelectStorage { stage: SelectStage::AwaitSize, ..sel },
                    DeviceState { selected_storage: storage, ..st1 },
                    Step::Do(Action::ReadFlashSize),
                )
            }
        },
        (SelectStage::AwaitSize, Event::FlashSize(n)) => (
            done,
            DeviceState { last_storage_sectors: n, ..st },
            Step::Finish(Ok(())),
        ),
        _ => (sel, st, Step::Finish(Err(Failure::Busy))),
    }
}

impl SelectStorage {
    /// The selection of `storage`, not begun.
    pub fn new(storage: u32) -> (res: Self)
        ensures
            res == (SelectStorage { stage: SelectStage::Start, storage }),
    {
        SelectStorage { stage: SelectStage::Start, storage }
    }

    /// Takes the answer to the last action and says what comes next.
    pub fn step(&mut self, st: &mut DeviceState, ev: Event) -> (res: Step<Result<(), Failure>>)
        requires
            select_accepts(old(self).stage, ev),
        ensures
            (*final(self), *final(st), res) == select_next(*old(self), *old(st), ev),
    {
        let storage = self.storage;
        match (self.stage, ev) {
            (SelectStage::Start, _) => {
                self.stage = SelectStage::Done;
                if !st.loader_ready {
                    return Step::Finish(Err(Failure::NotConnected));
                }
                if !is_known_storage(storage) {
                    return Step::Finish(Err(Failure::UnknownStorage));
                }
                if !mask_has(st.available_storage_mask, storage) {
                    return Step::Finish(Err(Failure::NotDetected(storage)));
                }
                if !st.try_claim() {
                    return Step::Finish(Err(Failure::Busy));
                }
                self.stage = SelectStage::AwaitSelect;
                Step::Do(Action::Run(RkCommand::ChangeStorage { storage }))
            },
            (SelectStage::AwaitSelect, Event::Ran(ok)) => {
                st.release();
                self.stage = SelectStage::Done;
                if !ok {
                    return Step::Finish(Err(Failure::NotDetected(storage)));
                }
                st.selected_storage = storage;
                if storage == STORAGE_SD {
                    st.last_storage_sectors = 0;
                    Step::Finish(Ok(()))
                } else {
                    self.stage = SelectStage::AwaitSize;
                    Step::Do(Action::ReadFlashSize)
                }
            },
            (SelectStage::AwaitSize, Event::FlashSize(n)) => {
                self.stage = SelectStage::Done;
                st.last_storage_sectors = n;
                Step::Finish(Ok(()))
            },
            _ => Step::Finish(Err(Failure::Busy)),
        }
    }
}

/// Law: a selection that `cs` accepted leaves the target selected and the
/// device free; the SD card's size is then unknown, any other target's size
/// is the one read.
pub proof fn law_select_takes_effect(st: DeviceState, storage: u32, n: u64)
    requires
        st.loader_ready,
        known_storage(storage),
        in_mask(st.available_storage_mask, storage),
        !st.flash_running,
    ensures
        ({
            let (s1, st1, _) = select_next(SelectStorage { stage: SelectStage::Start, storage }, st, Event::Begin);
            let (s2, st2, r2) = select_next(s1, st1, Event::Ran(true));
            &&& st2.selected_storage == storage && !st2.flash_running
            &&& storage == STORAGE_SD ==> r2 == Step::<Result<(), Failure>>::Finish(Ok(())) && st2.last_storage_sectors == 0
            &&& storage != STORAGE_SD ==> ({
                let (s3, st3, r3) = select_next(s2, st2, Event::FlashSize(n));
                r3 == Step::<Result<(), Failure>>::Finish(Ok(())) && st3.selected_storage == storage
                    && st3.last_storage_sectors == n && !st3.flash_running
            })
        }),
{
}

/// Law: the size of the SD card is never shown, whatever is cached: a size
/// query on it answers "unknown" without running anything.
pub proof fn law_sd_size_is_never_shown(st: DeviceState)
    requires
        st.loader_ready,
        st.selected_storage == STORAGE_SD,
    ensures
        info_next(StorageInfo { stage: InfoStage::Start }, st, Event::Begin) == (
            StorageInfo { stage: InfoStage::Done },
            st,
            Step::<SizeAnswer>::Finish(SizeAnswer::Unknown),
        ),
{
}

/// Law: a secure erase or a backup that took the device lets it go once it
/// has read what it needs, whatever the device answered.
pub proof fn law_preparations_release_device(st: DeviceState, n: u64, g: Option<u64>, force: bool)
    requires
        st.selected_storage != 0,
        !st.flash_running,
        g != Some(u64::MAX),
    ensures
        ({
            let (e1, st1, _) = erase_next(SecureErase { stage: EraseStage::Start }, st, Event::Begin);
            let (e2, st2, r2) = erase_next(e1, st1, Event::FlashSize(n));
            st1.flash_running && r2 is Finish && !st2.flash_running
        }),
        ({
            let (b1, st1, _) = backup_next(Backup { stage: BackupStage::Start, has_destination: true, force }, st, Event::Begin);
            let (b2, st2, _) = backup_next(b1, st1, Event::Gpt(g));
            let (b3, st3, r3) = backup_next(b2, st2, Event::FlashSize(n));
            st2.flash_running && r3 is Finish && !st3.flash_running
        }),
{
}

// ----- Used space -----

/// How the used-space computation ends: bytes in use (and whether they come
/// from the partition table), or a failure.
#[derive(Clone, Copy)]
pub enum UsedAnswer {
    Used { bytes: u64, from_gpt: bool },
    Failed(Failure),
}

/// Where the used-space computation stands.
#[derive(Clone, Copy)]
pub enum UsedStage {
    Start,
    AwaitSelect(u32),
    AwaitGpt(u32),
    AwaitSdSize(u32),
    AwaitSize(u32),
    AwaitBoundary(u32),
    Done,
}

/// The used-space computation of the selected target: the loader must run,
/// a target be selected and the device free; the target is selected again;
/// on the SD card the end of the last partition is used when there is a
/// partition table, else the written data is searched for up to the size
/// read; on other targets it is searched for up to the cached size (or the
/// size read, which is then cached). The device is let go at the end.
#[derive(Clone, Copy)]
pub struct UsedSpace {
    pub stage: UsedStage,
}

/// The event that a used-space computation in stage `stage` waits for,
/// with figures whose byte counts fit in a `u64`.
pub open spec fn used_accepts(stage: UsedStage, ev: Event) -> bool {
    match stage {
        UsedStage::Start => ev is Begin,
        UsedStage::AwaitSelect(_) => ev is Ran,
        UsedStage::AwaitGpt(_) => match ev {
            Event::Gpt(Some(l)) => l < u64::MAX / 512,
            Event::Gpt(None) => true,
            _ => false,
        },
        UsedStage::AwaitSdSize(_) | UsedStage::AwaitSize(_) => ev is FlashSize,
        UsedStage::AwaitBoundary(_) => match ev {
            Event::Boundary(b) => b <= u64::MAX / 512,
            _ => false,
        },
        UsedStage::Done => false,
    }
}

/// One step of the used-space computation.
pub open spec fn used_next(u: UsedSpace, st: DeviceState, ev: Event) -> (UsedSpace, DeviceState, Step<UsedAnswer>) {
    let done = UsedSpace { stage: UsedStage::Done };
    let free = DeviceState { flash_running: false, ..st };
    match (u.stage, ev) {
        (UsedStage::Start, _) => {
            let storage = st.selected_storage;
            if !st.loader_ready {
                (done, st, Step::Finish(UsedAnswer::Failed(Failure::NotConnected)))
            } else if storage == 0 {
                (done, st, Step::Finish(UsedAnswer::Failed(Failure::NoStorageTarget)))
            } else if st.flash_running {
                (done, st, Step::Finish(UsedAnswer::Failed(Failure::OperationBusy)))
            } else {
                (
                    UsedSpace { stage: UsedStage::AwaitSelect(storage) },
                    DeviceState { flash_running: true, ..st },
                    Step::Do(Action::Run(RkCommand::ChangeStorage { storage })),
                )
            }
        },
        (UsedStage::AwaitSelect(storage), Event::Ran(ok)) => if !ok {
            (done, free, Step::Finish(UsedAnswer::Failed(Failure::NotDetected(storage))))
        } else if storage == STORAGE_SD {
            (UsedSpace { stage: UsedStage::AwaitGpt(storage) }, st, Step::Do(Action::ReadGpt))
        } else if st.last_storage_sectors == 0 {
            (UsedSpace { stage: UsedStage::AwaitSize(storage) }, st, Step::Do(Action::ReadFlashSize))
        } else {
            (
                UsedSpace { stage: UsedStage::AwaitBoundary(storage) },
                st,
                Step::Do(Action::FindBoundary(st.last_storage_sectors)),
            )
        },
        (UsedStage::AwaitGpt(storage), Event::Gpt(g)) => match g {
            Some(l) => (done, free, Step::Finish(UsedAnswer::Used { bytes: ((l + 1) * 512) as u64, from_gpt: true })),
            None => (UsedSpace { stage: UsedStage::AwaitSdSize(storage) }, st, Step::Do(Action::ReadFlashSize)),
        },
        (UsedStage::AwaitSdSize(storage), Event::FlashSize(n)) => if n == 0 {
            (done, free, Step::Finish(UsedAnswer::Failed(Failure::UsedSpaceUnknown(storage))))
        } else {
            (UsedSpace { stage: UsedStage::AwaitBoundary(storage) }, st, Step::Do(Action::FindBoundary(n)))
        },
        (UsedStage::AwaitSize(storage), Event::FlashSize(n)) => if n == 0 {
            (done, free, Step::Finish(UsedAnswer::Failed(Failure::CannotReadSize(storage))))
        } else {
            (
                UsedSpace { stage: UsedStage::AwaitBoundary(storage) },
                DeviceState { last_storage_sectors: n, ..st },
                Step::Do(Action::FindBoundary(n)),
            )
        },
        (UsedStage::AwaitBoundary(_), Event::Boundary(b)) => (
            done,
            free,
            Step::Finish(UsedAnswer::Used { bytes: (b * 512) as u64, from_gpt: false }),
        ),
        _ => (u, st, Step::Finish(UsedAnswer::Failed(Failure::OperationBusy))),
    }
}

impl UsedSpace {
    /// A used-space computation that has not begun.
    pub fn new() -> (res: Self)
        ensures
            res.stage is Start,
    {
        UsedSpace { stage: UsedStage::Start }
    }

    /// Takes the answer to the last action and says what comes next.
    pub fn step(&mut self, st: &mut DeviceState, ev: Event) -> (res: Step<UsedAnswer>)
        requires
            used_accepts(old(self).stage, ev),
        ensures
            (*final(self), *final(st), res) == used_next(*old(self), *old(st), ev),
    {
        match (self.stage, ev) {
            (UsedStage::Start, _) => {
                self.stage = UsedStage::Done;
                let storage = st.selected_storage;
                if !st.loader_ready {
                    return Step::Finish(UsedAnswer::Failed(Failure::NotConnected));
                }
                if storage == 0 {
                    return Step::Finish(UsedAnswer::Failed(Failure::NoStorageTarget));
                }
                if !st.try_claim() {
                    return Step::Finish(UsedAnswer::Failed(Failure::OperationBusy));
                }
                self.stage = UsedStage::AwaitSelect(storage);
                Step::Do(Action::Run(RkCommand::ChangeStorage { storage }))
            },
            (UsedStage::AwaitSelect(storage), Event::Ran(ok)) => {
                if !ok {
                    self.stage = UsedStage::Done;
                    st.release();
                    return Step::Finish(UsedAnswer::Failed(Failure::NotDetected(storage)));
                }
                if storage == STORAGE_SD {
                    self.stage = UsedStage::AwaitGpt(storage);
                    return Step::Do(Action::ReadGpt);
                }
                let total = st.last_storage_sectors;
                if total == 0 {
                    self.stage = UsedStage::AwaitSize(storage);
                    Step::Do(Action::ReadFlashSize)
                } else {
                    self.stage = UsedStage::AwaitBoundary(storage);
                    Step::Do(Action::FindBoundary(total))
                }
            },
            (UsedStage::AwaitGpt(storage), Event::Gpt(g)) => match g {
                Some(l) => {
                    self.stage = UsedStage::Done;
                    st.release();
                    let used = l + 1;
                    Step::Finish(UsedAnswer::Used { bytes: used * 512, from_gpt: true })
                },
                None => {
                    self.stage = UsedStage::AwaitSdSize(storage);
                    Step::Do(Action::ReadFlashSize)
                },
            },
            (UsedStage::AwaitSdSize(storage), Event::FlashSize(n)) => {
                if n == 0 {
                    self.stage = UsedStage::Done;
                    st.release();
                    Step::Finish(UsedAnswer::Failed(Failure::UsedSpaceUnknown(storage)))
                } else {
                    self.stage = UsedStage::AwaitBoundary(storage);
                    Step::Do(Action::FindBoundary(n))
                }
            },
            (UsedStage::AwaitSize(storage), Event::FlashSize(n)) => {
                if n == 0 {
                    self.stage = UsedStage::Done;
                    st.release();
                    Step::Finish(UsedAnswer::Failed(Failure::CannotReadSize(storage)))
                } else {
                    st.last_storage_sectors = n;
                    self.stage = UsedStage::AwaitBoundary(storage);
                    Step::Do(Action::FindBoundary(n))
                }
            },
            (UsedStage::AwaitBoundary(_), Event::Boundary(b)) => {
                self.stage = UsedStage::Done;
                st.release();
                Step::Finish(UsedAnswer::Used { bytes: b * 512, from_gpt: false })
            },
            _ => Step::Finish(UsedAnswer::Failed(Failure::OperationBusy)),
        }
    }
}

/// The used-space answer as the interface takes it.
pub fn used_space_result(a: UsedAnswer) -> (res: crate::device::UsedSpaceResult)
    ensures
        match a {
            UsedAnswer::Used { bytes, from_gpt: _ } => res.success && res.used_bytes == bytes && res.error@.len() == 0,
            UsedAnswer::Failed(f) => !res.success && res.used_bytes == 0 && res.error@ == crate::device::failure_message(f),
        },
{
    match a {
        UsedAnswer::Used { bytes, from_gpt: _ } => crate::device::UsedSpaceResult { success: true, used_bytes: bytes, error: String::new() },
        UsedAnswer::Failed(f) => crate::device::UsedSpaceResult { success: false, used_bytes: 0, error: f.message() },
    }
}

/// Law: whatever the outside answers, a used-space computation that got
/// hold of the device lets it go when it finishes.
pub proof fn law_used_space_releases(u: UsedSpace, st: DeviceState, ev: Event)
    requires
        !(u.stage is Start),
        !(u.stage is Done),
        used_accepts(u.stage, ev),
    ensures
        ({
            let (u1, st1, r) = used_next(u, st, ev);
            r is Finish ==> !st1.flash_running
        }),
{
}


// ----- Laws on whole runs of the operations -----

/// Law: when the probe finds a target, it selects on the device exactly the
/// target it records: eMMC if it answered, else the SD card, else SPI NOR;
/// the command it asks for is `cs` with that target, and once the device
/// answered, that target is the selected one.
pub proof fn law_probe_selects_what_it_records(st: DeviceState, e: bool, s: bool, n: bool, sel_ok: bool)
    requires
        e || s || n,
    ensures
        ({
            let (p1, st1, _) = probe_next(StorageProbe::new_spec(), st, Event::Begin);
            let (p2, st2, _) = probe_next(p1, st1, Event::Ran(e));
            let (p3, st3, _) = probe_next(p2, st2, Event::Ran(s));
            let (p4, st4, r4) = probe_next(p3, st3, Event::Ran(n));
            let (p5, st5, _) = probe_next(p4, st4, Event::Ran(sel_ok));
            let target: u32 = if e {
                1u32
            } else if s {
                2u32
            } else {
                9u32
            };
            &&& r4 == Step::<()>::Do(Action::Run(RkCommand::ChangeStorage { storage: target }))
            &&& st5.selected_storage == target
        }),
{
    crate::storage::law_probe_choice_was_found(e, s, n);
}

/// Law: the preparation of a secure erase of the selected target erases the
/// size cached for it when there is one, and otherwise the size just read;
/// it fails for want of a size only when that size is 0.
pub proof fn law_secure_erase_size(st: DeviceState, n: u64)
    requires
        st.selected_storage != 0,
        !st.flash_running,
    ensures
        ({
            let (e1, st1, r1) = erase_next(SecureErase { stage: EraseStage::Start }, st, Event::Begin);
            let (e2, st2, r2) = erase_next(e1, st1, Event::FlashSize(n));
            let total: u64 = if st.last_storage_sectors != 0 {
                st.last_storage_sectors
            } else {
                n
            };
            &&& r1 == Step::<Result<(u32, u64), Failure>>::Do(Action::ReadFlashSize)
            &&& total == 0 ==> r2 == Step::<Result<(u32, u64), Failure>>::Finish(
                Err(Failure::SizeUnknown(st.selected_storage)),
            )
            &&& total != 0 ==> r2 == Step::<Result<(u32, u64), Failure>>::Finish(
                Ok((st.selected_storage, total)),
            )
        }),
{
}

/// Law: without a partition table, a backup of any target reads the size
/// cached for it when there is one, and otherwise the size just read; it
/// fails for want of a size only when that size is 0, and otherwise asks to
/// confirm a read of exactly that many sectors, or reads them when the user
/// already confirmed.
pub proof fn law_backup_without_partition_table(st: DeviceState, n: u64, force: bool)
    requires
        st.selected_storage != 0,
        !st.flash_running,
    ensures
        ({
            let (b1, st1, _) = backup_next(
                Backup { stage: BackupStage::Start, has_destination: true, force },
                st,
                Event::Begin,
            );
            let (b2, st2, r2) = backup_next(b1, st1, Event::Gpt(None));
            let (b3, st3, r3) = backup_next(b2, st2, Event::FlashSize(n));
            let total: u64 = if st.last_storage_sectors != 0 {
                st.last_storage_sectors
            } else {
                n
            };
            &&& r2 == Step::<BackupPlan>::Do(Action::ReadFlashSize)
            &&& total == 0 ==> r3 == Step::Finish(BackupPlan::Failed(Failure::SizeUnknown(st.selected_storage)))
            &&& total != 0 && !force ==> r3 == Step::Finish(BackupPlan::NeedsConfirmation(total))
            &&& total != 0 && force ==> r3 == Step::Finish(
                BackupPlan::Read { storage: st.selected_storage, sectors: total },
            )
            &&& !st3.flash_running
        }),
{
}

/// Law: the size shown for any selected target other than the SD card, eMMC
/// and SPI NOR alike, is its size in bytes: the cached size times 512 when a
/// size is cached; otherwise the target is selected again, its size read,
/// cached and shown, or reported unreadable when it reads as 0.
pub proof fn law_size_of_target(st: DeviceState, sel_ok: bool, n: u64)
    requires
        st.loader_ready,
        st.selected_storage != 0,
        st.selected_storage != STORAGE_SD,
        st.last_storage_sectors <= u64::MAX / 512,
        n <= u64::MAX / 512,
    ensures
        ({
            let storage = st.selected_storage;
            let (q1, st1, r1) = info_next(StorageInfo { stage: InfoStage::Start }, st, Event::Begin);
            &&& st.last_storage_sectors != 0 ==> r1 == Step::Finish(
                SizeAnswer::Bytes((st.last_storage_sectors * 512) as u64),
            ) && st1 == st
            &&& st.last_storage_sectors == 0 ==> r1 == Step::<SizeAnswer>::Do(
                Action::Run(RkCommand::ChangeStorage { storage }),
            ) && ({
                let (q2, st2, r2) = info_next(q1, st1, Event::Ran(sel_ok));
                &&& !sel_ok ==> r2 == Step::Finish(SizeAnswer::Failed(Failure::CannotSelect(storage)))
                &&& sel_ok ==> r2 == Step::<SizeAnswer>::Do(Action::ReadFlashSize) && ({
                    let (q3, st3, r3) = info_next(q2, st2, Event::FlashSize(n));
                    &&& st3.last_storage_sectors == n
                    &&& n == 0 ==> r3 == Step::Finish(SizeAnswer::Failed(Failure::CannotReadSize(storage)))
                    &&& n != 0 ==> r3 == Step::Finish(SizeAnswer::Bytes((n * 512) as u64))
                })
            })
        }),
{
}

/// Law: on the SD card, the used space is the end of the last partition
/// when there is a partition table; without one, the end of the written
/// data is searched for over exactly the size read from the device, and
/// reported in bytes; the computation fails only when that size is 0. The
/// device is let go at the end.
pub proof fn law_used_space_on_sd(st: DeviceState, g: Option<u64>, n: u64, b: u64)
    requires
        st.loader_ready,
        st.selected_storage == STORAGE_SD,
        !st.flash_running,
        g is Some ==> g->0 < u64::MAX / 512,
        b <= u64::MAX / 512,
    ensures
        ({
            let (u1, st1, r1) = used_next(UsedSpace { stage: UsedStage::Start }, st, Event::Begin);
            let (u2, st2, r2) = used_next(u1, st1, Event::Ran(true));
            let (u3, st3, r3) = used_next(u2, st2, Event::Gpt(g));
            &&& r1 == Step::<UsedAnswer>::Do(Action::Run(RkCommand::ChangeStorage { storage: STORAGE_SD }))
            &&& r2 == Step::<UsedAnswer>::Do(Action::ReadGpt)
            &&& g is Some ==> r3 == Step::Finish(UsedAnswer::Used { bytes: ((g->0 + 1) * 512) as u64, from_gpt: true })
                && !st3.flash_running
            &&& g is None ==> r3 == Step::<UsedAnswer>::Do(Action::ReadFlashSize) && ({
                let (u4, st4, r4) = used_next(u3, st3, Event::FlashSize(n));
                &&& n == 0 ==> r4 == Step::Finish(UsedAnswer::Failed(Failure::UsedSpaceUnknown(STORAGE_SD)))
                    && !st4.flash_running
                &&& n != 0 ==> r4 == Step::<UsedAnswer>::Do(Action::FindBoundary(n)) && ({
                    let (u5, st5, r5) = used_next(u4, st4, Event::Boundary(b));
                    r5 == Step::Finish(UsedAnswer::Used { bytes: (b * 512) as u64, from_gpt: false })
                        && !st5.flash_running
                })
            })
        }),
{
}

/// Law: on any other selected target, the end of the written data is
/// searched for over the cached size, or, when none is cached, over the
/// size read (which is then cached); the computation fails only when that
/// size is 0. The result is reported in bytes and the device let go.
pub proof fn law_used_space_on_other_target(st: DeviceState, n: u64, b: u64)
    requires
        st.loader_ready,
        st.selected_storage != 0,
        st.selected_storage != STORAGE_SD,
        !st.flash_running,
        b <= u64::MAX / 512,
    ensures
        ({
            let storage = st.selected_storage;
            let (u1, st1, r1) = used_next(UsedSpace { stage: UsedStage::Start }, st, Event::Begin);
            let (u2, st2, r2) = used_next(u1, st1, Event::Ran(true));
            &&& r1 == Step::<UsedAnswer>::Do(Action::Run(RkCommand::ChangeStorage { storage }))
            &&& st.last_storage_sectors != 0 ==> r2 == Step::<UsedAnswer>::Do(
                Action::FindBoundary(st.last_storage_sectors),
            ) && ({
                let (u3, st3, r3) = used_next(u2, st2, Event::Boundary(b));
                r3 == Step::Finish(UsedAnswer::Used { bytes: (b * 512) as u64, from_gpt: false })
                    && !st3.flash_running
            })
            &&& st.last_storage_sectors == 0 ==> r2 == Step::<UsedAnswer>::Do(Action::ReadFlashSize) && ({
                let (u3, st3, r3) = used_next(u2, st2, Event::FlashSize(n));
                &&& n == 0 ==> r3 == Step::Finish(UsedAnswer::Failed(Failure::CannotReadSize(storage)))
                    && !st3.flash_running
                &&& n != 0 ==> r3 == Step::<UsedAnswer>::Do(Action::FindBoundary(n))
                    && st3.last_storage_sectors == n && ({
                    let (u4, st4, r4) = used_next(u3, st3, Event::Boundary(b));
                    r4 == Step::Finish(UsedAnswer::Used { bytes: (b * 512) as u64, from_gpt: false })
                        && !st4.flash_running
                })
            })
        }),
{
}

} // verus!
