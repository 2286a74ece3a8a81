//! The calibration lifecycle loop as a state machine.
//!
//! The loop's thread owns a [`Lifecycle`], performs each [`Action`] that
//! [`Lifecycle::step`] returns, and hands the result back as the next
//! [`LifecycleEvent`]. After every step it publishes `live_source` as the
//! frame source flag and `calib_success` as the calibration outcome flag; the
//! loop is the only writer of both.
use vstd::prelude::*;

verus! {

/// Where the loop stands in its cycle.
#[derive(Clone, Copy, Debug, PartialEq, Eq, Structural)]
pub enum Phase {
    /// Waiting for the first run or for the restart marker.
    AwaitingTrigger,
    /// A scan is running.
    Scanning,
    /// The scan succeeded; positions are being reported.
    Reporting,
    /// Waiting until `keepalive` reads true: no earlier listener runs any more.
    AwaitingListenerExit,
    /// Reporting positions failed; the process must end.
    Halted,
}

/// What the loop's thread observed after performing the last action.
#[derive(Clone, Copy, Debug, PartialEq, Eq, Structural)]
pub enum LifecycleEvent {
    /// A poll of the restart marker.
    Poll { marker_exists: bool },
    /// The scan returned.
    ScanFinished { ok: bool },
    /// The position report returned.
    ReportFinished { ok: bool },
    /// A read of the shared `keepalive` flag.
    KeepaliveRead { value: bool },
}

/// What the loop's thread must do next.
#[derive(Clone, Copy, Debug, PartialEq, Eq, Structural)]
pub enum Action {
    /// Sleep one poll interval, then poll the restart marker.
    Sleep,
    /// When `consume_marker`: set `keepalive` to false, delete the marker and
    /// notify the report consumer of the restart. Then set the frame source
    /// flag to the live camera and run the scan with the crop override.
    Scan { consume_marker: bool },
    /// Publish the success outcome and report the positions.
    Report,
    /// Sleep a short interval, then read `keepalive`.
    AwaitListener,
    /// Set `keepalive` to true; when `spawn_listener`, spawn the event listener.
    Resume { spawn_listener: bool },
    /// Reporting positions failed: end the process.
    Abort,
}

/// The loop's state, and the flags it is the writer of.
#[derive(Clone, Copy, Debug, PartialEq, Eq, Structural)]
pub struct Lifecycle {
    pub phase: Phase,
    /// No cycle has started yet.
    pub first_run: bool,
    /// Frame source flag: true reads live camera frames, false the frame buffer.
    pub live_source: bool,
    /// Calibration outcome flag of the most recent scan.
    pub calib_success: bool,
    /// `keepalive` as this loop last wrote or read it.
    pub keepalive: bool,
    /// The current cycle's scan and report succeeded: a listener is owed.
    pub listener_owed: bool,
}

/// The state after `s` takes event `e`.
pub open spec fn after(s: Lifecycle, e: LifecycleEvent) -> Lifecycle {
    match (s.phase, e) {
        (Phase::AwaitingTrigger, LifecycleEvent::Poll { marker_exists }) => {
            if s.first_run || marker_exists {
                Lifecycle {
                    phase: Phase::Scanning,
                    first_run: false,
                    live_source: true,
                    keepalive: if marker_exists {
                        false
                    } else {
                        s.keepalive
                    },
                    listener_owed: false,
                    ..s
                }
            } else {
                s
            }
        },
        (Phase::Scanning, LifecycleEvent::ScanFinished { ok }) => {
            if ok {
                Lifecycle { phase: Phase::Reporting, calib_success: true, ..s }
            } else {
                Lifecycle {
                    phase: Phase::AwaitingListenerExit,
                    calib_success: false,
                    listener_owed: false,
                    ..s
                }
            }
        },
        (Phase::Reporting, LifecycleEvent::ReportFinished { ok }) => {
            if ok {
                Lifecycle {
                    phase: Phase::AwaitingListenerExit,
                    live_source: false,
                    listener_owed: true,
                    ..s
                }
            } else {
                Lifecycle { phase: Phase::Halted, ..s }
            }
        },
        (Phase::AwaitingListenerExit, LifecycleEvent::KeepaliveRead { value }) => {
            if value {
                Lifecycle { phase: Phase::AwaitingTrigger, keepalive: true, listener_owed: false, ..s }
            } else {
                Lifecycle { keepalive: false, ..s }
            }
        },
        _ => s,
    }
}

/// The action owed when `s` takes event `e`.
pub open spec fn action_of(s: Lifecycle, e: LifecycleEvent) -> Action {
    match (s.phase, e) {
        (Phase::AwaitingTrigger, LifecycleEvent::Poll { marker_exists }) => {
            if s.first_run || marker_exists {
                Action::Scan { consume_marker: marker_exists }
            } else {
                Action::Sleep
            }
        },
        (Phase::Scanning, LifecycleEvent::ScanFinished { ok }) => {
            if ok {
                Action::Report
            } else {
                Action::AwaitListener
            }
        },
        (Phase::Reporting, LifecycleEvent::ReportFinished { ok }) => {
            if ok {
                Action::AwaitListener
            } else {
                Action::Abort
            }
        },
        (Phase::AwaitingListenerExit, LifecycleEvent::KeepaliveRead { value }) => {
            if value {
                Action::Resume { spawn_listener: s.listener_owed }
            } else {
                Action::AwaitListener
            }
        },
        (Phase::Halted, _) => Action::Abort,
        _ => Action::Sleep,
    }
}

impl Lifecycle {
    /// The states the loop can reach: a scan and a report run on live frames,
    /// a report follows a successful scan, and a listener is owed only after
    /// a reported success, with the shared buffer selected.
    pub open spec fn wf(self) -> bool {
        &&& (self.phase == Phase::Scanning || self.phase == Phase::Reporting) ==> self.live_source
        &&& self.phase == Phase::Reporting ==> self.calib_success
        &&& self.listener_owed ==> {
            &&& self.phase == Phase::AwaitingListenerExit
            &&& self.calib_success
            &&& !self.live_source
        }
        &&& self.first_run ==> self.phase == Phase::AwaitingTrigger
    }

    /// The loop as it starts: first run pending, live camera frames, outcome
    /// success, `keepalive` true.
    pub fn new() -> (r: Lifecycle)
        ensures
            r.phase == Phase::AwaitingTrigger,
            r.first_run,
            r.live_source,
            r.calib_success,
            r.keepalive,
            !r.listener_owed,
            r.wf(),
    {
        Lifecycle {
            phase: Phase::AwaitingTrigger,
            first_run: true,
            live_source: true,
            calib_success: true,
            keepalive: true,
            listener_owed: false,
        }
    }

    /// Takes one event and returns the action owed. An event that does not
    /// belong to the current phase changes nothing.
    pub fn step(&mut self, e: LifecycleEvent) -> (a: Action)
        ensures
            *final(self) == after(*old(self), e),
            a == action_of(*old(self), e),
    {
        match (self.phase, e) {
            (Phase::AwaitingTrigger, LifecycleEvent::Poll { marker_exists }) => {
                if self.first_run || marker_exists {
                    self.phase = Phase::Scanning;
                    self.first_run = false;
                    self.live_source = true;
                    if marker_exists {
                        self.keepalive = false;
                    }
                    self.listener_owed = false;
                    Action::Scan { consume_marker: marker_exists }
                } else {
                    Action::Sleep
                }
            },
            (Phase::Scanning, LifecycleEvent::ScanFinished { ok }) => {
                self.calib_success = ok;
                if ok {
                    self.phase = Phase::Reporting;
                    Action::Report
                } else {
                    self.phase = Phase::AwaitingListenerExit;
                    self.listener_owed = false;
                    Action::AwaitListener
                }
            },
            (Phase::Reporting, LifecycleEvent::ReportFinished { ok }) => {
                if ok {
                    self.phase = Phase::AwaitingListenerExit;
                    self.live_source = false;
                    self.listener_owed = true;
                    Action::AwaitListener
                } else {
                    self.phase = Phase::Halted;
                    Action::Abort
                }
            },
            (Phase::AwaitingListenerExit, LifecycleEvent::KeepaliveRead { value }) => {
                self.keepalive = value;
                if value {
                    let spawn = self.listener_owed;
                    self.phase = Phase::AwaitingTrigger;
                    self.listener_owed = false;
                    Action::Resume { spawn_listener: spawn }
                } else {
                    Action::AwaitListener
                }
            },
            (Phase::Halted, _) => Action::Abort,
            _ => Action::Sleep,
        }
    }
}

/// Every step keeps the loop's state well formed.
pub proof fn step_preserves_wf(s: Lifecycle, e: LifecycleEvent)
    requires
        s.wf(),
    ensures
        after(s, e).wf(),
{
}

/// The frame source flag turns to the shared buffer only on a reported
/// success, and it is back on the live camera whenever a scan begins.
pub proof fn flag_transitions(s: Lifecycle, e: LifecycleEvent)
    ensures
        s.live_source && !after(s, e).live_source ==> s.phase == Phase::Reporting && e == (
        LifecycleEvent::ReportFinished { ok: true }),
        after(s, e).phase == Phase::Scanning && s.phase != Phase::Scanning ==> after(
            s,
            e,
        ).live_source,
{
}

/// A scan cycle sets the flags as follows. Entering the scan selects the live
/// camera. A successful scan whose positions were reported leaves outcome
/// success and the shared buffer selected; a failed scan leaves outcome
/// failure and the live camera still selected.
pub proof fn scan_cycle_flags(s: Lifecycle, marker_exists: bool)
    requires
        s.phase == Phase::AwaitingTrigger,
        s.first_run || marker_exists,
    ensures
        ({
            let scanning = after(s, LifecycleEvent::Poll { marker_exists });
            let ok = after(
                after(scanning, LifecycleEvent::ScanFinished { ok: true }),
                LifecycleEvent::ReportFinished { ok: true },
            );
            let failed = after(scanning, LifecycleEvent::ScanFinished { ok: false });
            &&& scanning.phase == Phase::Scanning
            &&& scanning.live_source
            &&& ok.calib_success && !ok.live_source
            &&& !failed.calib_success && failed.live_source
        }),
{
}

/// Whenever the loop comes back to waiting for a trigger, whatever the scan's
/// outcome, `keepalive` is true and the action owed sets it true.
pub proof fn keepalive_on_return(s: Lifecycle, e: LifecycleEvent)
    requires
        s.phase != Phase::AwaitingTrigger,
        after(s, e).phase == Phase::AwaitingTrigger,
    ensures
        after(s, e).keepalive,
        action_of(s, e) is Resume,
{
}

/// A listener is spawned only on return from a cycle whose scan succeeded and
/// whose positions were reported, and only once `keepalive` read true.
pub proof fn listener_only_after_success(s: Lifecycle, e: LifecycleEvent)
    requires
        action_of(s, e) == (Action::Resume { spawn_listener: true }),
    ensures
        s.phase == Phase::AwaitingListenerExit,
        e == (LifecycleEvent::KeepaliveRead { value: true }),
        s.listener_owed,
{
}

} // verus!
