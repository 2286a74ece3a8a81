use svled_web::control::outcome_token;
use svled_web::lifecycle::{Action, Lifecycle, LifecycleEvent, Phase};

fn start_scan(l: &mut Lifecycle, marker: bool) {
    let a = l.step(LifecycleEvent::Poll { marker_exists: marker });
    assert_eq!(a, Action::Scan { consume_marker: marker });
    assert_eq!(l.phase, Phase::Scanning);
    assert!(l.live_source);
}

#[test]
fn first_poll_scans_without_marker() {
    let mut l = Lifecycle::new();
    start_scan(&mut l, false);
    assert!(!l.first_run);
    assert!(l.keepalive);
}

#[test]
fn idle_poll_sleeps() {
    let mut l = Lifecycle::new();
    start_scan(&mut l, false);
    l.step(LifecycleEvent::ScanFinished { ok: false });
    l.step(LifecycleEvent::KeepaliveRead { value: true });
    let before = l;
    assert_eq!(l.step(LifecycleEvent::Poll { marker_exists: false }), Action::Sleep);
    assert_eq!(l, before);
}

#[test]
fn successful_cycle_selects_buffer_and_spawns_listener() {
    let mut l = Lifecycle::new();
    start_scan(&mut l, false);
    assert_eq!(l.step(LifecycleEvent::ScanFinished { ok: true }), Action::Report);
    assert!(l.calib_success);
    assert_eq!(l.step(LifecycleEvent::ReportFinished { ok: true }), Action::AwaitListener);
    assert!(!l.live_source);
    assert_eq!(l.step(LifecycleEvent::KeepaliveRead { value: false }), Action::AwaitListener);
    assert!(!l.keepalive);
    assert_eq!(
        l.step(LifecycleEvent::KeepaliveRead { value: true }),
        Action::Resume { spawn_listener: true }
    );
    assert_eq!(l.phase, Phase::AwaitingTrigger);
    assert!(l.keepalive);
    assert!(!l.live_source);
}

#[test]
fn failed_scan_keeps_live_source_and_spawns_nothing() {
    let mut l = Lifecycle::new();
    start_scan(&mut l, false);
    assert_eq!(l.step(LifecycleEvent::ScanFinished { ok: false }), Action::AwaitListener);
    assert!(!l.calib_success);
    assert!(l.live_source);
    assert_eq!(
        l.step(LifecycleEvent::KeepaliveRead { value: true }),
        Action::Resume { spawn_listener: false }
    );
    assert!(l.keepalive);
    assert_eq!(l.phase, Phase::AwaitingTrigger);
}

#[test]
fn marker_restart_clears_keepalive_then_restores_it() {
    let mut l = Lifecycle::new();
    start_scan(&mut l, false);
    l.step(LifecycleEvent::ScanFinished { ok: true });
    l.step(LifecycleEvent::ReportFinished { ok: true });
    l.step(LifecycleEvent::KeepaliveRead { value: true });
    start_scan(&mut l, true);
    assert!(!l.keepalive);
    l.step(LifecycleEvent::ScanFinished { ok: false });
    assert!(l.live_source);
    l.step(LifecycleEvent::KeepaliveRead { value: true });
    assert!(l.keepalive);
}

#[test]
fn report_failure_aborts() {
    let mut l = Lifecycle::new();
    start_scan(&mut l, false);
    l.step(LifecycleEvent::ScanFinished { ok: true });
    assert_eq!(l.step(LifecycleEvent::ReportFinished { ok: false }), Action::Abort);
    assert_eq!(l.phase, Phase::Halted);
    assert_eq!(l.step(LifecycleEvent::Poll { marker_exists: true }), Action::Abort);
}

#[test]
fn event_out_of_phase_changes_nothing() {
    let mut l = Lifecycle::new();
    let before = l;
    assert_eq!(l.step(LifecycleEvent::ScanFinished { ok: true }), Action::Sleep);
    assert_eq!(l, before);
}

#[test]
fn outcome_before_any_scan_is_success() {
    let mut marker = svled_web::control::RestartMarker::absent();
    marker.create();
    let l = Lifecycle::new();
    assert_eq!(outcome_token(l.calib_success), "SUCCESS");
}

#[test]
fn outcome_follows_scan_failure_then_success() {
    let mut l = Lifecycle::new();
    start_scan(&mut l, false);
    l.step(LifecycleEvent::ScanFinished { ok: false });
    assert_eq!(outcome_token(l.calib_success), "FAIL");
    l.step(LifecycleEvent::KeepaliveRead { value: true });
    start_scan(&mut l, true);
    l.step(LifecycleEvent::ScanFinished { ok: true });
    assert_eq!(outcome_token(l.calib_success), "SUCCESS");
}
