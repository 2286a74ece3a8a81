use svled_web::control::{
    crop_override, crop_override_opt, outcome_token, recalibrate_status, RestartMarker,
    StartGuard,
};
use svled_web::index;

#[test]
fn landing_text() {
    assert_eq!(index(), "Hello, world!");
}

#[test]
fn crop_override_passes_rectangles_unmodified() {
    let v = vec![10, 20, 300, 400, -5, 6, 70, 80];
    assert_eq!(crop_override(&v), ((10, 20, 300, 400), (-5, 6, 70, 80)));
    assert_eq!(crop_override_opt(Some(&v)), Some(((10, 20, 300, 400), (-5, 6, 70, 80))));
    assert_eq!(crop_override_opt(None), None);
}

#[test]
fn outcome_tokens() {
    assert_eq!(outcome_token(true), "SUCCESS");
    assert_eq!(outcome_token(false), "FAIL");
}

#[test]
fn recalibrate_statuses() {
    assert_eq!(recalibrate_status(true), 200);
    assert_eq!(recalibrate_status(false), 500);
}

#[test]
fn marker_created_twice_is_consumed_once() {
    let mut once = RestartMarker::absent();
    once.create();
    let mut twice = RestartMarker::absent();
    twice.create();
    twice.create();
    assert_eq!(once, twice);
    assert!(twice.take());
    assert!(!twice.take());
}

#[test]
fn second_start_is_rejected() {
    let mut g = StartGuard::new();
    assert!(g.try_start());
    assert!(!g.try_start());
    assert!(g.running);
}
