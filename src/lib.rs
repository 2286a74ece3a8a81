//! Calibration lifecycle orchestration and frame-source arbitration for a
//! camera-based LED calibration device.
//!
//! The modules hold the decisions; the threads, locks, camera, network and
//! filesystem live with the caller, which performs the actions that the
//! decisions name and feeds their results back in.
use vstd::prelude::*;

pub mod arbiter;
pub mod control;
pub mod lifecycle;
pub mod stream;

verus! {

/// Body of the plain landing route.
pub fn index() -> (r: &'static str)
    ensures
        r@ == "Hello, world!"@,
{
    proof {
        reveal_strlit("Hello, world!");
    }
    "Hello, world!"
}

} // verus!
