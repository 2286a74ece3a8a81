//! The control surface: restart requests, the outcome query, guarded starts
//! of the lifecycle loop, and the crop override taken from configuration.
use vstd::prelude::*;

verus! {

/// One rectangle, as `(x, y, width, height)`.
pub type Rect = (i32, i32, i32, i32);

/// The region-of-interest hint handed to a scan: one rectangle per camera.
pub type CropOverride = (Rect, Rect);

/// Number of values in a configured crop override (two rectangles of four).
pub const CROP_VALUES: usize = 8;

/// The crop override described by the first eight configured values, in
/// order: camera one's rectangle, then camera two's.
pub open spec fn crop_of(v: Seq<i32>) -> CropOverride {
    ((v[0], v[1], v[2], v[3]), (v[4], v[5], v[6], v[7]))
}

/// Builds the crop override from the flat list of configured values.
pub fn crop_override(values: &Vec<i32>) -> (r: CropOverride)
    requires
        values@.len() >= CROP_VALUES,
    ensures
        r == crop_of(values@),
{
    ((values[0], values[1], values[2], values[3]), (values[4], values[5], values[6], values[7]))
}

/// Builds the optional crop override: absent in configuration, absent here.
pub fn crop_override_opt(values: Option<&Vec<i32>>) -> (r: Option<CropOverride>)
    requires
        values.is_some() ==> values.unwrap()@.len() >= CROP_VALUES,
    ensures
        values.is_none() ==> r.is_none(),
        values.is_some() ==> r == Some(crop_of(values.unwrap()@)),
{
    match values {
        Some(v) => Some(crop_override(v)),
        None => None,
    }
}

/// The token that the outcome query answers with.
pub open spec fn outcome_text(success: bool) -> Seq<char> {
    if success {
        "SUCCESS"@
    } else {
        "FAIL"@
    }
}

/// Renders the calibration outcome flag as `SUCCESS` or `FAIL`.
pub fn outcome_token(success: bool) -> (r: String)
    ensures
        r@ == outcome_text(success),
{
    proof {
        reveal_strlit("SUCCESS");
        reveal_strlit("FAIL");
    }
    if success {
        String::from_str("SUCCESS")
    } else {
        String::from_str("FAIL")
    }
}

/// HTTP status answered when the restart marker was written.
pub const STATUS_OK: u16 = 200;

/// HTTP status answered when writing the restart marker failed.
pub const STATUS_SERVER_ERROR: u16 = 500;

/// Status of a restart request, given whether the marker could be written.
pub fn recalibrate_status(marker_written: bool) -> (r: u16)
    ensures
        r == (if marker_written {
            STATUS_OK
        } else {
            STATUS_SERVER_ERROR
        }),
{
    if marker_written {
        STATUS_OK
    } else {
        STATUS_SERVER_ERROR
    }
}

/// Whether the restart marker exists. Its existence, not any content, is the
/// whole signal.
#[derive(Clone, Copy, Debug, PartialEq, Eq, Structural)]
pub struct RestartMarker {
    pub present: bool,
}

impl RestartMarker {
    /// No marker.
    pub fn absent() -> (r: RestartMarker)
        ensures
            !r.present,
    {
        RestartMarker { present: false }
    }

    /// The marker after a restart request: it exists.
    pub open spec fn created(self) -> RestartMarker {
        RestartMarker { present: true }
    }

    /// The marker after the lifecycle loop consumed it: it is gone.
    pub open spec fn consumed(self) -> RestartMarker {
        RestartMarker { present: false }
    }

    /// A restart request: creates the marker.
    pub fn create(&mut self)
        ensures
            *final(self) == old(self).created(),
    {
        self.present = true;
    }

    /// Observation by the lifecycle loop: reports whether the marker existed
    /// and deletes it if so.
    pub fn take(&mut self) -> (existed: bool)
        ensures
            existed == old(self).present,
            *final(self) == old(self).consumed(),
    {
        let existed = self.present;
        self.present = false;
        existed
    }
}

/// Creating the restart marker twice before it is consumed leaves the same
/// marker, and so the same single restart, as creating it once.
pub proof fn create_idempotent(m: RestartMarker)
    ensures
        m.created().created() == m.created(),
        m.created().created().consumed() == m.created().consumed(),
{
}

/// Whether a lifecycle loop has been started; at most one is ever let run.
#[derive(Clone, Copy, Debug, PartialEq, Eq, Structural)]
pub struct StartGuard {
    pub running: bool,
}

impl StartGuard {
    /// No loop started yet.
    pub fn new() -> (r: StartGuard)
        ensures
            !r.running,
    {
        StartGuard { running: false }
    }

    /// The guard after a start request: a loop is running.
    pub open spec fn after_start(self) -> StartGuard {
        StartGuard { running: true }
    }

    /// A start request: granted only when no loop runs yet; a later request
    /// is rejected.
    pub fn try_start(&mut self) -> (granted: bool)
        ensures
            granted == !old(self).running,
            *final(self) == old(self).after_start(),
    {
        let granted = !self.running;
        self.running = true;
        granted
    }
}

/// Of two start requests made one after the other on the same guard (as the
/// guard's lock makes concurrent requests), at most one is granted.
pub proof fn at_most_one_start(g: StartGuard)
    ensures
        !(!g.running && !g.after_start().running),
        g.after_start().after_start() == g.after_start(),
{
}

} // verus!
