//! Frame source arbitration: which frame a streaming tick reads.
use vstd::prelude::*;

verus! {

/// One of the two physical cameras.
#[derive(Clone, Copy, Debug, PartialEq, Eq, Structural)]
pub enum Camera {
    One,
    Two,
}

/// The place a streaming tick takes its frame from.
#[derive(Clone, Copy, Debug, PartialEq, Eq, Structural)]
pub enum FrameSource {
    /// The live frame in the shared device state.
    LiveCamera,
    /// The last good frame kept in the frame buffer by the event listener.
    SharedBuffer,
}

/// The source a frame source flag designates. Without a flag (streaming
/// mode off) frames are always live.
pub open spec fn designated(flag: Option<bool>) -> FrameSource {
    match flag {
        Some(false) => FrameSource::SharedBuffer,
        _ => FrameSource::LiveCamera,
    }
}

/// Reads the frame source flag: the one decision a tick makes before it locks
/// a single source.
pub fn source_for(flag: Option<bool>) -> (r: FrameSource)
    ensures
        r == designated(flag),
        r == FrameSource::SharedBuffer <==> flag == Some(false),
{
    match flag {
        Some(false) => FrameSource::SharedBuffer,
        _ => FrameSource::LiveCamera,
    }
}

/// One frame per camera, either the live pair or the buffered pair.
pub struct FramePair<T> {
    pub cam_1: T,
    pub cam_2: T,
}

impl<T> FramePair<T> {
    /// The frame of camera `cam` in this pair.
    pub open spec fn spec_frame(&self, cam: Camera) -> &T {
        match cam {
            Camera::One => &self.cam_1,
            Camera::Two => &self.cam_2,
        }
    }

    /// Borrows the frame of camera `cam`.
    pub fn frame(&self, cam: Camera) -> (r: &T)
        ensures
            r == self.spec_frame(cam),
    {
        match cam {
            Camera::One => &self.cam_1,
            Camera::Two => &self.cam_2,
        }
    }
}

/// The frame a tick reads when every source is at hand: the designated
/// source's frame of the camera, and nothing from the other source.
pub fn tick_frame<'a, T>(
    flag: Option<bool>,
    live: &'a FramePair<T>,
    buffered: &'a FramePair<T>,
    cam: Camera,
) -> (r: &'a T)
    ensures
        designated(flag) == FrameSource::LiveCamera ==> r == live.spec_frame(cam),
        designated(flag) == FrameSource::SharedBuffer ==> r == buffered.spec_frame(cam),
{
    match source_for(flag) {
        FrameSource::LiveCamera => live.frame(cam),
        FrameSource::SharedBuffer => buffered.frame(cam),
    }
}

} // verus!
