//! The time stamps that the device takes in a frame.

use vstd::prelude::*;

verus! {

/// Number of time stamps that the device takes in a frame.
pub const TIMESTAMP_COUNT: usize = 12;

/// The whole frame.
pub const START_FRAME: usize = 0;

pub const END_FRAME: usize = 1;

/// The upload of the textures that changed.
pub const START_UPLOAD_DIRTY: usize = 2;

pub const END_UPLOAD_DIRTY: usize = 3;

/// The pass that draws the terrain.
pub const START_TERRAIN_PASS: usize = 4;

pub const END_TERRAIN_PASS: usize = 5;

/// The building of the depth pyramid.
pub const START_HIZ_COMPUTE: usize = 6;

pub const END_HIZ_COMPUTE: usize = 7;

/// The occlusion pass.
pub const START_VISIBILITY_COMPUTE: usize = 8;

pub const END_VISIBILITY_COMPUTE: usize = 9;

/// The pass that draws the overlay.
pub const START_UI_PASS: usize = 10;

pub const END_UI_PASS: usize = 11;

/// The time stamps of one frame, in ticks of the device's clock.
#[derive(Debug, Clone, Copy)]
pub struct Timings {
    ticks: [u64; 12],
}

/// The ticks from one stamp to another; none if the second is the earlier.
pub open spec fn ticks_between(start: u64, end: u64) -> u64 {
    if end >= start {
        (end - start) as u64
    } else {
        0
    }
}

impl Timings {
    pub closed spec fn spec_ticks(&self) -> Seq<u64> {
        self.ticks@
    }

    pub fn from_ticks(ticks: [u64; 12]) -> (timings: Timings)
        ensures
            timings.spec_ticks() == ticks@,
    {
        Timings { ticks }
    }

    /// The ticks between two stamps of the frame.
    pub fn delta_ticks(&self, start: usize, end: usize) -> (ticks: u64)
        requires
            start < TIMESTAMP_COUNT,
            end < TIMESTAMP_COUNT,
        ensures
            ticks == ticks_between(self.spec_ticks()[start as int], self.spec_ticks()[end as int]),
    {
        let from = self.ticks[start];
        let to = self.ticks[end];
        if to >= from {
            to - from
        } else {
            0
        }
    }
}

} // verus!
