//! The movement clock: it turns the time that frames take into simulation
//! steps of a fixed length.

use vstd::prelude::*;

verus! {

/// Milliseconds that must have gone by, and one more at least, before the
/// body takes a step.
pub const FRAME_DURATION: u32 = 75;

/// Whole milliseconds gathered since the last step.
pub struct MovementClock {
    frame_time: u32,
}

impl View for MovementClock {
    type V = nat;

    closed spec fn view(&self) -> nat {
        self.frame_time as nat
    }
}

/// Whether a frame of `frame_time_ms` milliseconds, added to the
/// `gathered` ones, brings a step.
pub open spec fn step_due(gathered: nat, frame_time_ms: nat) -> bool {
    gathered + frame_time_ms > FRAME_DURATION
}

/// The time gathered after a frame of `frame_time_ms` milliseconds. A step
/// uses up all of it: what had gone beyond the threshold is dropped, not
/// kept for the next step.
pub open spec fn gathered_after(gathered: nat, frame_time_ms: nat) -> nat {
    if step_due(gathered, frame_time_ms) {
        0
    } else {
        gathered + frame_time_ms
    }
}

impl MovementClock {
    /// The clock never holds more than the threshold: beyond it, it has
    /// fired and stands at zero again.
    pub open spec fn wf(&self) -> bool {
        self@ <= FRAME_DURATION
    }

    pub fn new() -> (clock: MovementClock)
        ensures
            clock.wf(),
            clock@ == 0,
    {
        MovementClock { frame_time: 0 }
    }

    /// Milliseconds gathered since the last step.
    pub fn frame_time(&self) -> (ms: u32)
        ensures
            ms == self@,
    {
        self.frame_time
    }

    /// Whether a frame of `frame_time_ms` milliseconds would bring a step.
    pub fn is_due(&self, frame_time_ms: u32) -> (due: bool)
        requires
            self.wf(),
        ensures
            due == step_due(self@, frame_time_ms as nat),
    {
        frame_time_ms > FRAME_DURATION - self.frame_time
    }

    /// Adds the time that one frame took. Returns whether a step is due, in
    /// which case the clock starts again from zero. One frame brings one
    /// step at most, however long it took.
    pub fn advance(&mut self, frame_time_ms: u32) -> (due: bool)
        requires
            old(self).wf(),
        ensures
            final(self).wf(),
            due == step_due(old(self)@, frame_time_ms as nat),
            final(self)@ == gathered_after(old(self)@, frame_time_ms as nat),
    {
        if self.is_due(frame_time_ms) {
            self.frame_time = 0;
            true
        } else {
            self.frame_time = self.frame_time + frame_time_ms;
            false
        }
    }
}

} // verus!
