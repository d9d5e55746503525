use vstd::prelude::*;

use crate::animation::{advanced, Context};
use crate::frame::{frame_commands, render_scene, triangle, Frame};

verus! {

/// Microseconds from `then` to `now`; a clock that went backwards counts as no time.
pub open spec fn elapsed(then: nat, now: nat) -> nat {
    if now >= then {
        (now - then) as nat
    } else {
        0
    }
}

/// The elapsed time handed to one frame: `elapsed`, capped at `u32::MAX`
/// microseconds (over an hour; any such pause already resets the rotation).
pub open spec fn frame_delta(then: nat, now: nat) -> nat {
    if elapsed(then, now) > u32::MAX {
        u32::MAX as nat
    } else {
        elapsed(then, now)
    }
}

/// The owner of the render loop: the time of the previous frame, in
/// microseconds of the host clock, and the animation state.
pub struct FrameLoop {
    pub then_time: u64,
    pub context: Context,
}

impl FrameLoop {
    /// A loop started at `now`, with the rotation at zero.
    pub fn new(now: u64) -> (r: FrameLoop)
        ensures
            r.then_time == now,
            r.context@ == 0,
    {
        FrameLoop { then_time: now, context: Context::new() }
    }

    /// The microseconds handed to the frame that runs at `now`.
    pub fn delta_at(&self, now: u64) -> (r: u32)
        ensures
            r == frame_delta(self.then_time as nat, now as nat),
    {
        if now <= self.then_time {
            0
        } else if now - self.then_time > u32::MAX as u64 {
            u32::MAX
        } else {
            (now - self.then_time) as u32
        }
    }

    /// Runs one frame at host time `now`: measures the time since the previous
    /// frame, advances the animation by it, plans the frame and records `now`.
    pub fn on_frame(&mut self, now: u64) -> (r: Frame)
        ensures
            final(self).then_time == now,
            final(self).context@ == advanced(
                old(self).context@,
                frame_delta(old(self).then_time as nat, now as nat),
            ),
            r.rotation == old(self).context@ + frame_delta(old(self).then_time as nat, now as nat),
            r.vertices@.len() == 9,
            r.vertices@.map_values(|v: i64| v as int) == triangle(r.rotation as int),
            r.commands@ == frame_commands(),
    {
        let delta = self.delta_at(now);
        let frame = render_scene(&mut self.context, delta);
        self.then_time = now;
        frame
    }
}

} // verus!
