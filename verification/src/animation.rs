//! Frame animations: a list of texture rects stepped through on a fixed
//! cadence.
//!
//! Time is whole milliseconds.

use vstd::prelude::*;

use crate::math::Rect;

verus! {

/// A looping frame animation over texture rects.
#[derive(Debug)]
pub struct Animation {
    pub frames: Vec<Rect>,
    pub current_frame: usize,
    pub frame_time: u64,
    pub elapsed: u64,
}

impl Animation {
    /// The current frame index stays inside the frame list.
    pub open spec fn wf(self) -> bool {
        if self.frames@.len() == 0 {
            self.current_frame == 0
        } else {
            self.current_frame < self.frames@.len()
        }
    }

    /// Starts an animation over the given frames, showing each for
    /// `frame_time` milliseconds.
    pub fn new(frames: &[Rect], frame_time: u64) -> (a: Animation)
        ensures
            a.frames@ == frames@,
            a.current_frame == 0,
            a.frame_time == frame_time,
            a.elapsed == 0,
            a.wf(),
    {
        let mut owned: Vec<Rect> = Vec::new();
        let mut i: usize = 0;
        while i < frames.len()
            invariant
                i <= frames@.len(),
                owned@ == frames@.take(i as int),
            decreases frames@.len() - i,
        {
            owned.push(frames[i]);
            assert(owned@ =~= frames@.take(i as int + 1));
            i += 1;
        }
        assert(frames@.take(frames@.len() as int) =~= frames@);
        Animation { frames: owned, current_frame: 0, frame_time, elapsed: 0 }
    }

    /// The frame to show now; `None` only when there are no frames.
    pub fn get_frame(&self) -> (r: Option<Rect>)
        ensures
            r == (if self.current_frame < self.frames@.len() {
                Some(self.frames@[self.current_frame as int])
            } else {
                Option::<Rect>::None
            }),
    {
        if self.current_frame < self.frames.len() {
            Some(self.frames[self.current_frame])
        } else {
            None
        }
    }

    /// Rewinds to the first frame.
    pub fn reset(&mut self)
        ensures
            final(self).frames == old(self).frames,
            final(self).frame_time == old(self).frame_time,
            final(self).current_frame == 0,
            final(self).elapsed == 0,
            final(self).wf(),
    {
        self.current_frame = 0;
        self.elapsed = 0;
    }

    /// Whether advancing time by `dt` steps to the next frame.
    pub open spec fn steps(self, dt: u64) -> bool {
        self.elapsed + dt > self.frame_time
    }

    /// The animation after advancing time by `dt`: on a step it moves to
    /// the next frame — wrapping to the first after the last — and keeps
    /// the leftover time; otherwise only the elapsed time grows.
    pub open spec fn updated(self, dt: u64) -> Animation {
        if self.steps(dt) {
            Animation {
                elapsed: (self.elapsed + dt - self.frame_time) as u64,
                current_frame: if self.current_frame + 1 < self.frames@.len() {
                    (self.current_frame + 1) as usize
                } else {
                    0
                },
                ..self
            }
        } else {
            Animation { elapsed: (self.elapsed + dt) as u64, ..self }
        }
    }

    /// Advances time by `dt` milliseconds. Once the elapsed time passes the
    /// frame time, the animation steps to the next frame — wrapping to the
    /// first after the last — keeps the remainder, and reports the step.
    pub fn update(&mut self, dt: u64) -> (stepped: bool)
        requires
            old(self).wf(),
            old(self).elapsed + dt <= u64::MAX,
        ensures
            stepped == old(self).steps(dt),
            *final(self) == old(self).updated(dt),
            final(self).wf(),
    {
        self.elapsed = self.elapsed + dt;
        if self.elapsed > self.frame_time {
            self.elapsed = self.elapsed - self.frame_time;
            assert(self.current_frame <= self.frames@.len());
            if self.frames.len() - self.current_frame > 1 {
                self.current_frame = self.current_frame + 1;
            } else {
                self.current_frame = 0;
            }
            return true;
        }
        false
    }
}

} // verus!
