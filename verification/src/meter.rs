//! Measuring how many frames reach the screen.
use crate::models::FrameRate;
use vstd::prelude::*;

verus! {

/// The shortest time over which frames are counted, in nanoseconds.
pub const SAMPLE_NANOSECONDS: u64 = 500_000_000;

/// Counts presented frames between samples.
#[derive(Clone, Copy, Debug, PartialEq, Eq, Structural)]
pub struct FrameMeter {
    /// The frame count at the last sample.
    pub last_frames: u64,
    /// When the last sample was taken, in nanoseconds of a monotonic clock.
    pub last_sample_at: u64,
    /// The rate over the last complete sample.
    pub measured: FrameRate,
}

/// The rate before anything was measured.
pub open spec fn nothing_measured() -> FrameRate {
    FrameRate { frames: 0, nanoseconds: SAMPLE_NANOSECONDS }
}

/// The nanoseconds from one moment to another; none when the second is not
/// later.
pub open spec fn elapsed(from: u64, to: u64) -> nat {
    if to > from { (to - from) as nat } else { 0 }
}

impl FrameMeter {
    /// Starts over at the given frame count.
    pub fn new(frames: u64, now: u64) -> (meter: FrameMeter)
        ensures
            meter.last_frames == frames,
            meter.last_sample_at == now,
            meter.measured == nothing_measured(),
    {
        FrameMeter {
            last_frames: frames,
            last_sample_at: now,
            measured: FrameRate { frames: 0, nanoseconds: SAMPLE_NANOSECONDS },
        }
    }

    /// The meter after it saw `frames` at `now`.
    pub open spec fn sampled(self, frames: u64, now: u64) -> FrameMeter {
        let passed = elapsed(self.last_sample_at, now);
        if passed >= SAMPLE_NANOSECONDS {
            FrameMeter {
                last_frames: frames,
                last_sample_at: now,
                measured: FrameRate {
                    frames: if frames > self.last_frames {
                        (frames - self.last_frames) as u64
                    } else {
                        0
                    },
                    nanoseconds: passed as u64,
                },
            }
        } else {
            self
        }
    }

    /// Takes a sample when the last one is old enough, and says whether it
    /// did.
    pub fn sample(&mut self, frames: u64, now: u64) -> (taken: bool)
        ensures
            *final(self) == old(self).sampled(frames, now),
            taken == (elapsed(old(self).last_sample_at, now) >= SAMPLE_NANOSECONDS),
    {
        let passed: u64 = now.saturating_sub(self.last_sample_at);
        if passed >= SAMPLE_NANOSECONDS {
            self.measured = FrameRate {
                frames: frames.saturating_sub(self.last_frames),
                nanoseconds: passed,
            };
            self.last_frames = frames;
            self.last_sample_at = now;
            true
        } else {
            false
        }
    }
}

/// A rate is never taken over less than half a second.
pub proof fn samples_are_long_enough(meter: FrameMeter, frames: u64, now: u64)
    requires
        meter.measured.nanoseconds >= SAMPLE_NANOSECONDS,
    ensures
        meter.sampled(frames, now).measured.nanoseconds >= SAMPLE_NANOSECONDS,
{
}

/// A sample measures the frames and the time since the last one; without one
/// the meter stays as it is.
pub proof fn samples_measure_what_passed(meter: FrameMeter, frames: u64, now: u64)
    ensures
        ({
            let after = meter.sampled(frames, now);
            if now >= meter.last_sample_at + 500_000_000 {
                &&& after.last_frames == frames
                &&& after.last_sample_at == now
                &&& meter.last_sample_at + after.measured.nanoseconds == now
                &&& frames >= meter.last_frames ==> meter.last_frames + after.measured.frames
                    == frames
                &&& frames < meter.last_frames ==> after.measured.frames == 0
            } else {
                after == meter
            }
        }),
{
}

} // verus!
