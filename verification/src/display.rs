//! The display's decisions: the frame limiter, the frame rate and the screen colors; the
//! clock, the sleeping and the window belong to the caller.
use crate::ppu::misc::ColoredPixel;
use vstd::prelude::*;

verus! {

/// How the emulation speed is limited.
#[derive(Copy, Clone, PartialEq, Eq, Structural, Debug)]
pub enum LimitStrategy {
    /// Frames are not limited.
    Disabled,
    /// Each frame lasts at least the given number of nanoseconds.
    Sleep(u64),
}

/// Limits the frame rate: it remembers when the last frame ended, on a monotonic clock in
/// nanoseconds that the caller reads.
#[derive(Copy, Clone, PartialEq, Eq, Structural, Debug)]
pub struct FrameLimiter {
    pub strategy: LimitStrategy,
    pub last_call: u64,
}

impl FrameLimiter {
    /// Creates a new frame limiter; `now` is the current time.
    pub fn new(strategy: LimitStrategy, now: u64) -> (r: Self)
        ensures
            r == (FrameLimiter { strategy, last_call: now }),
    {
        Self { strategy, last_call: now }
    }

    /// How long the current thread has to sleep at time `now` until the allotted frame
    /// time has passed: the rest of the frame time, or 0 when it has passed or frames are
    /// not limited.
    pub fn sleep_duration(&self, now: u64) -> (r: u64)
        ensures
            r == match self.strategy {
                LimitStrategy::Disabled => 0,
                LimitStrategy::Sleep(frame) => {
                    let elapsed = if now >= self.last_call { now - self.last_call } else { 0 };
                    if elapsed < frame { (frame - elapsed) as u64 } else { 0 }
                },
            },
    {
        match self.strategy {
            LimitStrategy::Disabled => 0,
            LimitStrategy::Sleep(frame_duration) => {
                let elapsed = now.saturating_sub(self.last_call);
                if elapsed < frame_duration {
                    frame_duration - elapsed
                } else {
                    0
                }
            },
        }
    }

    /// Records `now`, the end of the wait, as the start of the next frame; a disabled
    /// limiter keeps no time.
    pub fn finish_wait(&mut self, now: u64)
        ensures
            *final(self) == match old(self).strategy {
                LimitStrategy::Disabled => *old(self),
                LimitStrategy::Sleep(_) => FrameLimiter { last_call: now, ..*old(self) },
            },
    {
        if let LimitStrategy::Sleep(_) = self.strategy {
            self.last_call = now;
        }
    }
}

/// One second in nanoseconds.
pub const SECOND_NANOS: u64 = 1_000_000_000;

/// Whether the times in `frames` never fall.
pub open spec fn is_sorted(frames: Seq<u64>) -> bool {
    forall|i: int, j: int| 0 <= i <= j < frames.len() ==> frames[i] <= frames[j]
}

/// Counts the frames of the last second.
#[derive(Clone, Debug)]
pub struct FrameRate {
    /// When the frames of the last second were shown, in nanoseconds of the caller's
    /// monotonic clock, oldest first.
    pub last_second_frames: Vec<u64>,
}

impl FrameRate {
    /// No frame yet.
    pub fn new() -> (r: Self)
        ensures
            r.last_second_frames@ == Seq::<u64>::empty(),
    {
        Self { last_second_frames: Vec::new() }
    }

    /// Records a frame shown at `now` and returns the current frames per second: the
    /// frames shown from one second before `now` on, this one included. Older frames are
    /// forgotten.
    pub fn calc_fps(&mut self, now: u64) -> (fps: usize)
        requires
            is_sorted(old(self).last_second_frames@),
            forall|i: int| 0 <= i < old(self).last_second_frames@.len() ==> old(self).last_second_frames@[i] <= now,
            old(self).last_second_frames@.len() < usize::MAX,
        ensures
            final(self).last_second_frames@ == old(self).last_second_frames@.filter(
                |t: u64| t + SECOND_NANOS >= now,
            ).push(now),
            is_sorted(final(self).last_second_frames@),
            fps == final(self).last_second_frames@.len(),
    {
        let a_second_ago = now.saturating_sub(SECOND_NANOS);
        let ghost earlier = self.last_second_frames@;
        let mut dropped: usize = 0;
        while self.last_second_frames.len() > 0 && self.last_second_frames[0] < a_second_ago
            invariant
                dropped <= earlier.len(),
                earlier.len() < usize::MAX,
                self.last_second_frames@ == earlier.skip(dropped as int),
                forall|i: int| 0 <= i < dropped ==> earlier[i] + SECOND_NANOS < now,
                is_sorted(earlier),
                a_second_ago == (if now >= SECOND_NANOS { now - SECOND_NANOS } else { 0 }),
            decreases self.last_second_frames@.len(),
        {
            self.last_second_frames.remove(0);
            dropped = dropped + 1;
        }
        proof {
            assert forall|i: int| dropped <= i < earlier.len() implies earlier[i] + SECOND_NANOS >= now by {
                assert(earlier[dropped as int] >= a_second_ago);
            }
            lemma_filter_sorted_prefix(earlier, dropped as int, now);
        }
        self.last_second_frames.push(now);
        self.last_second_frames.len()
    }
}

/// Filtering a sorted list of times by "within the last second" drops exactly the prefix
/// of older ones.
proof fn lemma_filter_sorted_prefix(frames: Seq<u64>, k: int, now: u64)
    requires
        0 <= k <= frames.len(),
        forall|i: int| 0 <= i < k ==> frames[i] + SECOND_NANOS < now,
        forall|i: int| k <= i < frames.len() ==> frames[i] + SECOND_NANOS >= now,
    ensures
        frames.filter(|t: u64| t + SECOND_NANOS >= now) == frames.skip(k),
    decreases frames.len(),
{
    let keep = |t: u64| t + SECOND_NANOS >= now;
    reveal_with_fuel(Seq::<u64>::filter, 1);
    if frames.len() == 0 {
        assert(frames.skip(k) =~= Seq::<u64>::empty());
    } else if k == frames.len() {
        lemma_filter_sorted_prefix(frames.drop_last(), k - 1, now);
        assert(frames.drop_last().skip(k - 1) =~= seq![frames[k - 1]].skip(1));
        assert(frames.filter(keep) == frames.drop_last().filter(keep));
        assert(frames.skip(k) =~= Seq::<u64>::empty());
        assert(frames.drop_last().skip(k - 1) =~= Seq::<u64>::empty());
    } else {
        lemma_filter_sorted_prefix(frames.drop_last(), k, now);
        assert(frames.filter(keep) == frames.drop_last().filter(keep).push(frames.last()));
        assert(frames.skip(k) =~= frames.drop_last().skip(k).push(frames.last()));
    }
}

/// The screen color of a shade: white, light grey (0xAB), dark grey (0x55) or black, as
/// red, green and blue.
pub fn translate_color(color: ColoredPixel) -> (rgb: (u8, u8, u8))
    ensures
        rgb == match color {
            ColoredPixel::White => (0xFFu8, 0xFFu8, 0xFFu8),
            ColoredPixel::LightGrey => (0xABu8, 0xABu8, 0xABu8),
            ColoredPixel::DarkGrey => (0x55u8, 0x55u8, 0x55u8),
            ColoredPixel::Black => (0x00u8, 0x00u8, 0x00u8),
        },
{
    match color {
        ColoredPixel::White => (0xff, 0xff, 0xff),
        ColoredPixel::LightGrey => (0xab, 0xab, 0xab),
        ColoredPixel::DarkGrey => (0x55, 0x55, 0x55),
        ColoredPixel::Black => (0x00, 0x00, 0x00),
    }
}

} // verus!
