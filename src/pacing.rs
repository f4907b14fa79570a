use vstd::prelude::*;

verus! {

/// Milliseconds in one second.
pub const MILLIS_PER_SECOND: u64 = 1000;

/// The length of the short wait after the main one, which only looks once more
/// for a cancellation that came right at the end of the interval.
pub const LAST_CHANCE_MS: u64 = 1;

/// A presentation time of `ticks / per_second` seconds, kept as a fraction so
/// that it is exact for every rate.
#[derive(Clone, Copy, Debug, PartialEq, Eq, Structural)]
pub struct Pts {
    pub ticks: u64,
    pub per_second: u8,
}

pub open spec fn interval_of(fps: u8) -> u64
    recommends
        fps > 0,
{
    (MILLIS_PER_SECOND / fps as u64) as u64
}

pub open spec fn pts_of(index: u64, fps: u8) -> Pts {
    Pts { ticks: index, per_second: fps }
}

/// The time between two frames, in whole milliseconds, at `fps` frames per
/// second.
pub fn interval_ms(fps: u8) -> (r: u64)
    requires
        fps > 0,
    ensures
        r == interval_of(fps),
        r == MILLIS_PER_SECOND / fps as u64,
{
    MILLIS_PER_SECOND / (fps as u64)
}

/// What is left to wait of `interval` after `elapsed` milliseconds of work;
/// nothing when the work took the whole interval or more.
pub fn residual_ms(interval: u64, elapsed: u64) -> (r: Option<u64>)
    ensures
        elapsed < interval ==> r == Some((interval - elapsed) as u64),
        elapsed >= interval ==> r is None,
{
    if elapsed < interval {
        Some(interval - elapsed)
    } else {
        None
    }
}

/// The presentation time of the frame numbered `index` at `fps` frames per
/// second: `index / fps` seconds.
pub fn frame_pts(index: u64, fps: u8) -> (r: Pts)
    ensures
        r == pts_of(index, fps),
{
    Pts { ticks: index, per_second: fps }
}

/// Successive frames are exactly one frame time apart: their presentation
/// times differ by `1 / fps` seconds, and when the rate divides a second into
/// whole milliseconds that difference is one pacing interval.
pub proof fn lemma_successive_pts(index: u64, fps: u8)
    requires
        fps > 0,
        index < u64::MAX,
    ensures
        pts_of((index + 1) as u64, fps).per_second == pts_of(index, fps).per_second,
        pts_of(index, fps).per_second == fps,
        pts_of((index + 1) as u64, fps).ticks - pts_of(index, fps).ticks == 1,
        MILLIS_PER_SECOND % (fps as u64) == 0 ==> (pts_of((index + 1) as u64, fps).ticks - pts_of(
            index,
            fps,
        ).ticks) * MILLIS_PER_SECOND == interval_of(fps) * fps,
{
    if MILLIS_PER_SECOND % (fps as u64) == 0 {
        assert((MILLIS_PER_SECOND / fps as u64) * fps == MILLIS_PER_SECOND) by (nonlinear_arith)
            requires
                MILLIS_PER_SECOND % (fps as u64) == 0,
                fps > 0,
        ;
    }
}

} // verus!
