use vstd::prelude::*;

verus! {

/// Granularity, in nanoseconds, to which a pacing sleep is rounded down.
pub const SLEEP_GRANULARITY_NANOS: u64 = 10_000_000;

/// Safety margin, in thousandths of a frame per second, added to the
/// target rate before the frame interval is computed: sleeps tend to
/// overshoot, so the loop aims a little faster than the target.
pub const FPS_MARGIN_MILLI: u64 = 1_500;

/// Nanoseconds in a second, times a thousand (rates are in thousandths).
pub const NANOS_PER_SECOND_MILLI: u64 = 1_000_000_000_000;

/// Frame interval, in nanoseconds, for a target rate of `target_fps_milli`
/// thousandths of a frame per second, the margin included.
pub open spec fn frame_interval_spec(target_fps_milli: int) -> int {
    NANOS_PER_SECOND_MILLI as int / (target_fps_milli + FPS_MARGIN_MILLI as int)
}

/// How long to sleep after a tick that took `elapsed_nanos` when ticks
/// should be `target_nanos` apart: the remainder of the interval, rounded
/// down to the granularity so that the sleep never runs past the deadline;
/// nothing when the tick overran.
pub open spec fn sleep_spec(elapsed_nanos: int, target_nanos: int) -> int {
    if elapsed_nanos < target_nanos {
        ((target_nanos - elapsed_nanos) / SLEEP_GRANULARITY_NANOS as int) * SLEEP_GRANULARITY_NANOS as int
    } else {
        0
    }
}

pub fn target_frame_nanos(target_fps_milli: u64) -> (r: u64)
    requires
        target_fps_milli <= u64::MAX - FPS_MARGIN_MILLI,
    ensures
        r == frame_interval_spec(target_fps_milli as int),
{
    NANOS_PER_SECOND_MILLI / (target_fps_milli + FPS_MARGIN_MILLI)
}

pub fn sleep_nanos(elapsed_nanos: u64, target_nanos: u64) -> (r: u64)
    ensures
        r == sleep_spec(elapsed_nanos as int, target_nanos as int),
{
    if elapsed_nanos < target_nanos {
        let rest: u64 = target_nanos - elapsed_nanos;
        proof {
            assert((rest / SLEEP_GRANULARITY_NANOS) * SLEEP_GRANULARITY_NANOS <= rest) by (nonlinear_arith)
                requires SLEEP_GRANULARITY_NANOS > 0;
        }
        (rest / SLEEP_GRANULARITY_NANOS) * SLEEP_GRANULARITY_NANOS
    } else {
        0
    }
}

/// The pacing sleep is never negative and never carries a tick past its
/// deadline, and a tick plus its sleep lasts more than the frame interval
/// less one granularity step: consecutive ticks are never closer together
/// than that, whatever a tick took.
pub proof fn lemma_pacing_lower_bound(elapsed_nanos: int, target_nanos: int)
    requires
        0 <= elapsed_nanos,
        0 <= target_nanos,
    ensures
        sleep_spec(elapsed_nanos, target_nanos) >= 0,
        elapsed_nanos < target_nanos ==> elapsed_nanos + sleep_spec(elapsed_nanos, target_nanos)
            <= target_nanos,
        elapsed_nanos >= target_nanos ==> sleep_spec(elapsed_nanos, target_nanos) == 0,
        elapsed_nanos + sleep_spec(elapsed_nanos, target_nanos) > target_nanos
            - SLEEP_GRANULARITY_NANOS,
        sleep_spec(elapsed_nanos, target_nanos) % SLEEP_GRANULARITY_NANOS as int == 0,
{
    let g = SLEEP_GRANULARITY_NANOS as int;
    if elapsed_nanos < target_nanos {
        let rest = target_nanos - elapsed_nanos;
        assert((rest / g) * g <= rest && rest < (rest / g) * g + g && ((rest / g) * g) % g == 0
            && (rest / g) * g >= 0) by (nonlinear_arith)
            requires
                g > 0,
                rest > 0,
        ;
    }
}

} // verus!
