//! Frame pacing and the recovery from a frame whose surface image could not be
//! acquired.
use vstd::prelude::*;

verus! {

/// Why the presentation surface could not hand out an image for a frame.
#[derive(Clone, Copy, Debug, PartialEq, Eq, Structural)]
pub enum SurfaceFailure {
    /// The surface was lost and must be configured again.
    Lost,
    /// The surface no longer matches the window and must be configured again.
    Outdated,
    /// The device ran out of memory; the viewer cannot go on.
    OutOfMemory,
    /// Presenting took too long; the next frame may succeed.
    Timeout,
}

/// What the caller does after a failed frame.
#[derive(Clone, Copy, Debug, PartialEq, Eq, Structural)]
pub enum Recovery {
    /// Configure the surface again at this size, then draw the next frame.
    Reconfigure { width: u32, height: u32 },
    /// Stop the viewer.
    Exit,
    /// Do nothing now and try again on the next frame.
    Retry,
}

/// Microseconds in one second.
pub const MICROS_PER_SECOND: u64 = 1_000_000;

/// Microseconds in one millisecond.
pub const MICROS_PER_MILLI: u64 = 1000;

/// The whole milliseconds a frame that took `elapsed_us` microseconds still has
/// to wait so that no more than `cap_fps` frames are shown per second: the
/// target interval `1 / cap_fps` seconds less the time spent, rounded down, and
/// none when the frame took the whole interval or more. A cap of zero means no
/// cap.
pub open spec fn cap_delay_ms(cap_fps: nat, elapsed_us: nat) -> nat {
    if cap_fps == 0 || cap_fps * elapsed_us >= MICROS_PER_SECOND {
        0
    } else {
        ((MICROS_PER_SECOND - cap_fps * elapsed_us) / (MICROS_PER_MILLI * cap_fps)) as nat
    }
}

/// The delay, in milliseconds, that keeps the frame rate at or under `cap_fps`
/// after a frame that took `elapsed_us` microseconds; zero disables the cap.
pub fn frame_cap_delay_ms(cap_fps: u32, elapsed_us: u64) -> (r: u64)
    ensures
        r == cap_delay_ms(cap_fps as nat, elapsed_us as nat),
        r <= MICROS_PER_SECOND / MICROS_PER_MILLI,
{
    if cap_fps == 0 {
        return 0;
    }
    let fps = cap_fps as u128;
    let elapsed = elapsed_us as u128;
    assert(fps <= 0xffff_ffffu128 && fps >= 1);
    assert(fps * elapsed <= 0xffff_ffff_ffff_ffff_ffff_ffff_ffff_ffffu128) by (nonlinear_arith)
        requires
            fps <= 0xffff_ffffu128,
            elapsed <= 0xffff_ffff_ffff_ffffu128,
    ;
    let spent: u128 = fps * elapsed;
    if spent >= MICROS_PER_SECOND as u128 {
        0
    } else {
        let left: u128 = MICROS_PER_SECOND as u128 - spent;
        assert(1000 <= MICROS_PER_MILLI as u128 * fps <= 1000 * 0xffff_ffffu128) by (nonlinear_arith)
            requires
                1 <= fps <= 0xffff_ffffu128,
                MICROS_PER_MILLI == 1000,
        ;
        let per_frame: u128 = MICROS_PER_MILLI as u128 * fps;
        let ms: u128 = left / per_frame;
        assert(ms <= 1000) by (nonlinear_arith)
            requires
                ms == left / per_frame,
                left <= 1_000_000,
                per_frame >= 1000,
        ;
        ms as u64
    }
}

} // verus!
