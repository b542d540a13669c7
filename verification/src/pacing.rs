//! Frame pacing: how long one frame may take, and how long to sleep after
//! writing it.

use vstd::prelude::*;

verus! {

/// Nanoseconds in one millisecond.
pub const NANOS_PER_MS: u128 = 1_000_000;

/// Time kept back from every frame's sleep to absorb scheduling jitter, so
/// that the next frame does not drift late: 20 ms.
pub const GUARD_MARGIN_NANOS: u128 = 20_000_000;

/// How long to wait before polling again after the image could not be read:
/// one second.
pub const RETRY_DELAY_NANOS: u128 = 1_000_000_000;

/// The time allotted to one frame at `fps` frames per second, in whole
/// milliseconds.
pub open spec fn frame_budget(fps: int) -> int
    recommends
        fps > 0,
{
    1000int / fps
}

/// What is left of `budget` once `elapsed` and `guard` are taken from it,
/// and zero where they use it up. All three are in the same unit.
pub open spec fn remaining(budget: int, elapsed: int, guard: int) -> int {
    if elapsed + guard >= budget {
        0
    } else {
        budget - elapsed - guard
    }
}

/// The pacing sleep in nanoseconds after a frame that took `elapsed_nanos`
/// out of a budget of `budget_ms` milliseconds.
pub open spec fn pacing_sleep(budget_ms: int, elapsed_nanos: int) -> int {
    remaining(budget_ms * NANOS_PER_MS, elapsed_nanos, GUARD_MARGIN_NANOS as int)
}

/// The per-frame budget in milliseconds for a frame rate.
pub fn frame_budget_ms(fps: u16) -> (ms: u64)
    requires
        fps > 0,
    ensures
        ms == frame_budget(fps as int),
        ms <= 1000,
{
    let ms: u64 = 1000u64 / (fps as u64);
    assert(ms <= 1000) by (nonlinear_arith)
        requires
            fps > 0,
            ms == 1000int / (fps as int),
    ;
    ms
}

/// The pacing sleep in nanoseconds: the budget less the time the frame took
/// and less the guard margin, and zero where that would be negative.
pub fn pacing_sleep_nanos(budget_ms: u64, elapsed_nanos: u128) -> (nanos: u128)
    ensures
        nanos == pacing_sleep(budget_ms as int, elapsed_nanos as int),
        nanos <= budget_ms * NANOS_PER_MS,
        elapsed_nanos + GUARD_MARGIN_NANOS >= budget_ms * NANOS_PER_MS ==> nanos == 0,
{
    let budget: u128 = (budget_ms as u128) * NANOS_PER_MS;
    budget.saturating_sub(elapsed_nanos).saturating_sub(GUARD_MARGIN_NANOS)
}

/// Splits a time in nanoseconds into whole seconds and the nanoseconds left
/// over. A time of more seconds than 64 bits hold comes out as the longest
/// time that can be told.
pub fn split_nanos(nanos: u128) -> (parts: (u64, u32))
    ensures
        parts.1 < 1_000_000_000,
        nanos / 1_000_000_000 <= u64::MAX ==> parts.0 * 1_000_000_000 + parts.1 == nanos,
        nanos / 1_000_000_000 > u64::MAX ==> parts == (u64::MAX, 999_999_999u32),
{
    let secs: u128 = nanos / 1_000_000_000;
    if secs <= u64::MAX as u128 {
        (secs as u64, (nanos % 1_000_000_000) as u32)
    } else {
        (u64::MAX, 999_999_999)
    }
}

/// A frame's sleep is never negative, never longer than the budget, and
/// exactly zero once the time taken reaches the budget less the guard margin.
pub proof fn lemma_sleep_is_clamped(budget_ms: int, elapsed_nanos: int)
    requires
        0 <= budget_ms,
        0 <= elapsed_nanos,
    ensures
        0 <= pacing_sleep(budget_ms, elapsed_nanos) <= budget_ms * NANOS_PER_MS,
        elapsed_nanos >= budget_ms * NANOS_PER_MS - GUARD_MARGIN_NANOS ==> pacing_sleep(
            budget_ms,
            elapsed_nanos,
        ) == 0,
        elapsed_nanos < budget_ms * NANOS_PER_MS - GUARD_MARGIN_NANOS ==> pacing_sleep(
            budget_ms,
            elapsed_nanos,
        ) == budget_ms * NANOS_PER_MS - elapsed_nanos - GUARD_MARGIN_NANOS,
{
}

/// A higher frame rate never has a longer budget, and no budget exceeds one
/// second.
pub proof fn lemma_budget_is_monotone(slow: int, fast: int)
    requires
        0 < slow <= fast,
    ensures
        frame_budget(fast) <= frame_budget(slow) <= 1000,
{
    assert(1000int / fast <= 1000int / slow <= 1000) by (nonlinear_arith)
        requires
            0 < slow <= fast,
    ;
}

} // verus!
