use vstd::prelude::*;

verus! {

/// Shortest animation, in centiseconds, that the video converter plays
/// without freezing the last frame.
pub const MIN_DURATION_CS: u32 = 100;

/// The delay, in centiseconds, that renderers actually wait for a frame whose
/// stored delay is `delay`: delays under 2 (20 ms) are shown for 10 (100 ms).
pub open spec fn effective_delay(delay: u16) -> nat {
    if delay < 2 { 10 } else { delay as nat }
}

/// Gif renderers treat delays under 20ms as 100ms.
pub fn effective_delay_cs(delay: u16) -> (cs: u32)
    ensures
        cs == effective_delay(delay),
{
    if delay < 2 { 10 } else { delay as u32 }
}

/// Law: a frame is played for the delay it stores whenever that delay is at
/// least 2 centiseconds; only the delays 0 and 1 are played for 10
/// centiseconds instead.
pub proof fn law_only_tiny_delays_are_replaced(delay: u16)
    ensures
        delay >= 2 ==> effective_delay(delay) == delay,
        delay == 0 ==> effective_delay(delay) == 10,
        delay == 1 ==> effective_delay(delay) == 10,
{
}

} // verus!

verus! {

/// How many times an animation of `duration` centiseconds has to be played
/// back to back to last at least [`MIN_DURATION_CS`]: the quotient rounded up.
pub open spec fn loops_needed(duration: nat) -> nat
    recommends
        duration > 0,
{
    ((MIN_DURATION_CS + duration - 1) / (duration as int)) as nat
}

/// The number of plays of an animation of `duration_cs` centiseconds, shorter
/// than the minimum, that lasts at least the minimum.
pub fn loops_for(duration_cs: u32) -> (loops: u32)
    requires
        0 < duration_cs < MIN_DURATION_CS,
    ensures
        loops == loops_needed(duration_cs as nat),
        loops <= MIN_DURATION_CS,
{
    proof {
        lemma_loops_bounds(duration_cs as nat);
    }
    (MIN_DURATION_CS + duration_cs - 1) / duration_cs
}

/// The bounds of [`loops_needed`] for a duration under the minimum.
proof fn lemma_loops_bounds(d: nat)
    requires
        0 < d < MIN_DURATION_CS,
    ensures
        2 <= loops_needed(d) <= MIN_DURATION_CS,
        d * loops_needed(d) >= MIN_DURATION_CS,
        d * (loops_needed(d) - 1) < MIN_DURATION_CS,
        d * loops_needed(d) < 2 * MIN_DURATION_CS,
{
    let q = loops_needed(d);
    let n: int = (MIN_DURATION_CS + d - 1) as int;
    assert(q == n / (d as int));
    vstd::arithmetic::div_mod::lemma_fundamental_div_mod(n, d as int);
    let r = n % (d as int);
    assert(0 <= r < d);
    assert(n == d * q + r);
    assert(q <= MIN_DURATION_CS) by (nonlinear_arith)
        requires n == d * q + r, 0 <= r, 0 < d, d < 100, n == 100 + d - 1, q >= 0;
    assert(q >= 2) by (nonlinear_arith)
        requires n == d * q + r, 0 <= r < d, 0 < d, d < 100, n == 100 + d - 1, q >= 0;
    assert(d * (q - 1) == d * q - d) by (nonlinear_arith);
}

/// Law: playing an animation shorter than the minimum [`loops_needed`] times
/// reaches the minimum, and one play fewer would not: the count is the least
/// that does, and the total stays under twice the minimum.
pub proof fn law_loops_least_reaching_minimum(duration: nat)
    requires
        0 < duration < MIN_DURATION_CS,
    ensures
        duration * loops_needed(duration) >= MIN_DURATION_CS,
        duration * (loops_needed(duration) - 1) < MIN_DURATION_CS,
        loops_needed(duration) >= 2,
        duration * loops_needed(duration) < 2 * MIN_DURATION_CS,
{
    lemma_loops_bounds(duration);
}

} // verus!
