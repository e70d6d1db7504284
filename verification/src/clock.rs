use vstd::prelude::*;

verus! {

/// How often the indicator's timer ticks per second while it blinks.
pub const BLINK_FREQ_HZ: u64 = 3;

/// How often a scan cycle starts per second.
pub const SCAN_FREQ_HZ: u64 = 1;

/// The number of timer ticks in one period of `freq`, for a timer that
/// counts `tick_hz` ticks a second: the alarm value for that frequency.
pub fn period_ticks(tick_hz: u64, freq: u64) -> (ticks: u64)
    requires
        freq != 0,
    ensures
        ticks == tick_hz / freq,
        ticks * freq <= tick_hz < (ticks + 1) * freq,
{
    proof {
        vstd::arithmetic::div_mod::lemma_fundamental_div_mod(tick_hz as int, freq as int);
        vstd::arithmetic::div_mod::lemma_mod_bound(tick_hz as int, freq as int);
        assert(freq * (tick_hz / freq) == (tick_hz / freq) * freq) by (nonlinear_arith);
        assert((tick_hz / freq + 1) * freq == (tick_hz / freq) * freq + freq) by (nonlinear_arith);
    }
    tick_hz / freq
}

/// The period for `freq`, or nothing for a frequency of zero.
pub fn checked_period_ticks(tick_hz: u64, freq: u64) -> (ticks: Option<u64>)
    ensures
        freq == 0 ==> ticks is None,
        freq != 0 ==> ticks == Some((tick_hz / freq) as u64),
{
    if freq == 0 {
        None
    } else {
        Some(period_ticks(tick_hz, freq))
    }
}

} // verus!
