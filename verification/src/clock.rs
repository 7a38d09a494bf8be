//! Time as the periodic senders see it: readings of one clock that never
//! runs backwards, in microseconds.

use vstd::prelude::*;

verus! {

/// The period of the heartbeat and of the mission update, in microseconds.
pub const PERIOD_MICROS: u64 = 1_000_000;

/// The time from `earlier` to `later`; none if `later` lies before.
pub open spec fn elapsed_between(earlier: int, later: int) -> int {
    if later >= earlier {
        later - earlier
    } else {
        0
    }
}

/// Whether a sender that last fired at `last` fires again at `now`: a full
/// period has passed.
pub open spec fn period_over(last: int, now: int) -> bool {
    elapsed_between(last, now) >= PERIOD_MICROS
}

/// Computes [`period_over`].
pub fn is_due(last: u64, now: u64) -> (due: bool)
    ensures
        due == period_over(last as int, now as int),
{
    now >= last && now - last >= PERIOD_MICROS
}

/// How often a sender fires that last fired at `last` and is asked at
/// `ticks` moments, the first at `first` and each a period after the one
/// before.
pub open spec fn firings(last: int, first: int, ticks: nat) -> nat
    decreases ticks,
{
    if ticks == 0 {
        0
    } else if period_over(last, first) {
        1 + firings(first, first + PERIOD_MICROS, (ticks - 1) as nat)
    } else {
        firings(last, first + PERIOD_MICROS, (ticks - 1) as nat)
    }
}

/// A sender that is asked once per period fires every time it is asked.
pub proof fn lemma_fires_every_tick(last: int, first: int, ticks: nat)
    requires
        period_over(last, first),
    ensures
        firings(last, first, ticks) == ticks,
    decreases ticks,
{
    if ticks > 0 {
        lemma_fires_every_tick(first, first + PERIOD_MICROS, (ticks - 1) as nat);
    }
}

/// Over a window of `window` microseconds that begins at `start`, when the
/// sender last fired, a sender asked once per period fires once for every
/// whole period of the window: as many times as the window has whole
/// seconds. Nothing that comes in has a part in it.
pub proof fn lemma_firings_in_window(start: int, window: nat)
    ensures
        firings(start, start + PERIOD_MICROS, window / (PERIOD_MICROS as nat)) == window / (
        PERIOD_MICROS as nat),
{
    lemma_fires_every_tick(start, start + PERIOD_MICROS, window / (PERIOD_MICROS as nat));
}

} // verus!
