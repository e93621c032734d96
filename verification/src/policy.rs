//! The interval policy: how long the worker waits after a click before the
//! next one, for each click mode, and how the pattern cursor advances.

use vstd::prelude::*;

use crate::modes::ClickMode;
use crate::state::ClickerState;

verus! {

/// Delay used when the mode is `Pattern` but the sequence is empty: a
/// documented defensive fallback, never a silent zero.
pub const DEFAULT_PATTERN_DELAY_MS: u64 = 100;

/// Delay used in `Continuous` mode: the smallest positive delay, so the
/// worker clicks as fast as possible without starving the scheduler.
pub const CONTINUOUS_DELAY_MS: u64 = 1;

/// The delay `Pattern` mode yields at a cursor position: the entry under
/// the cursor, or the documented fallback when the sequence is empty.
pub open spec fn pattern_delay_spec(pattern: Seq<u64>, cursor: int) -> u64 {
    if pattern.len() == 0 {
        DEFAULT_PATTERN_DELAY_MS
    } else {
        pattern[cursor % pattern.len() as int]
    }
}

/// Reads the pattern entry under the cursor, falling back to
/// [`DEFAULT_PATTERN_DELAY_MS`] when the sequence is empty.
pub fn pattern_delay(pattern: &Vec<u64>, cursor: usize) -> (d: u64)
    requires
        pattern@.len() > 0 ==> cursor < pattern@.len(),
    ensures
        d == pattern_delay_spec(pattern@, cursor as int),
        pattern@.len() == 0 ==> d == DEFAULT_PATTERN_DELAY_MS,
{
    if pattern.len() == 0 {
        DEFAULT_PATTERN_DELAY_MS
    } else {
        assert(cursor as int % pattern@.len() as int == cursor as int) by {
            vstd::arithmetic::div_mod::lemma_small_mod(cursor as nat, pattern@.len() as nat);
        };
        pattern[cursor]
    }
}

/// Advances the pattern cursor one step, wrapping at the end of the
/// sequence; with an empty sequence the cursor stays at zero.
pub fn advance_cursor(cursor: usize, len: usize) -> (next: usize)
    requires
        len > 0 ==> cursor < len,
    ensures
        len == 0 ==> next == 0,
        len > 0 ==> next == (cursor + 1) % (len as int),
        len > 0 ==> next < len,
{
    if len == 0 {
        0
    } else if cursor + 1 == len {
        assert((cursor + 1) % (len as int) == 0) by {
            vstd::arithmetic::div_mod::lemma_mod_self_0(len as int);
        };
        0
    } else {
        assert((cursor + 1) % (len as int) == cursor + 1) by {
            vstd::arithmetic::div_mod::lemma_small_mod((cursor + 1) as nat, len as nat);
        };
        cursor + 1
    }
}

/// Relies on `rand::random_range` over an inclusive integer range: the
/// thread-local generator returns a uniform sample inside the range, and
/// panics only when the range is empty, which the precondition rules out.
#[verifier::external_body]
fn random_in_range(min: u64, max: u64) -> (r: u64)
    requires
        min <= max,
    ensures
        min <= r <= max,
{
    rand::random_range(min..=max)
}

/// Computes the delay to wait after the upcoming click before the next
/// one, from a consistent snapshot of the state and the worker's local
/// pattern cursor. The random draw is the only side effect.
pub fn compute_delay(state: &ClickerState, cursor: usize) -> (d: u64)
    requires
        state.inv(),
        state.pattern_intervals@.len() > 0 ==> cursor < state.pattern_intervals@.len(),
    ensures
        state.click_mode is FixedInterval ==> d == state.fixed_interval_ms,
        state.click_mode is RandomInterval ==> state.min_random_interval_ms <= d
            <= state.max_random_interval_ms,
        state.click_mode is Continuous ==> d == CONTINUOUS_DELAY_MS,
        state.click_mode is Pattern ==> d == pattern_delay_spec(
            state.pattern_intervals@,
            cursor as int,
        ),
{
    match state.click_mode {
        ClickMode::FixedInterval => state.fixed_interval_ms,
        ClickMode::RandomInterval => random_in_range(
            state.min_random_interval_ms,
            state.max_random_interval_ms,
        ),
        ClickMode::Continuous => CONTINUOUS_DELAY_MS,
        ClickMode::Pattern => pattern_delay(&state.pattern_intervals, cursor),
    }
}

} // verus!
