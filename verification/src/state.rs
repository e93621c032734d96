//! The shared clicker state: the single record both the control surface and
//! the background worker read and write. Outside this crate it lives behind
//! one mutual-exclusion lock; every function here runs under that lock, so
//! each models one critical section.

use vstd::prelude::*;

use crate::config::ClickerConfig;
use crate::config::clone_intervals;
use crate::modes::ClickMode;
use crate::modes::MouseButtonType;

verus! {

/// Runtime state of the clicker. The five configuration fields are a copy
/// of the applied [`ClickerConfig`], decoupled from the stored record so
/// that switching configurations is a controlled operation. Timestamps are
/// milliseconds on the caller's monotonic clock.
pub struct ClickerState {
    /// True while a worker is supposed to click; clearing it asks the
    /// worker to exit at the top of its next iteration.
    pub is_running: bool,
    pub click_mode: ClickMode,
    pub mouse_button: MouseButtonType,
    pub fixed_interval_ms: u64,
    pub min_random_interval_ms: u64,
    pub max_random_interval_ms: u64,
    pub pattern_intervals: Vec<u64>,
    /// Clicks emitted since the last start; reset to zero on start only.
    pub click_count: u64,
    /// When the current (or last) run started; kept after stop for display.
    pub start_time_ms: Option<u64>,
    /// When the worker last emitted a click.
    pub last_click_time_ms: Option<u64>,
}

impl ClickerState {
    /// What every state reachable through this crate satisfies: the random
    /// bounds are ordered, so a random draw between them cannot fail.
    pub open spec fn inv(self) -> bool {
        self.min_random_interval_ms <= self.max_random_interval_ms
    }

    /// The runtime state a freshly applied configuration yields: its five
    /// timing fields, not running, nothing counted, no timestamps.
    pub fn from_config(config: &ClickerConfig) -> (s: Self)
        ensures
            !s.is_running,
            s.click_mode == config.click_mode,
            s.mouse_button == config.mouse_button,
            s.fixed_interval_ms == config.fixed_interval_ms,
            s.min_random_interval_ms == config.min_random_interval_ms,
            s.max_random_interval_ms == config.max_random_interval_ms,
            s.pattern_intervals@ == config.pattern_intervals@,
            s.click_count == 0,
            s.start_time_ms is None,
            s.last_click_time_ms is None,
            config.valid() ==> s.inv(),
    {
        ClickerState {
            is_running: false,
            click_mode: config.click_mode,
            mouse_button: config.mouse_button,
            fixed_interval_ms: config.fixed_interval_ms,
            min_random_interval_ms: config.min_random_interval_ms,
            max_random_interval_ms: config.max_random_interval_ms,
            pattern_intervals: clone_intervals(&config.pattern_intervals),
            click_count: 0,
            start_time_ms: None,
            last_click_time_ms: None,
        }
    }
}

impl Default for ClickerState {
    /// The state before any configuration is applied: stopped, the default
    /// configuration's timing fields, nothing counted.
    fn default() -> (s: Self)
        ensures
            !s.is_running,
            s.click_mode is FixedInterval,
            s.mouse_button is Left,
            s.fixed_interval_ms == 100,
            s.min_random_interval_ms == 50,
            s.max_random_interval_ms == 200,
            s.pattern_intervals@ == seq![100u64, 200u64, 300u64],
            s.click_count == 0,
            s.start_time_ms is None,
            s.last_click_time_ms is None,
            s.inv(),
    {
        let pattern = vec![100u64, 200u64, 300u64];
        assert(pattern@ =~= seq![100u64, 200u64, 300u64]);
        ClickerState {
            is_running: false,
            click_mode: ClickMode::FixedInterval,
            mouse_button: MouseButtonType::Left,
            fixed_interval_ms: 100,
            min_random_interval_ms: 50,
            max_random_interval_ms: 200,
            pattern_intervals: pattern,
            click_count: 0,
            start_time_ms: None,
            last_click_time_ms: None,
        }
    }
}

} // verus!
