//! Named clicker configurations: the record the user edits and persists,
//! its validity rules, and the errors the edit boundary reports.

use vstd::prelude::*;

use crate::modes::ClickMode;
use crate::modes::MouseButtonType;

verus! {

/// A named, persistable clicker configuration. The five timing fields are
/// copied into the runtime state when the configuration is applied.
pub struct ClickerConfig {
    /// Display label; uniqueness is not enforced.
    pub name: String,
    pub click_mode: ClickMode,
    pub mouse_button: MouseButtonType,
    /// Delay between clicks in `FixedInterval` mode; must be positive.
    pub fixed_interval_ms: u64,
    /// Lower bound of the `RandomInterval` draw; must be positive.
    pub min_random_interval_ms: u64,
    /// Upper bound of the `RandomInterval` draw; must be at least the lower bound.
    pub max_random_interval_ms: u64,
    /// Delay sequence for `Pattern` mode; entries must be positive, and the
    /// sequence must be non-empty while the mode is `Pattern`.
    pub pattern_intervals: Vec<u64>,
}

/// Why a configuration is rejected at the edit boundary. Invalid
/// configurations never reach the engine.
#[derive(Clone, Copy, Debug, PartialEq, Eq, Structural)]
pub enum ValidationError {
    /// `fixed_interval_ms` is zero.
    ZeroFixedInterval,
    /// `min_random_interval_ms` is zero.
    ZeroRandomInterval,
    /// `min_random_interval_ms` exceeds `max_random_interval_ms`.
    MinExceedsMax,
    /// The mode is `Pattern` but the interval sequence is empty.
    EmptyPattern,
    /// An entry of `pattern_intervals` is zero.
    ZeroPatternInterval,
}

impl ClickerConfig {
    /// Whether some entry of the pattern sequence is zero.
    pub open spec fn has_zero_pattern_entry(self) -> bool {
        exists|i: int| 0 <= i < self.pattern_intervals@.len() && self.pattern_intervals@[i] == 0
    }

    /// The validity rules the edit boundary enforces.
    pub open spec fn valid(self) -> bool {
        &&& self.fixed_interval_ms > 0
        &&& self.min_random_interval_ms > 0
        &&& self.min_random_interval_ms <= self.max_random_interval_ms
        &&& (self.click_mode is Pattern ==> self.pattern_intervals@.len() > 0)
        &&& (forall|i: int| 0 <= i < self.pattern_intervals@.len() ==> self.pattern_intervals@[i] > 0)
    }

    /// The error `validate` reports, checking the rules in a fixed order.
    pub open spec fn first_violation(self) -> Option<ValidationError> {
        if self.fixed_interval_ms == 0 {
            Some(ValidationError::ZeroFixedInterval)
        } else if self.min_random_interval_ms == 0 {
            Some(ValidationError::ZeroRandomInterval)
        } else if self.min_random_interval_ms > self.max_random_interval_ms {
            Some(ValidationError::MinExceedsMax)
        } else if self.click_mode is Pattern && self.pattern_intervals@.len() == 0 {
            Some(ValidationError::EmptyPattern)
        } else if self.has_zero_pattern_entry() {
            Some(ValidationError::ZeroPatternInterval)
        } else {
            None
        }
    }

    /// Checks the validity rules, reporting the first violated one.
    pub fn validate(&self) -> (r: Result<(), ValidationError>)
        ensures
            r is Ok <==> self.valid(),
            r matches Err(e) ==> Some(e) == self.first_violation(),
    {
        if self.fixed_interval_ms == 0 {
            Err(ValidationError::ZeroFixedInterval)
        } else if self.min_random_interval_ms == 0 {
            Err(ValidationError::ZeroRandomInterval)
        } else if self.min_random_interval_ms > self.max_random_interval_ms {
            Err(ValidationError::MinExceedsMax)
        } else if matches!(self.click_mode, ClickMode::Pattern) && self.pattern_intervals.len() == 0 {
            Err(ValidationError::EmptyPattern)
        } else {
            let mut i: usize = 0;
            while i < self.pattern_intervals.len()
                invariant
                    i <= self.pattern_intervals@.len(),
                    forall|j: int| 0 <= j < i ==> self.pattern_intervals@[j] > 0,
                    self.fixed_interval_ms > 0,
                    self.min_random_interval_ms > 0,
                    self.min_random_interval_ms <= self.max_random_interval_ms,
                    self.click_mode is Pattern ==> self.pattern_intervals@.len() > 0,
                decreases self.pattern_intervals@.len() - i,
            {
                if self.pattern_intervals[i] == 0 {
                    assert(self.has_zero_pattern_entry());
                    return Err(ValidationError::ZeroPatternInterval);
                }
                i += 1;
            }
            Ok(())
        }
    }
}

/// Whether a record carries exactly the default configuration's values.
pub open spec fn is_default_config(c: ClickerConfig) -> bool {
    &&& c.name@ == "默认配置"@
    &&& c.click_mode is FixedInterval
    &&& c.mouse_button is Left
    &&& c.fixed_interval_ms == 100
    &&& c.min_random_interval_ms == 50
    &&& c.max_random_interval_ms == 200
    &&& c.pattern_intervals@ == seq![100u64, 200u64, 300u64]
}

impl Clone for ClickerConfig {
    /// A deep copy: every field of the copy reads equal to the original's.
    fn clone(&self) -> (r: Self)
        ensures
            r.name@ == self.name@,
            r.click_mode == self.click_mode,
            r.mouse_button == self.mouse_button,
            r.fixed_interval_ms == self.fixed_interval_ms,
            r.min_random_interval_ms == self.min_random_interval_ms,
            r.max_random_interval_ms == self.max_random_interval_ms,
            r.pattern_intervals@ == self.pattern_intervals@,
    {
        ClickerConfig {
            name: self.name.clone(),
            click_mode: self.click_mode,
            mouse_button: self.mouse_button,
            fixed_interval_ms: self.fixed_interval_ms,
            min_random_interval_ms: self.min_random_interval_ms,
            max_random_interval_ms: self.max_random_interval_ms,
            pattern_intervals: clone_intervals(&self.pattern_intervals),
        }
    }
}

impl Default for ClickerConfig {
    /// The configuration the application falls back to when none is stored:
    /// a fixed 100 ms left click, with 50–200 ms random bounds and a
    /// 100, 200, 300 ms pattern ready to switch to.
    fn default() -> (c: Self)
        ensures
            is_default_config(c),
            c.valid(),
    {
        let pattern = vec![100u64, 200u64, 300u64];
        assert(pattern@ =~= seq![100u64, 200u64, 300u64]);
        ClickerConfig {
            name: String::from_str("默认配置"),
            click_mode: ClickMode::FixedInterval,
            mouse_button: MouseButtonType::Left,
            fixed_interval_ms: 100,
            min_random_interval_ms: 50,
            max_random_interval_ms: 200,
            pattern_intervals: pattern,
        }
    }
}

/// Copies an interval sequence element for element.
pub(crate) fn clone_intervals(v: &Vec<u64>) -> (r: Vec<u64>)
    ensures
        r@ == v@,
{
    let r = v.clone();
    assert(r@ =~= v@);
    r
}

} // verus!
