use serious_clicker::ClickMode;
use serious_clicker::ClickerState;
use serious_clicker::CONTINUOUS_DELAY_MS;
use serious_clicker::DEFAULT_PATTERN_DELAY_MS;
use serious_clicker::advance_cursor;
use serious_clicker::compute_delay;
use serious_clicker::pattern_delay;

fn state_with_mode(mode: ClickMode) -> ClickerState {
    let mut s = ClickerState::default();
    s.click_mode = mode;
    s
}

#[test]
fn fixed_interval_delay_is_the_configured_interval() {
    let mut s = state_with_mode(ClickMode::FixedInterval);
    s.fixed_interval_ms = 250;
    for _ in 0..5 {
        assert_eq!(compute_delay(&s, 0), 250);
    }
}

#[test]
fn random_interval_delay_stays_within_bounds() {
    let mut s = state_with_mode(ClickMode::RandomInterval);
    s.min_random_interval_ms = 30;
    s.max_random_interval_ms = 70;
    for _ in 0..200 {
        let d = compute_delay(&s, 0);
        assert!(30 <= d && d <= 70);
    }
}

#[test]
fn random_interval_with_equal_bounds_is_deterministic() {
    let mut s = state_with_mode(ClickMode::RandomInterval);
    s.min_random_interval_ms = 42;
    s.max_random_interval_ms = 42;
    for _ in 0..20 {
        assert_eq!(compute_delay(&s, 0), 42);
    }
}

#[test]
fn continuous_delay_is_the_minimal_delay() {
    let s = state_with_mode(ClickMode::Continuous);
    assert_eq!(compute_delay(&s, 0), CONTINUOUS_DELAY_MS);
    assert_eq!(CONTINUOUS_DELAY_MS, 1);
}

#[test]
fn pattern_cursor_wraps_after_the_sequence() {
    let mut s = state_with_mode(ClickMode::Pattern);
    s.pattern_intervals = vec![100, 200, 300];
    let mut cursor = 0;
    let mut delays = Vec::new();
    for _ in 0..4 {
        delays.push(compute_delay(&s, cursor));
        cursor = advance_cursor(cursor, s.pattern_intervals.len());
    }
    assert_eq!(delays, vec![100, 200, 300, 100]);
    assert_eq!(delays[3], delays[0]);
}

#[test]
fn empty_pattern_falls_back_to_the_default_delay() {
    let mut s = state_with_mode(ClickMode::Pattern);
    s.pattern_intervals = Vec::new();
    assert_eq!(compute_delay(&s, 0), DEFAULT_PATTERN_DELAY_MS);
    assert_eq!(pattern_delay(&Vec::new(), 0), 100);
}

#[test]
fn advance_cursor_wraps_and_tolerates_empty() {
    assert_eq!(advance_cursor(0, 3), 1);
    assert_eq!(advance_cursor(1, 3), 2);
    assert_eq!(advance_cursor(2, 3), 0);
    assert_eq!(advance_cursor(0, 1), 0);
    assert_eq!(advance_cursor(0, 0), 0);
}
