use serious_clicker::ClickMode;
use serious_clicker::ClickerConfig;
use serious_clicker::Engine;
use serious_clicker::LifecycleAction;
use serious_clicker::MouseButtonType;
use serious_clicker::WorkerDecision;

fn engine() -> Engine {
    Engine::new(&ClickerConfig::default())
}

#[test]
fn start_spawns_one_worker_and_resets_the_counter() {
    let mut e = engine();
    let a = e.start(1000);
    assert_eq!(a, LifecycleAction::Spawn);
    assert!(e.is_running());
    assert_eq!(e.state.click_count, 0);
    assert_eq!(e.state.start_time_ms, Some(1000));
}

#[test]
fn second_start_without_stop_is_a_silent_noop() {
    let mut e = engine();
    assert_eq!(e.start(1000), LifecycleAction::Spawn);
    e.worker_record_click(1100);
    assert_eq!(e.state.click_count, 1);

    // The second start must not reset the counter, must not restamp the
    // start time, and must not hand the caller a second worker.
    assert_eq!(e.start(2000), LifecycleAction::Stay);
    assert_eq!(e.state.click_count, 1);
    assert_eq!(e.state.start_time_ms, Some(1000));
    assert!(e.worker_alive);
}

#[test]
fn stop_halts_the_worker_and_keeps_the_counter() {
    let mut e = engine();
    e.start(1000);
    e.worker_record_click(1100);
    let a = e.stop();
    assert_eq!(a, LifecycleAction::Join);
    assert!(!e.is_running());
    assert!(!e.worker_alive);
    assert_eq!(e.state.click_count, 1);

    // A worker that observes the state now must take the exit decision.
    assert_eq!(e.worker_observe(0), WorkerDecision::Exit);

    // Stopping again is a no-op.
    assert_eq!(e.stop(), LifecycleAction::Stay);
}

#[test]
fn toggle_alternates_between_start_and_stop() {
    let mut e = engine();
    assert_eq!(e.toggle(1000), LifecycleAction::Spawn);
    assert!(e.is_running());
    assert_eq!(e.toggle(2000), LifecycleAction::Join);
    assert!(!e.is_running());
}

#[test]
fn worker_observe_snapshots_button_and_delay() {
    let mut e = engine();
    e.state.mouse_button = MouseButtonType::Right;
    e.state.fixed_interval_ms = 75;
    e.start(1000);
    match e.worker_observe(0) {
        WorkerDecision::Click(cmd) => {
            assert_eq!(cmd.button, MouseButtonType::Right);
            assert_eq!(cmd.delay_ms, 75);
        },
        WorkerDecision::Exit => panic!("worker should click while running"),
    }
}

#[test]
fn worker_record_click_counts_and_stamps() {
    let mut e = engine();
    e.start(1000);
    e.worker_record_click(1100);
    e.worker_record_click(1250);
    assert_eq!(e.state.click_count, 2);
    assert_eq!(e.state.last_click_time_ms, Some(1250));
}

#[test]
fn concurrent_hotkey_and_ui_toggle_in_one_tick_transition_once() {
    let mut e = engine();
    e.enable_hotkey();
    e.post_hotkey_command();

    // Both the mailbox and the UI button ask for a toggle in the same
    // tick: exactly one transition happens, so the engine is running.
    let a = e.control_tick(true, 1000);
    assert_eq!(a, LifecycleAction::Spawn);
    assert!(e.is_running());

    // The mailbox was consumed: the next quiet tick changes nothing.
    assert_eq!(e.control_tick(false, 2000), LifecycleAction::Stay);
    assert!(e.is_running());
}

#[test]
fn hotkey_triggers_coalesce_in_the_mailbox() {
    let mut e = engine();
    e.enable_hotkey();
    e.post_hotkey_command();
    e.post_hotkey_command();
    e.post_hotkey_command();
    assert_eq!(e.control_tick(false, 1000), LifecycleAction::Spawn);
    assert!(e.is_running());
    assert_eq!(e.control_tick(false, 2000), LifecycleAction::Stay);
    assert!(e.is_running());
}

#[test]
fn inactive_bridge_ignores_triggers() {
    let mut e = engine();
    e.post_hotkey_command();
    assert_eq!(e.control_tick(false, 1000), LifecycleAction::Stay);
    assert!(!e.is_running());
}

#[test]
fn enable_and_disable_hotkey_are_idempotent() {
    let mut e = engine();
    assert!(e.enable_hotkey());
    assert!(e.is_hotkey_active());
    assert!(!e.enable_hotkey());
    e.disable_hotkey();
    e.disable_hotkey();
    assert!(!e.is_hotkey_active());
    e.post_hotkey_command();
    assert_eq!(e.control_tick(false, 1000), LifecycleAction::Stay);
}

#[test]
fn apply_config_swaps_all_five_fields_and_the_display_text() {
    let mut e = engine();
    let mut c = ClickerConfig::default();
    c.click_mode = ClickMode::Pattern;
    c.mouse_button = MouseButtonType::Middle;
    c.fixed_interval_ms = 7;
    c.min_random_interval_ms = 3;
    c.max_random_interval_ms = 9;
    c.pattern_intervals = vec![5, 10];
    assert!(c.validate().is_ok());

    let text = e.apply_config(&c);
    assert_eq!(e.state.click_mode, ClickMode::Pattern);
    assert_eq!(e.state.mouse_button, MouseButtonType::Middle);
    assert_eq!(e.state.fixed_interval_ms, 7);
    assert_eq!(e.state.min_random_interval_ms, 3);
    assert_eq!(e.state.max_random_interval_ms, 9);
    assert_eq!(e.state.pattern_intervals, vec![5, 10]);
    assert_eq!(text, "5,10");
}

#[test]
fn get_status_reports_counters_and_ages() {
    let mut e = engine();
    let st = e.get_status(500);
    assert!(!st.is_running);
    assert_eq!(st.click_count, 0);
    assert_eq!(st.elapsed_ms, None);
    assert_eq!(st.last_click_age_ms, None);

    e.start(1000);
    e.worker_record_click(1500);
    let st = e.get_status(2000);
    assert!(st.is_running);
    assert_eq!(st.click_count, 1);
    assert_eq!(st.elapsed_ms, Some(1000));
    assert_eq!(st.last_click_age_ms, Some(500));

    // A clock that reads earlier than the record yields age zero.
    let st = e.get_status(900);
    assert_eq!(st.elapsed_ms, Some(0));
}
