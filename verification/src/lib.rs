//! Verified core of a desktop auto-clicker: interval policy, shared clicker
//! state, worker decisions, start/stop lifecycle, and the hotkey toggle
//! mailbox. Everything that touches the operating system (click emission,
//! the hotkey listener, persistence, the UI) lives outside this crate and
//! drives it through the functions defined here.

mod config;
mod engine;
mod modes;
mod parse;
mod policy;
mod state;
mod store;
mod text;

pub use config::ClickerConfig;
pub use config::ValidationError;
pub use config::is_default_config;
pub use engine::ClickCommand;
pub use engine::Engine;
pub use engine::LifecycleAction;
pub use engine::Status;
pub use engine::WorkerDecision;
pub use engine::age_ms;
pub use engine::lemma_second_start_is_noop;
pub use engine::lemma_stop_halts_worker;
pub use engine::lemma_tick_coalesces_toggles;
pub use engine::same_timing_fields;
pub use engine::start_effect;
pub use engine::stop_effect;
pub use engine::tick_effect;
pub use engine::toggle_effect;
pub use modes::ClickMode;
pub use modes::MouseButtonType;
pub use parse::merge_pattern_edit;
pub use parse::parse_pattern;
pub use parse::parse_pattern_spec;
pub use parse::parse_u64_spec;
pub use parse::trim_spec;
pub use policy::CONTINUOUS_DELAY_MS;
pub use policy::DEFAULT_PATTERN_DELAY_MS;
pub use policy::advance_cursor;
pub use policy::compute_delay;
pub use policy::pattern_delay;
pub use policy::pattern_delay_spec;
pub use state::ClickerState;
pub use store::ConfigStore;
pub use text::dec_str;
pub use text::pattern_text;
pub use text::pattern_text_spec;
pub use text::u64_to_string;
