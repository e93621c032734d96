//! The clicking engine: the shared state with its start/stop lifecycle, the
//! worker's per-iteration decisions, and the hotkey bridge's single-slot
//! toggle mailbox.
//!
//! The engine itself performs no outside work. Each operation mutates the
//! state under the caller's lock and, where something must happen beyond it,
//! returns a [`LifecycleAction`] telling the caller to spawn the one
//! background worker or to join the one that was told to stop. The worker
//! loop itself lives with the caller: it asks [`Engine::worker_observe`]
//! what to do, emits the click, records it with
//! [`Engine::worker_record_click`], and sleeps for the decided delay.

use vstd::prelude::*;

use crate::config::ClickerConfig;
use crate::config::clone_intervals;
use crate::modes::MouseButtonType;
use crate::policy::CONTINUOUS_DELAY_MS;
use crate::policy::compute_delay;
use crate::policy::pattern_delay_spec;
use crate::state::ClickerState;
use crate::text::pattern_text;
use crate::text::pattern_text_spec;

verus! {

/// What the caller must do right after a lifecycle operation returns.
#[derive(Clone, Copy, Debug, PartialEq, Eq, Structural)]
pub enum LifecycleAction {
    /// Spawn one background worker bound to the shared state.
    Spawn,
    /// Join the worker that has just been told to stop. It observes the
    /// cleared running flag at the top of its next iteration, so the wait
    /// is bounded by one sleep interval.
    Join,
    /// Nothing: the operation was a no-op.
    Stay,
}

/// One click the worker is to emit, and the delay to sleep afterwards.
#[derive(Clone, Copy, Debug, PartialEq, Eq, Structural)]
pub struct ClickCommand {
    /// The button snapshotted when the decision was made.
    pub button: MouseButtonType,
    /// Milliseconds to sleep after emitting the click.
    pub delay_ms: u64,
}

/// The worker's decision at the top of one loop iteration.
#[derive(Clone, Copy, Debug, PartialEq, Eq, Structural)]
pub enum WorkerDecision {
    /// Stop was requested: leave the loop without further state mutation.
    Exit,
    /// Emit this click, record it, then sleep.
    Click(ClickCommand),
}

/// What the display surface polls: one consistent snapshot of the counters.
#[derive(Clone, Copy, Debug, PartialEq, Eq, Structural)]
pub struct Status {
    pub is_running: bool,
    pub click_count: u64,
    /// Milliseconds since the last start, if there ever was one.
    pub elapsed_ms: Option<u64>,
    /// Milliseconds since the last emitted click, if there ever was one.
    pub last_click_age_ms: Option<u64>,
}

/// The age of a recorded timestamp on the caller's clock; zero if the
/// clock reads earlier than the record.
pub open spec fn age_ms(now_ms: u64, then_ms: Option<u64>) -> Option<u64> {
    match then_ms {
        Some(t) => if now_ms >= t {
            Some((now_ms - t) as u64)
        } else {
            Some(0u64)
        },
        None => None,
    }
}

/// The engine: the shared clicker state together with the lifecycle
/// controller's worker handle and the hotkey bridge's activation flag and
/// one-slot command mailbox. Outside this crate one engine value sits
/// behind one mutual-exclusion lock shared by the control surface, the
/// hotkey listener, and at most one live worker.
pub struct Engine {
    pub state: ClickerState,
    /// Whether a worker is bound to the state (the controller holds its
    /// join handle). Mirrors the running flag at every operation boundary.
    pub worker_alive: bool,
    /// Whether the hotkey bridge acts on triggers.
    pub hotkey_active: bool,
    /// The single-slot toggle mailbox: true while a hotkey trigger awaits
    /// the next control tick. Writes overwrite; triggers coalesce.
    pub pending_toggle: bool,
}

/// Both runtime states carry the same five configuration fields.
pub open spec fn same_timing_fields(a: ClickerState, b: ClickerState) -> bool {
    &&& a.click_mode == b.click_mode
    &&& a.mouse_button == b.mouse_button
    &&& a.fixed_interval_ms == b.fixed_interval_ms
    &&& a.min_random_interval_ms == b.min_random_interval_ms
    &&& a.max_random_interval_ms == b.max_random_interval_ms
    &&& a.pattern_intervals == b.pattern_intervals
}

/// What `start` does: a silent no-op while running; otherwise it raises the
/// running flag, zeroes the click counter, stamps the start time, and hands
/// the caller exactly one worker to spawn.
pub open spec fn start_effect(pre: Engine, post: Engine, now_ms: u64, action: LifecycleAction) -> bool {
    if pre.state.is_running {
        post == pre && action is Stay
    } else {
        &&& action is Spawn
        &&& post.state.is_running
        &&& post.worker_alive
        &&& post.state.click_count == 0
        &&& post.state.start_time_ms == Some(now_ms)
        &&& post.state.last_click_time_ms == pre.state.last_click_time_ms
        &&& same_timing_fields(pre.state, post.state)
        &&& post.hotkey_active == pre.hotkey_active
        &&& post.pending_toggle == pre.pending_toggle
    }
}

/// What `stop` does: a no-op while stopped; otherwise it clears the running
/// flag, releases the worker handle, and hands the caller the join. The
/// counters and timestamps are kept for display.
pub open spec fn stop_effect(pre: Engine, post: Engine, action: LifecycleAction) -> bool {
    if !pre.state.is_running {
        post == pre && action is Stay
    } else {
        &&& action is Join
        &&& !post.state.is_running
        &&& !post.worker_alive
        &&& post.state.click_count == pre.state.click_count
        &&& post.state.start_time_ms == pre.state.start_time_ms
        &&& post.state.last_click_time_ms == pre.state.last_click_time_ms
        &&& same_timing_fields(pre.state, post.state)
        &&& post.hotkey_active == pre.hotkey_active
        &&& post.pending_toggle == pre.pending_toggle
    }
}

/// What `toggle` does: stop while running, start while stopped.
pub open spec fn toggle_effect(pre: Engine, post: Engine, now_ms: u64, action: LifecycleAction) -> bool {
    if pre.state.is_running {
        stop_effect(pre, post, action)
    } else {
        start_effect(pre, post, now_ms, action)
    }
}

/// What one control tick does: it always clears the mailbox, and performs
/// exactly one toggle if the mailbox held a trigger or the UI button was
/// pressed — the two requests coalesce, they are never both honoured.
pub open spec fn tick_effect(pre: Engine, post: Engine, ui_toggle: bool, now_ms: u64, action: LifecycleAction) -> bool {
    let cleared = Engine {
        state: pre.state,
        worker_alive: pre.worker_alive,
        hotkey_active: pre.hotkey_active,
        pending_toggle: false,
    };
    if pre.pending_toggle || ui_toggle {
        toggle_effect(cleared, post, now_ms, action)
    } else {
        post == cleared && action is Stay
    }
}

impl Engine {
    /// What every engine value reachable through this crate satisfies: the
    /// state invariant holds, and the worker handle mirrors the running
    /// flag at operation boundaries.
    pub open spec fn wf(self) -> bool {
        &&& self.state.inv()
        &&& self.worker_alive == self.state.is_running
    }

    /// A stopped engine carrying a configuration's timing fields, with the
    /// hotkey bridge inactive and the mailbox empty.
    pub fn new(config: &ClickerConfig) -> (e: Engine)
        requires
            config.valid(),
        ensures
            e.wf(),
            !e.state.is_running,
            e.state.click_mode == config.click_mode,
            e.state.mouse_button == config.mouse_button,
            e.state.fixed_interval_ms == config.fixed_interval_ms,
            e.state.min_random_interval_ms == config.min_random_interval_ms,
            e.state.max_random_interval_ms == config.max_random_interval_ms,
            e.state.pattern_intervals@ == config.pattern_intervals@,
            e.state.click_count == 0,
            e.state.start_time_ms is None,
            e.state.last_click_time_ms is None,
            !e.hotkey_active,
            !e.pending_toggle,
    {
        Engine {
            state: ClickerState::from_config(config),
            worker_alive: false,
            hotkey_active: false,
            pending_toggle: false,
        }
    }

    /// Starts clicking: a silent no-op if already running, otherwise the
    /// caller is handed exactly one worker to spawn.
    pub fn start(&mut self, now_ms: u64) -> (action: LifecycleAction)
        requires
            old(self).wf(),
        ensures
            final(self).wf(),
            start_effect(*old(self), *final(self), now_ms, action),
    {
        if self.state.is_running {
            return LifecycleAction::Stay;
        }
        self.state.is_running = true;
        self.state.start_time_ms = Some(now_ms);
        self.state.click_count = 0;
        self.worker_alive = true;
        LifecycleAction::Spawn
    }

    /// Stops clicking: a no-op if not running, otherwise the running flag
    /// is cleared and the caller must join the worker, which observes the
    /// flag within one sleep interval.
    pub fn stop(&mut self) -> (action: LifecycleAction)
        requires
            old(self).wf(),
        ensures
            final(self).wf(),
            stop_effect(*old(self), *final(self), action),
    {
        if !self.state.is_running {
            return LifecycleAction::Stay;
        }
        self.state.is_running = false;
        self.worker_alive = false;
        LifecycleAction::Join
    }

    /// Stops while running, starts while stopped. Both the UI button and
    /// the hotkey mailbox funnel through this one operation, serialized by
    /// the caller's lock.
    pub fn toggle(&mut self, now_ms: u64) -> (action: LifecycleAction)
        requires
            old(self).wf(),
        ensures
            final(self).wf(),
            toggle_effect(*old(self), *final(self), now_ms, action),
    {
        if self.state.is_running {
            self.stop()
        } else {
            self.start(now_ms)
        }
    }

    /// One tick of the control loop: consumes the hotkey mailbox and, if it
    /// held a trigger or the UI button was pressed this tick, performs
    /// exactly one toggle — never two.
    pub fn control_tick(&mut self, ui_toggle: bool, now_ms: u64) -> (action: LifecycleAction)
        requires
            old(self).wf(),
        ensures
            final(self).wf(),
            tick_effect(*old(self), *final(self), ui_toggle, now_ms, action),
    {
        let requested = self.pending_toggle || ui_toggle;
        self.pending_toggle = false;
        if requested {
            self.toggle(now_ms)
        } else {
            LifecycleAction::Stay
        }
    }

    /// The worker's step at the top of each iteration, under the lock: exit
    /// if stop was requested, otherwise decide button and delay from one
    /// consistent snapshot. Takes the state read-only: an exit mutates
    /// nothing.
    pub fn worker_observe(&self, cursor: usize) -> (d: WorkerDecision)
        requires
            self.wf(),
            self.state.pattern_intervals@.len() > 0 ==> cursor < self.state.pattern_intervals@.len(),
        ensures
            d is Exit <==> !self.state.is_running,
            d matches WorkerDecision::Click(cmd) ==> {
                &&& cmd.button == self.state.mouse_button
                &&& (self.state.click_mode is FixedInterval ==> cmd.delay_ms
                    == self.state.fixed_interval_ms)
                &&& (self.state.click_mode is RandomInterval ==> self.state.min_random_interval_ms
                    <= cmd.delay_ms <= self.state.max_random_interval_ms)
                &&& (self.state.click_mode is Continuous ==> cmd.delay_ms == CONTINUOUS_DELAY_MS)
                &&& (self.state.click_mode is Pattern ==> cmd.delay_ms == pattern_delay_spec(
                    self.state.pattern_intervals@,
                    cursor as int,
                ))
            },
    {
        if !self.state.is_running {
            return WorkerDecision::Exit;
        }
        let delay_ms = compute_delay(&self.state, cursor);
        WorkerDecision::Click(ClickCommand { button: self.state.mouse_button, delay_ms })
    }

    /// Records one emitted click, strictly after the emission: the counter
    /// rises by one (saturating at its ceiling) and the click timestamp is
    /// stamped. Nothing else moves.
    pub fn worker_record_click(&mut self, now_ms: u64)
        requires
            old(self).wf(),
        ensures
            final(self).wf(),
            final(self).state.click_count == if old(self).state.click_count < u64::MAX {
                old(self).state.click_count + 1
            } else {
                old(self).state.click_count as int
            },
            final(self).state.last_click_time_ms == Some(now_ms),
            final(self).state.is_running == old(self).state.is_running,
            final(self).state.start_time_ms == old(self).state.start_time_ms,
            same_timing_fields(old(self).state, final(self).state),
            final(self).worker_alive == old(self).worker_alive,
            final(self).hotkey_active == old(self).hotkey_active,
            final(self).pending_toggle == old(self).pending_toggle,
    {
        if self.state.click_count < u64::MAX {
            self.state.click_count = self.state.click_count + 1;
        }
        self.state.last_click_time_ms = Some(now_ms);
    }

    /// One consistent snapshot of the counters for display.
    pub fn get_status(&self, now_ms: u64) -> (st: Status)
        ensures
            st.is_running == self.state.is_running,
            st.click_count == self.state.click_count,
            st.elapsed_ms == age_ms(now_ms, self.state.start_time_ms),
            st.last_click_age_ms == age_ms(now_ms, self.state.last_click_time_ms),
    {
        Status {
            is_running: self.state.is_running,
            click_count: self.state.click_count,
            elapsed_ms: match self.state.start_time_ms {
                Some(t) => if now_ms >= t {
                    Some(now_ms - t)
                } else {
                    Some(0)
                },
                None => None,
            },
            last_click_age_ms: match self.state.last_click_time_ms {
                Some(t) => if now_ms >= t {
                    Some(now_ms - t)
                } else {
                    Some(0)
                },
                None => None,
            },
        }
    }

    /// Swaps the five runtime timing fields for the given configuration's
    /// and returns the refreshed pattern display text. Only valid while no
    /// worker runs; the edit boundary has already validated the
    /// configuration. Counters and timestamps stay as they were.
    pub fn apply_config(&mut self, config: &ClickerConfig) -> (text: String)
        requires
            old(self).wf(),
            !old(self).state.is_running,
            config.valid(),
        ensures
            final(self).wf(),
            final(self).state.click_mode == config.click_mode,
            final(self).state.mouse_button == config.mouse_button,
            final(self).state.fixed_interval_ms == config.fixed_interval_ms,
            final(self).state.min_random_interval_ms == config.min_random_interval_ms,
            final(self).state.max_random_interval_ms == config.max_random_interval_ms,
            final(self).state.pattern_intervals@ == config.pattern_intervals@,
            final(self).state.is_running == old(self).state.is_running,
            final(self).state.click_count == old(self).state.click_count,
            final(self).state.start_time_ms == old(self).state.start_time_ms,
            final(self).state.last_click_time_ms == old(self).state.last_click_time_ms,
            final(self).worker_alive == old(self).worker_alive,
            final(self).hotkey_active == old(self).hotkey_active,
            final(self).pending_toggle == old(self).pending_toggle,
            text@ == pattern_text_spec(config.pattern_intervals@),
    {
        self.state.click_mode = config.click_mode;
        self.state.mouse_button = config.mouse_button;
        self.state.fixed_interval_ms = config.fixed_interval_ms;
        self.state.min_random_interval_ms = config.min_random_interval_ms;
        self.state.max_random_interval_ms = config.max_random_interval_ms;
        self.state.pattern_intervals = clone_intervals(&config.pattern_intervals);
        pattern_text(&config.pattern_intervals)
    }

    /// Turns the hotkey bridge on. Idempotent: the result says whether the
    /// caller must register the OS listener now — it is true at most once
    /// until the bridge is disabled again.
    pub fn enable_hotkey(&mut self) -> (newly_registered: bool)
        ensures
            final(self).hotkey_active,
            newly_registered == !old(self).hotkey_active,
            final(self).state == old(self).state,
            final(self).worker_alive == old(self).worker_alive,
            final(self).pending_toggle == old(self).pending_toggle,
    {
        let newly_registered = !self.hotkey_active;
        self.hotkey_active = true;
        newly_registered
    }

    /// Turns the hotkey bridge off. Idempotent. The OS listener may keep
    /// running, but the bridge stops acting on its triggers: see
    /// [`Engine::post_hotkey_command`].
    pub fn disable_hotkey(&mut self)
        ensures
            !final(self).hotkey_active,
            final(self).state == old(self).state,
            final(self).worker_alive == old(self).worker_alive,
            final(self).pending_toggle == old(self).pending_toggle,
    {
        self.hotkey_active = false;
    }

    /// For the UI display.
    pub fn is_hotkey_active(&self) -> (b: bool)
        ensures
            b == self.hotkey_active,
    {
        self.hotkey_active
    }

    /// What the hotkey listener calls on key-down: writes the single-slot
    /// mailbox with overwrite semantics, so a second trigger before the
    /// first is consumed coalesces with it. While the bridge is inactive
    /// the trigger is ignored.
    pub fn post_hotkey_command(&mut self)
        ensures
            final(self).pending_toggle == (old(self).pending_toggle || old(self).hotkey_active),
            final(self).state == old(self).state,
            final(self).worker_alive == old(self).worker_alive,
            final(self).hotkey_active == old(self).hotkey_active,
    {
        if self.hotkey_active {
            self.pending_toggle = true;
        }
    }

    /// For the UI button label.
    pub fn is_running(&self) -> (b: bool)
        ensures
            b == self.state.is_running,
    {
        self.state.is_running
    }
}

/// Law: calling start twice in a row without an intervening stop leaves the
/// engine exactly as the first call left it — the click counter is not
/// reset a second time — and spawns no second worker.
pub proof fn lemma_second_start_is_noop(
    e0: Engine,
    e1: Engine,
    e2: Engine,
    now1: u64,
    now2: u64,
    a1: LifecycleAction,
    a2: LifecycleAction,
)
    requires
        !e0.state.is_running,
        start_effect(e0, e1, now1, a1),
        start_effect(e1, e2, now2, a2),
    ensures
        e2 == e1,
        a2 is Stay,
{
}

/// Law: after stop returns, the running flag reads false and the worker
/// handle is gone, so a worker that next observes the state is bound by
/// [`Engine::worker_observe`]'s contract to take the exit decision and
/// mutate nothing further. The counter keeps its final value. The join the
/// caller performs completes within one sleep interval, since the worker
/// re-checks the flag at the top of every iteration.
pub proof fn lemma_stop_halts_worker(e0: Engine, e1: Engine, a: LifecycleAction)
    requires
        e0.wf(),
        stop_effect(e0, e1, a),
    ensures
        !e1.state.is_running,
        !e1.worker_alive,
        e0.state.is_running ==> a is Join,
        e1.state.click_count == e0.state.click_count,
{
}

/// Law: a hotkey trigger waiting in the mailbox and a UI button press that
/// land in the same control tick coalesce into exactly one lifecycle
/// transition — the running flag flips once, never twice — and the mailbox
/// is left empty.
pub proof fn lemma_tick_coalesces_toggles(
    pre: Engine,
    post: Engine,
    ui_toggle: bool,
    now_ms: u64,
    action: LifecycleAction,
)
    requires
        tick_effect(pre, post, ui_toggle, now_ms, action),
        pre.pending_toggle || ui_toggle,
    ensures
        post.state.is_running == !pre.state.is_running,
        !post.pending_toggle,
{
}

} // verus!
