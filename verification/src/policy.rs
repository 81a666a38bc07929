//! Update-mode policy: the pure decision layer that tells the event pump
//! whether to tick the engine this iteration and what the OS event loop
//! should wait for next.
//!
//! Times are monotone timestamps and durations in abstract ticks (the caller
//! picks the unit, e.g. milliseconds); only differences of timestamps matter.

use vstd::prelude::*;

verus! {

/// Update cadence for one focus state: tick every iteration, tick on the
/// pump's own wait cadence, or tick only when something actually happened.
#[derive(Clone, Copy, Debug, PartialEq, Eq, Structural)]
pub enum UpdateMode {
    /// Tick the engine every loop iteration.
    Continuous,
    /// Tick on the loop's cadence; the loop sleeps at most `max_wait` ticks.
    Reactive { max_wait: u64 },
    /// Tick only when a window event arrived, a redraw was requested, or
    /// `max_wait` ticks have passed since the last update.
    ReactiveLowPower { max_wait: u64 },
}

impl UpdateMode {
    /// The bound on how long the loop may sleep in this mode; `Continuous`
    /// never sleeps.
    pub open spec fn spec_max_wait(self) -> Option<u64> {
        match self {
            UpdateMode::Continuous => None,
            UpdateMode::Reactive { max_wait } => Some(max_wait),
            UpdateMode::ReactiveLowPower { max_wait } => Some(max_wait),
        }
    }

    /// The sleep bound, with 0 standing in for `Continuous` (which never
    /// sleeps); convenient for arithmetic side conditions.
    pub open spec fn spec_max_wait_or_zero(self) -> u64 {
        match self.spec_max_wait() {
            Some(w) => w,
            None => 0,
        }
    }
}

/// Immutable configuration: which update mode governs while some window is
/// focused, which while none is, and whether the runner hands control back to
/// its caller when the loop exits.
#[derive(Clone, Copy, Debug, PartialEq, Eq, Structural)]
pub struct UpdateModeConfig {
    pub focused_mode: UpdateMode,
    pub unfocused_mode: UpdateMode,
    pub return_from_run: bool,
}

impl UpdateModeConfig {
    /// The mode that applies when `focused` says whether any window has focus.
    pub open spec fn spec_update_mode(self, focused: bool) -> UpdateMode {
        if focused {
            self.focused_mode
        } else {
            self.unfocused_mode
        }
    }

    /// Selects the mode for this loop iteration by focus state.
    pub fn update_mode(&self, focused: bool) -> (mode: UpdateMode)
        ensures
            mode == self.spec_update_mode(focused),
    {
        if focused {
            self.focused_mode
        } else {
            self.unfocused_mode
        }
    }
}

/// Loop state that persists between frames; reset or mutated once per
/// iteration by the event pump and read nowhere else.
#[derive(Clone, Copy, Debug, PartialEq, Eq, Structural)]
pub struct PersistentLoopState {
    /// Whether the application is active (false while suspended).
    pub active: bool,
    /// Whether an event arrived this frame that warrants a low-power update.
    pub low_power_event: bool,
    /// Whether the frame was started because the application asked for a
    /// redraw during the previous tick.
    pub redraw_request_sent: bool,
    /// Whether this frame was started by a scheduled wake, or the configured
    /// wait has elapsed since the last update.
    pub timeout_reached: bool,
    /// Timestamp of the most recent engine update.
    pub last_update: u64,
}

/// Time elapsed since `last`, saturating at zero if `now` reads earlier (a
/// spurious wake may deliver a stale timestamp).
pub open spec fn spec_elapsed(last: u64, now: u64) -> int {
    if now >= last {
        now - last
    } else {
        0
    }
}

/// Whether the wait timeout counts as reached at frame start: either the OS
/// signalled the scheduled wake, or `max_wait` for the governing mode has
/// elapsed since the last update.
pub open spec fn spec_timeout_reached(
    mode: UpdateMode,
    last_update: u64,
    now: u64,
    resume_time_reached: bool,
) -> bool {
    resume_time_reached || match mode {
        UpdateMode::Continuous => false,
        UpdateMode::Reactive { max_wait } => spec_elapsed(last_update, now) >= max_wait,
        UpdateMode::ReactiveLowPower { max_wait } => spec_elapsed(last_update, now) >= max_wait,
    }
}

/// The loop state after the start-of-frame bookkeeping.
pub open spec fn spec_begin_frame(
    st: PersistentLoopState,
    mode: UpdateMode,
    resume_time_reached: bool,
    now: u64,
) -> PersistentLoopState {
    PersistentLoopState {
        active: st.active,
        low_power_event: false,
        redraw_request_sent: st.redraw_request_sent,
        timeout_reached: spec_timeout_reached(mode, st.last_update, now, resume_time_reached),
        last_update: st.last_update,
    }
}

/// Whether the engine should be advanced by one tick this iteration: never
/// while inactive; always in `Continuous` and `Reactive` modes; in
/// `ReactiveLowPower` only if an event arrived, a redraw was requested, or
/// the wait timeout was reached.
pub open spec fn spec_should_update(mode: UpdateMode, st: PersistentLoopState) -> bool {
    st.active && match mode {
        UpdateMode::Continuous => true,
        UpdateMode::Reactive { .. } => true,
        UpdateMode::ReactiveLowPower { .. } => st.low_power_event || st.redraw_request_sent
            || st.timeout_reached,
    }
}

/// What the OS event loop should do after this iteration.
#[derive(Clone, Copy, Debug, PartialEq, Eq, Structural)]
pub enum WaitDirective {
    /// Run the next iteration immediately.
    Poll,
    /// Sleep until `deadline` (advisory: spurious earlier wakes are allowed
    /// and re-evaluated as a fresh iteration).
    WaitUntil { deadline: u64 },
    /// Leave the loop after this iteration; terminal.
    Exit,
}

/// The wait directive for the end of an iteration: an exit request wins, a
/// redraw request forces an immediate poll, otherwise the mode decides.
pub open spec fn spec_wait_directive(
    mode: UpdateMode,
    now: u64,
    redraw_requested: bool,
    exit_requested: bool,
) -> WaitDirective
    recommends
        now + mode.spec_max_wait_or_zero() <= u64::MAX,
{
    if exit_requested {
        WaitDirective::Exit
    } else if redraw_requested {
        WaitDirective::Poll
    } else {
        match mode {
            UpdateMode::Continuous => WaitDirective::Poll,
            UpdateMode::Reactive { max_wait } => (WaitDirective::WaitUntil {
                deadline: (now + max_wait) as u64,
            }),
            UpdateMode::ReactiveLowPower { max_wait } => (WaitDirective::WaitUntil {
                deadline: (now + max_wait) as u64,
            }),
        }
    }
}

impl PersistentLoopState {
    /// Fresh loop state: active, no events seen, last update stamped `now`.
    pub fn new(now: u64) -> (st: Self)
        ensures
            st.active,
            !st.low_power_event,
            !st.redraw_request_sent,
            !st.timeout_reached,
            st.last_update == now,
    {
        PersistentLoopState {
            active: true,
            low_power_event: false,
            redraw_request_sent: false,
            timeout_reached: false,
            last_update: now,
        }
    }

    /// Start-of-frame bookkeeping: forget last frame's events and recompute
    /// whether the wait timeout counts as reached, from the wake cause and
    /// the time elapsed since the last update.
    pub fn begin_frame(&mut self, mode: UpdateMode, resume_time_reached: bool, now: u64)
        ensures
            *final(self) == spec_begin_frame(*old(self), mode, resume_time_reached, now),
    {
        let manual_timeout_reached = match mode {
            UpdateMode::Continuous => false,
            UpdateMode::Reactive { max_wait } => elapsed(self.last_update, now) >= max_wait,
            UpdateMode::ReactiveLowPower { max_wait } => elapsed(self.last_update, now)
                >= max_wait,
        };
        self.low_power_event = false;
        self.timeout_reached = resume_time_reached || manual_timeout_reached;
    }
}

/// Time elapsed since `last`, saturating at zero.
pub fn elapsed(last: u64, now: u64) -> (r: u64)
    ensures
        r == spec_elapsed(last, now),
{
    if now >= last {
        now - last
    } else {
        0
    }
}

/// The update decision for one iteration.
pub fn should_update(mode: UpdateMode, st: &PersistentLoopState) -> (r: bool)
    ensures
        r == spec_should_update(mode, *st),
{
    if !st.active {
        false
    } else {
        match mode {
            UpdateMode::Continuous => true,
            UpdateMode::Reactive { .. } => true,
            UpdateMode::ReactiveLowPower { .. } => st.low_power_event || st.redraw_request_sent
                || st.timeout_reached,
        }
    }
}

/// The wait directive for the end of an iteration.
pub fn next_wait_directive(
    mode: UpdateMode,
    now: u64,
    redraw_requested: bool,
    exit_requested: bool,
) -> (d: WaitDirective)
    requires
        now + mode.spec_max_wait_or_zero() <= u64::MAX,
    ensures
        d == spec_wait_directive(mode, now, redraw_requested, exit_requested),
{
    if exit_requested {
        WaitDirective::Exit
    } else if redraw_requested {
        WaitDirective::Poll
    } else {
        match mode {
            UpdateMode::Continuous => WaitDirective::Poll,
            UpdateMode::Reactive { max_wait } => WaitDirective::WaitUntil {
                deadline: now + max_wait,
            },
            UpdateMode::ReactiveLowPower { max_wait } => WaitDirective::WaitUntil {
                deadline: now + max_wait,
            },
        }
    }
}

/// Law: while active, `Continuous` mode always decides to update, whatever
/// the event and timeout flags say.
pub proof fn lemma_continuous_always_updates(st: PersistentLoopState)
    requires
        st.active,
    ensures
        spec_should_update(UpdateMode::Continuous, st),
{
}

/// Law: in `ReactiveLowPower`, a frame on which no window event arrived and
/// no redraw was requested updates exactly when `max_wait` has elapsed since
/// the last update (equivalently, when the scheduled wake fired).
pub proof fn lemma_low_power_idle_frame(st: PersistentLoopState, max_wait: u64, now: u64)
    requires
        st.active,
        !st.redraw_request_sent,
    ensures
        ({
            let mode = UpdateMode::ReactiveLowPower { max_wait };
            let at_frame_start = spec_begin_frame(st, mode, false, now);
            spec_should_update(mode, at_frame_start) == (spec_elapsed(st.last_update, now)
                >= max_wait)
        }),
{
}

} // verus!
