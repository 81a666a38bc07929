//! Event pump: the single-threaded loop object that owns the window registry,
//! the per-window states, the persistent loop state and the update-mode
//! configuration.
//!
//! The OS loop drives it through one method per loop stage: start-of-frame
//! bookkeeping, native window events (translated into engine events), the
//! update decision once the frame's events are dispatched, and the wait
//! directive once redraws are done. Create requests and window commands are
//! queued here and drained once per frame; the caller performs the returned
//! native actions. A native event whose handle the registry does not know, or
//! knows only as a tombstone, is dropped with a typed report and changes
//! nothing.

use vstd::prelude::*;

use crate::policy::{spec_begin_frame, spec_should_update, spec_wait_directive, should_update,
    next_wait_directive, PersistentLoopState, UpdateMode, UpdateModeConfig, WaitDirective};
use crate::registry::WindowRegistry;
use crate::window::{logical_size, physical_size, spec_initial_state, spec_logical_size,
    spec_physical_size, EngineEvent, FullscreenDirective, NativeAction, NativeWindowInfo,
    WindowCommand, WindowDescriptor, WindowMode, WindowState, MAX_SCALE_MILLI};
use crate::BackendError;

verus! {

/// A live window: its engine id and the state mirrored from OS notifications.
#[derive(Clone, Copy, Debug, PartialEq, Eq)]
pub struct WindowEntry {
    pub id: u64,
    pub state: WindowState,
}

/// No two entries share an engine id.
pub open spec fn unique_ids(s: Seq<WindowEntry>) -> bool {
    forall|a: int, b: int|
        0 <= a < s.len() && 0 <= b < s.len() && a != b ==> s[a].id != s[b].id
}

/// A native window event, as the OS loop reports it; sizes and positions are
/// physical pixels, scale factors are in thousandths.
#[derive(Clone, Copy, Debug, PartialEq, Eq)]
pub enum OsWindowEvent {
    Resized { physical_width: u32, physical_height: u32 },
    CloseRequested,
    /// The OS proposes a new scale factor and inner size; the handler may
    /// rewrite the size before it is acknowledged back to the OS.
    ScaleFactorChanged { scale_milli: u32, proposed_width: u32, proposed_height: u32 },
    Focused { focused: bool },
    Moved { x: i32, y: i32 },
    /// Cursor position in physical pixels, origin at the top left.
    CursorMoved { physical_x: u32, physical_y: u32 },
}

impl OsWindowEvent {
    /// Scale factors reported by the OS stay within the model's bounds.
    pub open spec fn wf(self) -> bool {
        match self {
            OsWindowEvent::ScaleFactorChanged { scale_milli, .. } => 1 <= scale_milli
                <= MAX_SCALE_MILLI,
            _ => true,
        }
    }
}

/// The cursor's y coordinate with the origin moved to the bottom left.
pub open spec fn spec_flip_y(height: u32, y: u32) -> u32 {
    if y <= height {
        (height - y) as u32
    } else {
        0
    }
}

/// The physical size acknowledged back to the OS for a scale factor change:
/// when a forced scale factor is configured, the requested logical size under
/// that factor replaces the OS's proposal; otherwise the proposal stands.
pub open spec fn spec_scale_ack(st: WindowState, pw: u32, ph: u32) -> (u32, u32)
    recommends
        st.wf(),
{
    match st.scale_override_milli {
        Some(f) => (
            spec_physical_size(st.requested_logical_width, f) as u32,
            spec_physical_size(st.requested_logical_height, f) as u32,
        ),
        None => (pw, ph),
    }
}

/// The size acknowledged back to the OS, if the event carries one.
pub open spec fn spec_event_ack(st: WindowState, ev: OsWindowEvent) -> Option<(u32, u32)> {
    match ev {
        OsWindowEvent::ScaleFactorChanged { scale_milli, proposed_width, proposed_height } => Some(
            spec_scale_ack(st, proposed_width, proposed_height),
        ),
        _ => None,
    }
}

/// The per-window state after a native event is applied to it.
pub open spec fn spec_apply_window_event(st: WindowState, ev: OsWindowEvent) -> WindowState {
    match ev {
        OsWindowEvent::Resized { physical_width, physical_height } => WindowState {
            physical_width,
            physical_height,
            ..st
        },
        OsWindowEvent::CloseRequested => st,
        OsWindowEvent::ScaleFactorChanged { scale_milli, proposed_width, proposed_height } => {
            let ack = spec_scale_ack(st, proposed_width, proposed_height);
            WindowState {
                backend_scale_milli: scale_milli,
                physical_width: ack.0,
                physical_height: ack.1,
                ..st
            }
        },
        OsWindowEvent::Focused { focused } => WindowState { focused, ..st },
        OsWindowEvent::Moved { x, y } => WindowState { position: Some((x, y)), ..st },
        OsWindowEvent::CursorMoved { physical_x, physical_y } => WindowState {
            cursor_physical: Some((physical_x, spec_flip_y(st.physical_height, physical_y))),
            ..st
        },
    }
}

/// The engine events a native event gives rise to, in emission order, for the
/// window in state `st` with engine id `id`.
pub open spec fn spec_emitted_events(st: WindowState, ev: OsWindowEvent, id: u64) -> Seq<
    EngineEvent,
>
    recommends
        st.wf(),
        ev.wf(),
{
    match ev {
        OsWindowEvent::Resized { physical_width, physical_height } => {
            let sc = st.spec_effective_scale_milli();
            seq![
                EngineEvent::WindowResized {
                    id,
                    logical_width: spec_logical_size(physical_width, sc),
                    logical_height: spec_logical_size(physical_height, sc),
                },
            ]
        },
        OsWindowEvent::CloseRequested => seq![EngineEvent::WindowCloseRequested { id }],
        OsWindowEvent::ScaleFactorChanged { scale_milli, proposed_width, proposed_height } => {
            let prior = st.spec_effective_scale_milli();
            let ack = spec_scale_ack(st, proposed_width, proposed_height);
            let nf = match st.scale_override_milli {
                Some(f) => f,
                None => scale_milli,
            };
            let base = seq![EngineEvent::WindowBackendScaleFactorChanged { id, scale_milli }];
            let with_scale = if nf != prior {
                base.push(EngineEvent::WindowScaleFactorChanged { id, scale_milli })
            } else {
                base
            };
            let new_lw = spec_logical_size(ack.0, nf);
            let new_lh = spec_logical_size(ack.1, nf);
            if new_lw != spec_logical_size(st.physical_width, nf) || new_lh != spec_logical_size(
                st.physical_height,
                nf,
            ) {
                with_scale.push(
                    EngineEvent::WindowResized { id, logical_width: new_lw, logical_height: new_lh },
                )
            } else {
                with_scale
            }
        },
        OsWindowEvent::Focused { focused } => seq![EngineEvent::WindowFocused { id, focused }],
        OsWindowEvent::Moved { x, y } => seq![EngineEvent::WindowMoved { id, x, y }],
        OsWindowEvent::CursorMoved { physical_x, physical_y } => {
            let sc = st.spec_effective_scale_milli();
            seq![
                EngineEvent::CursorMoved {
                    id,
                    logical_x: spec_logical_size(physical_x, sc),
                    logical_y: spec_logical_size(spec_flip_y(st.physical_height, physical_y), sc),
                },
            ]
        },
    }
}

/// The native fullscreen directive for a window-mode command.
pub open spec fn spec_mode_directive(mode: WindowMode, w: u32, h: u32) -> FullscreenDirective {
    match mode {
        WindowMode::Windowed => FullscreenDirective::Windowed,
        WindowMode::BorderlessFullscreen => FullscreenDirective::Borderless,
        WindowMode::Fullscreen => FullscreenDirective::ExclusiveBest,
        WindowMode::SizedFullscreen => FullscreenDirective::ExclusiveFitting { width: w, height: h },
    }
}

/// The per-window state after a command is applied (`Close` tears the entry
/// down instead and is handled by `process_command` directly).
pub open spec fn spec_command_state(st: WindowState, cmd: WindowCommand) -> WindowState {
    match cmd {
        WindowCommand::SetWindowMode { mode, .. } => WindowState { mode, ..st },
        WindowCommand::SetScaleFactor { scale_milli } => WindowState {
            scale_override_milli: Some(scale_milli),
            ..st
        },
        WindowCommand::SetResizable { resizable } => WindowState { resizable, ..st },
        WindowCommand::SetMaximized { maximized } => WindowState { maximized, ..st },
        WindowCommand::SetMinimized { minimized } => WindowState { minimized, ..st },
        WindowCommand::SetResizeConstraints { constraints } => WindowState {
            constraints: constraints.spec_checked(),
            ..st
        },
        _ => st,
    }
}

/// The native calls a command translates into for the window with handle `h`.
pub open spec fn spec_command_actions(h: u64, cmd: WindowCommand) -> Seq<NativeAction>
    recommends
        cmd.wf(),
{
    match cmd {
        WindowCommand::SetTitle { title } => seq![NativeAction::SetTitle { handle: h, title }],
        WindowCommand::SetWindowMode { mode, resolution_width, resolution_height } => seq![
            NativeAction::SetFullscreen {
                handle: h,
                fullscreen: spec_mode_directive(mode, resolution_width, resolution_height),
            },
        ],
        WindowCommand::SetScaleFactor { .. } => seq![],
        WindowCommand::SetResolution { logical_width, logical_height, scale_milli } => seq![
            NativeAction::SetInnerSize {
                handle: h,
                physical_width: spec_physical_size(logical_width, scale_milli) as u32,
                physical_height: spec_physical_size(logical_height, scale_milli) as u32,
            },
        ],
        WindowCommand::SetResizable { resizable } => seq![
            NativeAction::SetResizable { handle: h, resizable },
        ],
        WindowCommand::SetMaximized { maximized } => seq![
            NativeAction::SetMaximized { handle: h, maximized },
        ],
        WindowCommand::SetMinimized { minimized } => seq![
            NativeAction::SetMinimized { handle: h, minimized },
        ],
        WindowCommand::SetPosition { x, y } => seq![
            NativeAction::SetOuterPosition { handle: h, x, y },
        ],
        WindowCommand::SetResizeConstraints { constraints } => {
            let cc = constraints.spec_checked();
            let base = seq![
                NativeAction::SetMinInnerSize {
                    handle: h,
                    logical_width: cc.min_width,
                    logical_height: cc.min_height,
                },
            ];
            if cc.max_width != u32::MAX && cc.max_height != u32::MAX {
                base.push(
                    NativeAction::SetMaxInnerSize {
                        handle: h,
                        logical_width: cc.max_width,
                        logical_height: cc.max_height,
                    },
                )
            } else {
                base
            }
        },
        WindowCommand::Close => seq![NativeAction::DestroyWindow { handle: h }],
    }
}

/// The engine events a command publishes.
pub open spec fn spec_command_events(id: u64, cmd: WindowCommand) -> Seq<EngineEvent> {
    match cmd {
        WindowCommand::SetScaleFactor { scale_milli } => seq![
            EngineEvent::WindowScaleFactorChanged { id, scale_milli },
        ],
        WindowCommand::Close => seq![EngineEvent::WindowClosed { id }],
        _ => seq![],
    }
}

/// The loop object: registry, window states, loop state, configuration, the
/// engine-event queue and the request queues, all owned by the OS thread.
pub struct EventPump {
    pub registry: WindowRegistry,
    pub windows: Vec<WindowEntry>,
    pub loop_state: PersistentLoopState,
    pub config: UpdateModeConfig,
    /// Engine-level events in emission order, drained by the embedding.
    pub events: Vec<EngineEvent>,
    /// Create-window requests, drained once per frame.
    pub pending_creates: Vec<WindowDescriptor>,
    /// Queued window commands, drained once per frame by a single consumer.
    pub commands: Vec<(u64, WindowCommand)>,
}

impl EventPump {
    /// Registry and states are well formed, ids are unique and all were
    /// minted by the registry's counter.
    pub open spec fn wf(self) -> bool {
        &&& self.registry.wf()
        &&& unique_ids(self.windows@)
        &&& forall|i: int|
            0 <= i < self.windows@.len() ==> (#[trigger] self.windows@[i]).id
                < self.registry.spec_next_id()
        &&& forall|i: int| 0 <= i < self.windows@.len() ==> (#[trigger] self.windows@[i]).state.wf()
    }

    /// Whether some entry carries this engine id.
    pub open spec fn has_window(self, id: u64) -> bool {
        exists|i: int| 0 <= i < self.windows@.len() && (#[trigger] self.windows@[i]).id == id
    }

    /// The index of the entry carrying this engine id (unique under `wf`).
    pub open spec fn win_index(self, id: u64) -> int {
        choose|i: int| 0 <= i < self.windows@.len() && (#[trigger] self.windows@[i]).id == id
    }

    /// Whether any window currently has focus.
    pub open spec fn spec_any_focused(self) -> bool {
        exists|i: int| 0 <= i < self.windows@.len() && (#[trigger] self.windows@[i]).state.focused
    }

    /// The update mode governing this iteration, by current focus state.
    pub open spec fn spec_current_mode(self) -> UpdateMode {
        self.config.spec_update_mode(self.spec_any_focused())
    }

    /// A fresh pump with no windows, no queued work, and loop state stamped
    /// at `now`.
    pub fn new(config: UpdateModeConfig, now: u64) -> (p: Self)
        ensures
            p.wf(),
            p.registry.forward_map() == Map::<u64, u64>::empty(),
            p.registry.reverse_map() == Map::<u64, u64>::empty(),
            p.registry.spec_next_id() == 0,
            p.windows@ == Seq::<WindowEntry>::empty(),
            p.events@ == Seq::<EngineEvent>::empty(),
            p.pending_creates@ == Seq::<WindowDescriptor>::empty(),
            p.commands@ == Seq::<(u64, WindowCommand)>::empty(),
            p.config == config,
            p.loop_state.active && !p.loop_state.low_power_event && !p.loop_state.redraw_request_sent
                && !p.loop_state.timeout_reached && p.loop_state.last_update == now,
    {
        EventPump {
            registry: WindowRegistry::new(),
            windows: Vec::new(),
            loop_state: PersistentLoopState::new(now),
            config,
            events: Vec::new(),
            pending_creates: Vec::new(),
            commands: Vec::new(),
        }
    }

    /// Finds the entry index for an engine id.
    fn find_window(&self, id: u64) -> (r: Option<usize>)
        requires
            self.wf(),
        ensures
            match r {
                Some(i) => {
                    &&& self.has_window(id)
                    &&& i == self.win_index(id)
                    &&& 0 <= i < self.windows@.len()
                    &&& self.windows@[i as int].id == id
                },
                None => !self.has_window(id),
            },
    {
        let mut i: usize = 0;
        while i < self.windows.len()
            invariant
                self.wf(),
                i <= self.windows@.len(),
                forall|j: int| 0 <= j < i ==> (#[trigger] self.windows@[j]).id != id,
            decreases self.windows@.len() - i,
        {
            if self.windows[i].id == id {
                proof {
                    assert(self.has_window(id));
                    let w = self.win_index(id);
                    assert(self.windows@[w].id == id);
                    assert(unique_ids(self.windows@));
                    if w != i as int {
                        assert(self.windows@[w].id != self.windows@[i as int].id);
                    }
                }
                return Some(i);
            }
            i = i + 1;
        }
        None
    }

    /// Whether any window currently has focus.
    pub fn any_focused(&self) -> (r: bool)
        ensures
            r == self.spec_any_focused(),
    {
        let mut i: usize = 0;
        while i < self.windows.len()
            invariant
                i <= self.windows@.len(),
                forall|j: int| 0 <= j < i ==> !(#[trigger] self.windows@[j]).state.focused,
            decreases self.windows@.len() - i,
        {
            if self.windows[i].state.focused {
                return true;
            }
            i = i + 1;
        }
        false
    }

    /// Start-of-frame bookkeeping: forgets last frame's low-power events and
    /// recomputes whether the wait timeout counts as reached, under the mode
    /// selected by the current focus state.
    pub fn new_frame(&mut self, resume_time_reached: bool, now: u64)
        requires
            old(self).wf(),
        ensures
            final(self).wf(),
            final(self).loop_state == spec_begin_frame(
                old(self).loop_state,
                old(self).spec_current_mode(),
                resume_time_reached,
                now,
            ),
            final(self).registry == old(self).registry,
            final(self).windows == old(self).windows,
            final(self).config == old(self).config,
            final(self).events == old(self).events,
            final(self).pending_creates == old(self).pending_creates,
            final(self).commands == old(self).commands,
    {
        let focused = self.any_focused();
        let mode = self.config.update_mode(focused);
        self.loop_state.begin_frame(mode, resume_time_reached, now);
    }

    /// The application was suspended: updates are gated off until resume.
    pub fn suspended(&mut self)
        ensures
            !final(self).loop_state.active,
            final(self).loop_state.low_power_event == old(self).loop_state.low_power_event,
            final(self).loop_state.redraw_request_sent == old(self).loop_state.redraw_request_sent,
            final(self).loop_state.timeout_reached == old(self).loop_state.timeout_reached,
            final(self).loop_state.last_update == old(self).loop_state.last_update,
            final(self).registry == old(self).registry,
            final(self).windows == old(self).windows,
            final(self).config == old(self).config,
            final(self).events == old(self).events,
            final(self).pending_creates == old(self).pending_creates,
            final(self).commands == old(self).commands,
            old(self).wf() ==> final(self).wf(),
    {
        self.loop_state.active = false;
    }

    /// The application was resumed: updates may run again.
    pub fn resumed(&mut self)
        ensures
            final(self).loop_state.active,
            final(self).loop_state.low_power_event == old(self).loop_state.low_power_event,
            final(self).loop_state.redraw_request_sent == old(self).loop_state.redraw_request_sent,
            final(self).loop_state.timeout_reached == old(self).loop_state.timeout_reached,
            final(self).loop_state.last_update == old(self).loop_state.last_update,
            final(self).registry == old(self).registry,
            final(self).windows == old(self).windows,
            final(self).config == old(self).config,
            final(self).events == old(self).events,
            final(self).pending_creates == old(self).pending_creates,
            final(self).commands == old(self).commands,
            old(self).wf() ==> final(self).wf(),
    {
        self.loop_state.active = true;
    }

    /// A device-level raw motion event: published unconditionally, not gated
    /// by any window.
    pub fn device_motion(&mut self, delta_x: i64, delta_y: i64)
        ensures
            final(self).events@ == old(self).events@.push(
                EngineEvent::RelativeMotion { delta_x, delta_y },
            ),
            final(self).registry == old(self).registry,
            final(self).windows == old(self).windows,
            final(self).config == old(self).config,
            final(self).loop_state == old(self).loop_state,
            final(self).pending_creates == old(self).pending_creates,
            final(self).commands == old(self).commands,
            old(self).wf() ==> final(self).wf(),
    {
        self.events.push(EngineEvent::RelativeMotion { delta_x, delta_y });
    }

    /// Queues a create-window request; it materializes when the frame's
    /// main events are cleared.
    pub fn request_create(&mut self, desc: WindowDescriptor)
        ensures
            final(self).pending_creates@ == old(self).pending_creates@.push(desc),
            final(self).registry == old(self).registry,
            final(self).windows == old(self).windows,
            final(self).config == old(self).config,
            final(self).loop_state == old(self).loop_state,
            final(self).events == old(self).events,
            final(self).commands == old(self).commands,
            old(self).wf() ==> final(self).wf(),
    {
        self.pending_creates.push(desc);
    }

    /// Hands the queued create requests to the caller (who performs the
    /// native creations and reports each back through `complete_create`),
    /// leaving the queue empty.
    pub fn drain_creates(&mut self) -> (v: Vec<WindowDescriptor>)
        ensures
            v@ == old(self).pending_creates@,
            final(self).pending_creates@ == Seq::<WindowDescriptor>::empty(),
            final(self).registry == old(self).registry,
            final(self).windows == old(self).windows,
            final(self).config == old(self).config,
            final(self).loop_state == old(self).loop_state,
            final(self).events == old(self).events,
            final(self).commands == old(self).commands,
            old(self).wf() ==> final(self).wf(),
    {
        let mut v: Vec<WindowDescriptor> = Vec::new();
        core::mem::swap(&mut v, &mut self.pending_creates);
        v
    }

    /// Queues a window command against an engine id; it is consumed by the
    /// frame's command-processing step.
    pub fn queue_command(&mut self, id: u64, cmd: WindowCommand)
        ensures
            final(self).commands@ == old(self).commands@.push((id, cmd)),
            final(self).registry == old(self).registry,
            final(self).windows == old(self).windows,
            final(self).config == old(self).config,
            final(self).loop_state == old(self).loop_state,
            final(self).events == old(self).events,
            final(self).pending_creates == old(self).pending_creates,
            old(self).wf() ==> final(self).wf(),
    {
        self.commands.push((id, cmd));
    }

    /// Hands the queued commands to the frame's single consumer, leaving the
    /// queue empty; each is then applied through `process_command`.
    pub fn take_commands(&mut self) -> (v: Vec<(u64, WindowCommand)>)
        ensures
            v@ == old(self).commands@,
            final(self).commands@ == Seq::<(u64, WindowCommand)>::empty(),
            final(self).registry == old(self).registry,
            final(self).windows == old(self).windows,
            final(self).config == old(self).config,
            final(self).loop_state == old(self).loop_state,
            final(self).events == old(self).events,
            final(self).pending_creates == old(self).pending_creates,
            old(self).wf() ==> final(self).wf(),
    {
        let mut v: Vec<(u64, WindowCommand)> = Vec::new();
        core::mem::swap(&mut v, &mut self.commands);
        v
    }

    /// Hands the engine events emitted so far to the embedding, in emission
    /// order, leaving the queue empty.
    pub fn drain_events(&mut self) -> (v: Vec<EngineEvent>)
        ensures
            v@ == old(self).events@,
            final(self).events@ == Seq::<EngineEvent>::empty(),
            final(self).registry == old(self).registry,
            final(self).windows == old(self).windows,
            final(self).config == old(self).config,
            final(self).loop_state == old(self).loop_state,
            final(self).pending_creates == old(self).pending_creates,
            final(self).commands == old(self).commands,
            old(self).wf() ==> final(self).wf(),
    {
        let mut v: Vec<EngineEvent> = Vec::new();
        core::mem::swap(&mut v, &mut self.events);
        v
    }

    /// The frame's update decision, once its events are dispatched and its
    /// create requests materialized: under the mode selected by the current
    /// focus state, decides whether to advance the engine by one tick. When
    /// it decides to, the last-update stamp is set to `now` and the caller
    /// must run exactly one engine tick, synchronously, before moving on.
    pub fn main_events_cleared(&mut self, now: u64) -> (update: bool)
        requires
            old(self).wf(),
        ensures
            final(self).wf(),
            update == spec_should_update(old(self).spec_current_mode(), old(self).loop_state),
            final(self).loop_state == if update {
                PersistentLoopState { last_update: now, ..old(self).loop_state }
            } else {
                old(self).loop_state
            },
            final(self).registry == old(self).registry,
            final(self).windows == old(self).windows,
            final(self).config == old(self).config,
            final(self).events == old(self).events,
            final(self).pending_creates == old(self).pending_creates,
            final(self).commands == old(self).commands,
    {
        let focused = self.any_focused();
        let mode = self.config.update_mode(focused);
        let update = should_update(mode, &self.loop_state);
        if update {
            self.loop_state.last_update = now;
        }
        update
    }

    /// The end-of-iteration wait directive: remembers whether the tick asked
    /// for a redraw, then lets an exit request end the loop, a redraw request
    /// force an immediate poll, and the governing mode decide otherwise.
    pub fn redraw_events_cleared(
        &mut self,
        now: u64,
        redraw_requested: bool,
        exit_requested: bool,
    ) -> (d: WaitDirective)
        requires
            old(self).wf(),
            now + old(self).config.focused_mode.spec_max_wait_or_zero() <= u64::MAX,
            now + old(self).config.unfocused_mode.spec_max_wait_or_zero() <= u64::MAX,
        ensures
            final(self).wf(),
            d == spec_wait_directive(
                old(self).spec_current_mode(),
                now,
                redraw_requested,
                exit_requested,
            ),
            final(self).loop_state == (PersistentLoopState {
                redraw_request_sent: redraw_requested,
                ..old(self).loop_state
            }),
            final(self).registry == old(self).registry,
            final(self).windows == old(self).windows,
            final(self).config == old(self).config,
            final(self).events == old(self).events,
            final(self).pending_creates == old(self).pending_creates,
            final(self).commands == old(self).commands,
    {
        let focused = self.any_focused();
        let mode = self.config.update_mode(focused);
        let d = next_wait_directive(mode, now, redraw_requested, exit_requested);
        self.loop_state.redraw_request_sent = redraw_requested;
        d
    }

    /// Materializes one drained create request: registers the window the OS
    /// created (or reports the typed failure if the OS denied creation) and
    /// publishes `WindowCreated`. New windows become visible to event
    /// dispatch from this point on.
    pub fn complete_create(
        &mut self,
        desc: &WindowDescriptor,
        native: &Option<NativeWindowInfo>,
    ) -> (r: Result<u64, BackendError>)
        requires
            old(self).wf(),
            old(self).registry.spec_next_id() < u64::MAX,
            desc.wf(),
            match *native {
                Some(info) => info.wf() && !old(self).registry.spec_handle_in_use(info.handle),
                None => true,
            },
        ensures
            final(self).wf(),
            final(self).config == old(self).config,
            final(self).loop_state == old(self).loop_state,
            final(self).pending_creates == old(self).pending_creates,
            final(self).commands == old(self).commands,
            match *native {
                Some(info) => {
                    let id = old(self).registry.spec_next_id();
                    &&& r == Ok::<u64, BackendError>(id)
                    &&& final(self).registry.forward_map() == old(
                        self,
                    ).registry.forward_map().insert(id, info.handle)
                    &&& final(self).registry.reverse_map() == old(
                        self,
                    ).registry.reverse_map().insert(info.handle, id)
                    &&& final(self).registry.spec_next_id() == id + 1
                    &&& final(self).windows@ == old(self).windows@.push(
                        WindowEntry { id, state: spec_initial_state(*desc, info) },
                    )
                    &&& final(self).events@ == old(self).events@.push(
                        EngineEvent::WindowCreated { id },
                    )
                },
                None => {
                    &&& r == Err::<u64, BackendError>(BackendError::WindowCreationFailed)
                    &&& *final(self) == *old(self)
                },
            },
    {
        match self.registry.create_window(desc, native) {
            Ok((id, st)) => {
                self.windows.push(WindowEntry { id, state: st });
                self.events.push(EngineEvent::WindowCreated { id });
                proof {
                    let s = self.windows@;
                    assert forall|a: int, b: int|
                        0 <= a < s.len() && 0 <= b < s.len() && a != b implies s[a].id
                        != s[b].id by {
                        if a < old(self).windows@.len() && b < old(self).windows@.len() {
                            assert(old(self).windows@[a].id != old(self).windows@[b].id);
                        }
                    }
                }
                Ok(id)
            },
            Err(e) => Err(e),
        }
    }

    /// Translates one native window event: resolves the engine id through the
    /// registry, marks the low-power flag, applies the state change, and
    /// publishes the matching engine events (state first, events after). An
    /// event for a handle the registry never registered, or whose window has
    /// already been torn down, is reported and changes nothing, so late
    /// events are dropped rather than misrouted. For a scale factor change
    /// the returned size must be acknowledged back to the OS; it is the OS's
    /// proposal unless a forced scale factor rewrites it.
    #[verifier::rlimit(100)]
    pub fn window_event(&mut self, handle: u64, ev: &OsWindowEvent) -> (r: Result<
        Option<(u32, u32)>,
        BackendError,
    >)
        requires
            old(self).wf(),
            ev.wf(),
        ensures
            final(self).wf(),
            final(self).registry == old(self).registry,
            final(self).config == old(self).config,
            final(self).pending_creates == old(self).pending_creates,
            final(self).commands == old(self).commands,
            ({
                let known = old(self).registry.reverse_map().contains_key(handle);
                let id = old(self).registry.reverse_map()[handle];
                if known && old(self).has_window(id) {
                    let i = old(self).win_index(id);
                    let st = old(self).windows@[i].state;
                    &&& r == Ok::<Option<(u32, u32)>, BackendError>(spec_event_ack(st, *ev))
                    &&& final(self).windows@ == old(self).windows@.update(
                        i,
                        WindowEntry { id, state: spec_apply_window_event(st, *ev) },
                    )
                    &&& final(self).events@ == old(self).events@ + spec_emitted_events(st, *ev, id)
                    &&& final(self).loop_state == (PersistentLoopState {
                        low_power_event: true,
                        ..old(self).loop_state
                    })
                } else {
                    &&& r == Err::<Option<(u32, u32)>, BackendError>(
                        BackendError::UnknownNativeHandle,
                    )
                    &&& *final(self) == *old(self)
                }
            }),
    {
        let id = match self.registry.get_engine_id(handle) {
            Some(id) => id,
            None => {
                return Err(BackendError::UnknownNativeHandle);
            },
        };
        let i = match self.find_window(id) {
            Some(i) => i,
            None => {
                return Err(BackendError::UnknownNativeHandle);
            },
        };
        self.loop_state.low_power_event = true;
        let st = self.windows[i].state;
        let ghost pre_events = self.events@;
        let scale = st.effective_scale_milli();
        let r: Option<(u32, u32)> = match *ev {
            OsWindowEvent::Resized { physical_width, physical_height } => {
                let mut ns = st;
                ns.physical_width = physical_width;
                ns.physical_height = physical_height;
                self.windows[i] = WindowEntry { id, state: ns };
                let lw = logical_size(physical_width, scale);
                let lh = logical_size(physical_height, scale);
                self.events.push(
                    EngineEvent::WindowResized { id, logical_width: lw, logical_height: lh },
                );
                None
            },
            OsWindowEvent::CloseRequested => {
                self.windows[i] = WindowEntry { id, state: st };
                self.events.push(EngineEvent::WindowCloseRequested { id });
                None
            },
            OsWindowEvent::ScaleFactorChanged { scale_milli, proposed_width, proposed_height } => {
                let (ack_w, ack_h) = match st.scale_override_milli {
                    Some(f) => (
                        physical_size(st.requested_logical_width, f),
                        physical_size(st.requested_logical_height, f),
                    ),
                    None => (proposed_width, proposed_height),
                };
                self.events.push(EngineEvent::WindowBackendScaleFactorChanged { id, scale_milli });
                let new_factor = match st.scale_override_milli {
                    Some(f) => f,
                    None => scale_milli,
                };
                if new_factor != scale {
                    self.events.push(EngineEvent::WindowScaleFactorChanged { id, scale_milli });
                }
                let new_lw = logical_size(ack_w, new_factor);
                let new_lh = logical_size(ack_h, new_factor);
                if new_lw != logical_size(st.physical_width, new_factor) || new_lh != logical_size(
                    st.physical_height,
                    new_factor,
                ) {
                    self.events.push(
                        EngineEvent::WindowResized {
                            id,
                            logical_width: new_lw,
                            logical_height: new_lh,
                        },
                    );
                }
                let mut ns = st;
                ns.backend_scale_milli = scale_milli;
                ns.physical_width = ack_w;
                ns.physical_height = ack_h;
                self.windows[i] = WindowEntry { id, state: ns };
                Some((ack_w, ack_h))
            },
            OsWindowEvent::Focused { focused } => {
                let mut ns = st;
                ns.focused = focused;
                self.windows[i] = WindowEntry { id, state: ns };
                self.events.push(EngineEvent::WindowFocused { id, focused });
                None
            },
            OsWindowEvent::Moved { x, y } => {
                let mut ns = st;
                ns.position = Some((x, y));
                self.windows[i] = WindowEntry { id, state: ns };
                self.events.push(EngineEvent::WindowMoved { id, x, y });
                None
            },
            OsWindowEvent::CursorMoved { physical_x, physical_y } => {
                let flipped = if physical_y <= st.physical_height {
                    st.physical_height - physical_y
                } else {
                    0
                };
                let mut ns = st;
                ns.cursor_physical = Some((physical_x, flipped));
                self.windows[i] = WindowEntry { id, state: ns };
                self.events.push(
                    EngineEvent::CursorMoved {
                        id,
                        logical_x: logical_size(physical_x, scale),
                        logical_y: logical_size(flipped, scale),
                    },
                );
                None
            },
        };
        proof {
            assert(self.events@ =~= pre_events + spec_emitted_events(st, *ev, id));
            assert(self.windows@[i as int].state == spec_apply_window_event(st, *ev));
            let s = self.windows@;
            assert forall|a: int, b: int|
                0 <= a < s.len() && 0 <= b < s.len() && a != b implies s[a].id != s[b].id by {
                assert(old(self).windows@[a].id != old(self).windows@[b].id);
            }
            assert forall|j: int| 0 <= j < s.len() implies (#[trigger] s[j]).state.wf() by {
                if j != i as int {
                    assert(s[j] == old(self).windows@[j]);
                }
            }
        }
        Ok(r)
    }

    /// Applies one queued window command to a live window: updates the
    /// mirrored state, publishes the engine events the command carries, and
    /// returns the native calls the caller must perform, in order. A `Close`
    /// detaches the window: its forward mapping and state entry go away, the
    /// reverse tombstone stays, exactly one `WindowClosed` is published and
    /// exactly one destroy action is returned. A command against an id with
    /// no live mapping is dropped with a typed report and changes nothing.
    #[verifier::rlimit(100)]
    pub fn process_command(&mut self, id: u64, cmd: WindowCommand) -> (r: Result<
        Vec<NativeAction>,
        BackendError,
    >)
        requires
            old(self).wf(),
            cmd.wf(),
        ensures
            final(self).wf(),
            final(self).config == old(self).config,
            final(self).loop_state == old(self).loop_state,
            final(self).pending_creates == old(self).pending_creates,
            final(self).commands == old(self).commands,
            if old(self).registry.forward_map().contains_key(id) && old(self).has_window(id) {
                let h = old(self).registry.forward_map()[id];
                let i = old(self).win_index(id);
                match r {
                    Ok(actions) => {
                        &&& actions@ == spec_command_actions(h, cmd)
                        &&& final(self).events@ == old(self).events@ + spec_command_events(id, cmd)
                        &&& if cmd is Close {
                            &&& final(self).registry.forward_map() == old(
                                self,
                            ).registry.forward_map().remove(id)
                            &&& final(self).registry.reverse_map() == old(
                                self,
                            ).registry.reverse_map()
                            &&& final(self).registry.spec_next_id() == old(
                                self,
                            ).registry.spec_next_id()
                            &&& final(self).windows@ == old(self).windows@.remove(i)
                        } else {
                            &&& final(self).registry == old(self).registry
                            &&& final(self).windows@ == old(self).windows@.update(
                                i,
                                WindowEntry {
                                    id,
                                    state: spec_command_state(old(self).windows@[i].state, cmd),
                                },
                            )
                        }
                    },
                    Err(_) => false,
                }
            } else {
                &&& r == Err::<Vec<NativeAction>, BackendError>(BackendError::CommandOnMissingWindow)
                &&& *final(self) == *old(self)
            },
    {
        let handle = match self.registry.get_native(id) {
            Some(h) => h,
            None => {
                return Err(BackendError::CommandOnMissingWindow);
            },
        };
        let i = match self.find_window(id) {
            Some(i) => i,
            None => {
                return Err(BackendError::CommandOnMissingWindow);
            },
        };
        let st = self.windows[i].state;
        let ghost pre = *self;
        let mut actions: Vec<NativeAction> = Vec::new();
        // every non-close arm stores the entry back (unchanged where the
        // command leaves the mirrored state alone), so each command amounts
        // to one update of the window's entry
        match cmd {
            WindowCommand::SetTitle { title } => {
                self.windows[i] = WindowEntry { id, state: st };
                actions.push(NativeAction::SetTitle { handle, title });
            },
            WindowCommand::SetWindowMode { mode, resolution_width, resolution_height } => {
                let mut ns = st;
                ns.mode = mode;
                self.windows[i] = WindowEntry { id, state: ns };
                let fullscreen = match mode {
                    WindowMode::Windowed => FullscreenDirective::Windowed,
                    WindowMode::BorderlessFullscreen => FullscreenDirective::Borderless,
                    WindowMode::Fullscreen => FullscreenDirective::ExclusiveBest,
                    WindowMode::SizedFullscreen => FullscreenDirective::ExclusiveFitting {
                        width: resolution_width,
                        height: resolution_height,
                    },
                };
                actions.push(NativeAction::SetFullscreen { handle, fullscreen });
            },
            WindowCommand::SetScaleFactor { scale_milli } => {
                let mut ns = st;
                ns.scale_override_milli = Some(scale_milli);
                self.windows[i] = WindowEntry { id, state: ns };
                self.events.push(EngineEvent::WindowScaleFactorChanged { id, scale_milli });
            },
            WindowCommand::SetResolution { logical_width, logical_height, scale_milli } => {
                self.windows[i] = WindowEntry { id, state: st };
                actions.push(
                    NativeAction::SetInnerSize {
                        handle,
                        physical_width: physical_size(logical_width, scale_milli),
                        physical_height: physical_size(logical_height, scale_milli),
                    },
                );
            },
            WindowCommand::SetResizable { resizable } => {
                let mut ns = st;
                ns.resizable = resizable;
                self.windows[i] = WindowEntry { id, state: ns };
                actions.push(NativeAction::SetResizable { handle, resizable });
            },
            WindowCommand::SetMaximized { maximized } => {
                let mut ns = st;
                ns.maximized = maximized;
                self.windows[i] = WindowEntry { id, state: ns };
                actions.push(NativeAction::SetMaximized { handle, maximized });
            },
            WindowCommand::SetMinimized { minimized } => {
                let mut ns = st;
                ns.minimized = minimized;
                self.windows[i] = WindowEntry { id, state: ns };
                actions.push(NativeAction::SetMinimized { handle, minimized });
            },
            WindowCommand::SetPosition { x, y } => {
                self.windows[i] = WindowEntry { id, state: st };
                actions.push(NativeAction::SetOuterPosition { handle, x, y });
            },
            WindowCommand::SetResizeConstraints { constraints } => {
                let cc = constraints.check_constraints();
                let mut ns = st;
                ns.constraints = cc;
                self.windows[i] = WindowEntry { id, state: ns };
                actions.push(
                    NativeAction::SetMinInnerSize {
                        handle,
                        logical_width: cc.min_width,
                        logical_height: cc.min_height,
                    },
                );
                if cc.max_width != u32::MAX && cc.max_height != u32::MAX {
                    actions.push(
                        NativeAction::SetMaxInnerSize {
                            handle,
                            logical_width: cc.max_width,
                            logical_height: cc.max_height,
                        },
                    );
                }
            },
            WindowCommand::Close => {
                let removed = self.registry.remove(id);
                proof {
                    assert(removed == Some(handle));
                }
                self.windows.remove(i);
                self.events.push(EngineEvent::WindowClosed { id });
                actions.push(NativeAction::DestroyWindow { handle });
                proof {
                    let s = self.windows@;
                    assert forall|a: int, b: int|
                        0 <= a < s.len() && 0 <= b < s.len() && a != b implies s[a].id
                        != s[b].id by {
                        let oa = if a < i as int {
                            a
                        } else {
                            a + 1
                        };
                        let ob = if b < i as int {
                            b
                        } else {
                            b + 1
                        };
                        assert(s[a] == pre.windows@[oa]);
                        assert(s[b] == pre.windows@[ob]);
                        assert(pre.windows@[oa].id != pre.windows@[ob].id);
                    }
                    assert forall|j: int| 0 <= j < s.len() implies (#[trigger] s[j]).state.wf()
                        && s[j].id < self.registry.spec_next_id() by {
                        let oj = if j < i as int {
                            j
                        } else {
                            j + 1
                        };
                        assert(s[j] == pre.windows@[oj]);
                    }
                }
            },
        }
        proof {
            if !(cmd is Close) {
                let s = self.windows@;
                assert forall|a: int, b: int|
                    0 <= a < s.len() && 0 <= b < s.len() && a != b implies s[a].id != s[b].id by {
                    assert(pre.windows@[a].id != pre.windows@[b].id);
                }
                assert forall|j: int| 0 <= j < s.len() implies (#[trigger] s[j]).state.wf() by {
                    if j != i as int {
                        assert(s[j] == pre.windows@[j]);
                    }
                }
                assert(self.events@ =~= pre.events@ + spec_command_events(id, cmd));
            } else {
                assert(self.events@ =~= pre.events@ + spec_command_events(id, cmd));
            }
            assert(actions@ =~= spec_command_actions(handle, cmd));
        }
        Ok(actions)
    }
}

/// Law: closing a window leaves the pump in exactly the state in which a late
/// native event for the window's old handle is recognized and dropped, never
/// misrouted. `p` is the pump before the close, `q` after it (related as
/// `process_command`'s contract for `Close` states): the reverse map still
/// resolves the old handle to the closed id, while no live window carries
/// that id -- so `window_event` reports `UnknownNativeHandle` and changes
/// nothing.
pub proof fn lemma_closed_window_drops_late_events(p: EventPump, q: EventPump, id: u64)
    requires
        p.wf(),
        p.registry.forward_map().contains_key(id),
        p.has_window(id),
        q.registry.reverse_map() == p.registry.reverse_map(),
        q.windows@ == p.windows@.remove(p.win_index(id)),
    ensures
        q.registry.reverse_map().contains_key(p.registry.forward_map()[id]),
        q.registry.reverse_map()[p.registry.forward_map()[id]] == id,
        !q.has_window(id),
{
    let i = p.win_index(id);
    assert(0 <= i < p.windows@.len() && p.windows@[i].id == id);
    assert forall|j: int| 0 <= j < q.windows@.len() implies (#[trigger] q.windows@[j]).id
        != id by {
        if j < i {
            assert(q.windows@[j] == p.windows@[j]);
            assert(p.windows@[j].id != p.windows@[i].id);
        } else {
            assert(q.windows@[j] == p.windows@[j + 1]);
            assert(p.windows@[j + 1].id != p.windows@[i].id);
        }
    }
}

} // verus!
