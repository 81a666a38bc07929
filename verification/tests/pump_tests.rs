use wallpaper_pump::policy::{UpdateMode, UpdateModeConfig, WaitDirective};
use wallpaper_pump::pump::{EventPump, OsWindowEvent};
use wallpaper_pump::window::{
    EngineEvent, FullscreenDirective, NativeAction, NativeWindowInfo, ResizeConstraints,
    WindowCommand, WindowDescriptor, WindowMode,
};
use wallpaper_pump::BackendError;

fn config() -> UpdateModeConfig {
    UpdateModeConfig {
        focused_mode: UpdateMode::Continuous,
        unfocused_mode: UpdateMode::ReactiveLowPower { max_wait: 60 },
        return_from_run: true,
    }
}

fn descriptor() -> WindowDescriptor {
    WindowDescriptor {
        requested_logical_width: 1280,
        requested_logical_height: 720,
        scale_factor_override_milli: None,
        mode: WindowMode::Windowed,
        resizable: false,
        constraints: ResizeConstraints {
            min_width: 1,
            min_height: 1,
            max_width: u32::MAX,
            max_height: u32::MAX,
        },
    }
}

fn native(handle: u64) -> NativeWindowInfo {
    NativeWindowInfo {
        handle,
        position: Some((0, 0)),
        inner_width: 1280,
        inner_height: 720,
        scale_milli: 1000,
    }
}

fn pump_with_window(handle: u64) -> (EventPump, u64) {
    let mut pump = EventPump::new(config(), 0);
    let id = pump.complete_create(&descriptor(), &Some(native(handle))).unwrap();
    pump.drain_events();
    (pump, id)
}

#[test]
fn unknown_handle_events_are_dropped_without_engine_events() {
    let (mut pump, _) = pump_with_window(0x1000);
    let stranger: u64 = 0xdead;
    let events = [
        OsWindowEvent::Resized { physical_width: 10, physical_height: 10 },
        OsWindowEvent::CloseRequested,
        OsWindowEvent::Focused { focused: true },
        OsWindowEvent::Moved { x: 1, y: 2 },
        OsWindowEvent::CursorMoved { physical_x: 3, physical_y: 4 },
    ];
    for ev in events.iter() {
        assert_eq!(
            pump.window_event(stranger, ev),
            Err(BackendError::UnknownNativeHandle)
        );
    }
    assert_eq!(pump.drain_events(), vec![]);
    assert_eq!(pump.windows.len(), 1);
    assert!(!pump.loop_state.low_power_event);
}

#[test]
fn resize_updates_state_then_emits_one_event() {
    let (mut pump, id) = pump_with_window(0x1000);
    let r = pump.window_event(
        0x1000,
        &OsWindowEvent::Resized { physical_width: 800, physical_height: 600 },
    );
    assert_eq!(r, Ok(None));
    // state mutated first ...
    assert_eq!(pump.windows[0].state.physical_width, 800);
    assert_eq!(pump.windows[0].state.physical_height, 600);
    // ... and exactly one resize event emitted, with those dimensions
    // (scale factor 1.0, so logical equals physical)
    assert_eq!(
        pump.drain_events(),
        vec![EngineEvent::WindowResized { id, logical_width: 800, logical_height: 600 }]
    );
    assert!(pump.loop_state.low_power_event);
}

#[test]
fn close_command_destroys_once_and_keeps_tombstone() {
    let (mut pump, id) = pump_with_window(0x2000);
    let actions = pump.process_command(id, WindowCommand::Close).unwrap();
    // exactly one native destroy
    assert_eq!(actions, vec![NativeAction::DestroyWindow { handle: 0x2000 }]);
    // forward mapping and state entry are gone
    assert_eq!(pump.registry.get_native(id), None);
    assert_eq!(pump.windows.len(), 0);
    // the reverse tombstone is retained
    assert_eq!(pump.registry.get_engine_id(0x2000), Some(id));
    // exactly one WindowClosed
    assert_eq!(pump.drain_events(), vec![EngineEvent::WindowClosed { id }]);
    // a second close cannot drive a second destroy
    assert_eq!(
        pump.process_command(id, WindowCommand::Close),
        Err(BackendError::CommandOnMissingWindow)
    );
}

#[test]
fn late_event_after_close_is_recognized_and_dropped() {
    let (mut pump, id) = pump_with_window(0x2000);
    pump.process_command(id, WindowCommand::Close).unwrap();
    pump.drain_events();
    // the tombstone resolves the stale handle, and the event is dropped
    let r = pump.window_event(
        0x2000,
        &OsWindowEvent::Resized { physical_width: 9, physical_height: 9 },
    );
    assert_eq!(r, Err(BackendError::UnknownNativeHandle));
    assert_eq!(pump.drain_events(), vec![]);
}

#[test]
fn scale_change_without_override_acknowledges_proposal() {
    let (mut pump, id) = pump_with_window(0x3000);
    let r = pump.window_event(
        0x3000,
        &OsWindowEvent::ScaleFactorChanged {
            scale_milli: 2000,
            proposed_width: 2560,
            proposed_height: 1440,
        },
    );
    assert_eq!(r, Ok(Some((2560, 1440))));
    assert_eq!(pump.windows[0].state.backend_scale_milli, 2000);
    assert_eq!(pump.windows[0].state.physical_width, 2560);
    assert_eq!(
        pump.drain_events(),
        vec![
            EngineEvent::WindowBackendScaleFactorChanged { id, scale_milli: 2000 },
            EngineEvent::WindowScaleFactorChanged { id, scale_milli: 2000 },
            // 2560x1440 physical at 2.0 is 1280x720 logical, which happens to
            // match the old logical size under the new factor only if sizes
            // differ; here old physical 1280x720 at 2.0 is 640x360, so a
            // resize is published
            EngineEvent::WindowResized { id, logical_width: 1280, logical_height: 720 },
        ]
    );
}

#[test]
fn scale_change_with_override_rewrites_acknowledged_size() {
    let mut pump = EventPump::new(config(), 0);
    let mut desc = descriptor();
    desc.scale_factor_override_milli = Some(2000);
    desc.requested_logical_width = 400;
    desc.requested_logical_height = 300;
    let id = pump.complete_create(&desc, &Some(native(0x4000))).unwrap();
    pump.drain_events();

    let r = pump.window_event(
        0x4000,
        &OsWindowEvent::ScaleFactorChanged {
            scale_milli: 1500,
            proposed_width: 1111,
            proposed_height: 2222,
        },
    );
    // the OS proposal is rewritten to the requested logical size under the
    // forced factor: 400x300 at 2.0 -> 800x600 physical
    assert_eq!(r, Ok(Some((800, 600))));
    let events = pump.drain_events();
    // the backend change is always published; the effective factor did not
    // change (the override masks it), so no WindowScaleFactorChanged
    assert_eq!(
        events[0],
        EngineEvent::WindowBackendScaleFactorChanged { id, scale_milli: 1500 }
    );
    assert!(!events
        .iter()
        .any(|e| matches!(e, EngineEvent::WindowScaleFactorChanged { .. })));
    assert_eq!(pump.windows[0].state.backend_scale_milli, 1500);
    assert_eq!(pump.windows[0].state.physical_width, 800);
    assert_eq!(pump.windows[0].state.physical_height, 600);
}

#[test]
fn focus_event_updates_state_and_mode_selection() {
    let (mut pump, id) = pump_with_window(0x5000);
    assert!(!pump.any_focused());
    let r = pump.window_event(0x5000, &OsWindowEvent::Focused { focused: true });
    assert_eq!(r, Ok(None));
    assert!(pump.any_focused());
    assert_eq!(
        pump.drain_events(),
        vec![EngineEvent::WindowFocused { id, focused: true }]
    );
}

#[test]
fn moved_event_updates_position() {
    let (mut pump, id) = pump_with_window(0x5000);
    let r = pump.window_event(0x5000, &OsWindowEvent::Moved { x: -5, y: 42 });
    assert_eq!(r, Ok(None));
    assert_eq!(pump.windows[0].state.position, Some((-5, 42)));
    assert_eq!(
        pump.drain_events(),
        vec![EngineEvent::WindowMoved { id, x: -5, y: 42 }]
    );
}

#[test]
fn cursor_moved_flips_origin_to_bottom_left() {
    let (mut pump, id) = pump_with_window(0x5000);
    // window is 1280x720; cursor at y=20 from the top is 700 from the bottom
    let r = pump.window_event(
        0x5000,
        &OsWindowEvent::CursorMoved { physical_x: 100, physical_y: 20 },
    );
    assert_eq!(r, Ok(None));
    assert_eq!(pump.windows[0].state.cursor_physical, Some((100, 700)));
    assert_eq!(
        pump.drain_events(),
        vec![EngineEvent::CursorMoved { id, logical_x: 100, logical_y: 700 }]
    );
}

#[test]
fn close_requested_emits_without_state_change() {
    let (mut pump, id) = pump_with_window(0x5000);
    let before = pump.windows[0].state;
    let r = pump.window_event(0x5000, &OsWindowEvent::CloseRequested);
    assert_eq!(r, Ok(None));
    assert_eq!(pump.windows[0].state, before);
    assert_eq!(
        pump.drain_events(),
        vec![EngineEvent::WindowCloseRequested { id }]
    );
}

#[test]
fn device_motion_is_not_gated_by_windows() {
    let mut pump = EventPump::new(config(), 0);
    pump.device_motion(4, -7);
    assert_eq!(
        pump.drain_events(),
        vec![EngineEvent::RelativeMotion { delta_x: 4, delta_y: -7 }]
    );
}

#[test]
fn update_decision_stamps_last_update() {
    let mut pump = EventPump::new(config(), 0);
    // unfocused: ReactiveLowPower with nothing pending at t=10 -> no update
    assert!(!pump.main_events_cleared(10));
    assert_eq!(pump.loop_state.last_update, 0);
    // a timeout-reached frame updates and stamps the clock
    pump.new_frame(true, 70);
    assert!(pump.main_events_cleared(70));
    assert_eq!(pump.loop_state.last_update, 70);
}

#[test]
fn suspend_gates_updates_until_resume() {
    let mut pump = EventPump::new(config(), 0);
    pump.suspended();
    pump.new_frame(true, 100);
    assert!(!pump.main_events_cleared(100));
    pump.resumed();
    pump.new_frame(true, 101);
    assert!(pump.main_events_cleared(101));
}

#[test]
fn redraw_stage_sets_directive_and_remembers_redraw() {
    let mut pump = EventPump::new(config(), 0);
    // unfocused -> ReactiveLowPower{60}: wait until now + 60
    let d = pump.redraw_events_cleared(40, false, false);
    assert_eq!(d, WaitDirective::WaitUntil { deadline: 100 });
    assert!(!pump.loop_state.redraw_request_sent);

    let d = pump.redraw_events_cleared(40, true, false);
    assert_eq!(d, WaitDirective::Poll);
    assert!(pump.loop_state.redraw_request_sent);

    let d = pump.redraw_events_cleared(40, false, true);
    assert_eq!(d, WaitDirective::Exit);
}

#[test]
fn create_requests_drain_and_materialize() {
    let mut pump = EventPump::new(config(), 0);
    pump.request_create(descriptor());
    let drained = pump.drain_creates();
    assert_eq!(drained.len(), 1);
    assert!(pump.drain_creates().is_empty());
    let id = pump
        .complete_create(&drained[0], &Some(native(0x6000)))
        .unwrap();
    assert_eq!(pump.drain_events(), vec![EngineEvent::WindowCreated { id }]);
    assert_eq!(pump.registry.get_native(id), Some(0x6000));
}

#[test]
fn denied_creation_changes_nothing() {
    let mut pump = EventPump::new(config(), 0);
    let r = pump.complete_create(&descriptor(), &None);
    assert_eq!(r, Err(BackendError::WindowCreationFailed));
    assert_eq!(pump.windows.len(), 0);
    assert_eq!(pump.drain_events(), vec![]);
}

#[test]
fn command_on_missing_window_is_dropped() {
    let mut pump = EventPump::new(config(), 0);
    let r = pump.process_command(77, WindowCommand::SetResizable { resizable: true });
    assert_eq!(r, Err(BackendError::CommandOnMissingWindow));
}

#[test]
fn set_title_translates_to_native_call() {
    let (mut pump, id) = pump_with_window(0x7000);
    let actions = pump
        .process_command(id, WindowCommand::SetTitle { title: String::from("backdrop") })
        .unwrap();
    assert_eq!(
        actions,
        vec![NativeAction::SetTitle { handle: 0x7000, title: String::from("backdrop") }]
    );
    assert_eq!(pump.drain_events(), vec![]);
}

#[test]
fn set_window_mode_picks_fullscreen_directive() {
    let (mut pump, id) = pump_with_window(0x7000);
    let actions = pump
        .process_command(
            id,
            WindowCommand::SetWindowMode {
                mode: WindowMode::SizedFullscreen,
                resolution_width: 1024,
                resolution_height: 768,
            },
        )
        .unwrap();
    assert_eq!(
        actions,
        vec![NativeAction::SetFullscreen {
            handle: 0x7000,
            fullscreen: FullscreenDirective::ExclusiveFitting { width: 1024, height: 768 },
        }]
    );
    assert_eq!(pump.windows[0].state.mode, WindowMode::SizedFullscreen);
}

#[test]
fn set_scale_factor_publishes_engine_event_only() {
    let (mut pump, id) = pump_with_window(0x7000);
    let actions = pump
        .process_command(id, WindowCommand::SetScaleFactor { scale_milli: 1500 })
        .unwrap();
    assert_eq!(actions, vec![]);
    assert_eq!(pump.windows[0].state.scale_override_milli, Some(1500));
    assert_eq!(
        pump.drain_events(),
        vec![EngineEvent::WindowScaleFactorChanged { id, scale_milli: 1500 }]
    );
}

#[test]
fn set_resolution_converts_to_physical() {
    let (mut pump, id) = pump_with_window(0x7000);
    let actions = pump
        .process_command(
            id,
            WindowCommand::SetResolution {
                logical_width: 800,
                logical_height: 600,
                scale_milli: 1500,
            },
        )
        .unwrap();
    assert_eq!(
        actions,
        vec![NativeAction::SetInnerSize {
            handle: 0x7000,
            physical_width: 1200,
            physical_height: 900,
        }]
    );
}

#[test]
fn set_resize_constraints_checks_and_bounds() {
    let (mut pump, id) = pump_with_window(0x7000);
    // inconsistent constraints: min of 0 is raised to 1, max below min is
    // raised to min; an unbounded max suppresses the max-size call
    let actions = pump
        .process_command(
            id,
            WindowCommand::SetResizeConstraints {
                constraints: ResizeConstraints {
                    min_width: 0,
                    min_height: 200,
                    max_width: u32::MAX,
                    max_height: 100,
                },
            },
        )
        .unwrap();
    assert_eq!(
        actions,
        vec![NativeAction::SetMinInnerSize { handle: 0x7000, logical_width: 1, logical_height: 200 }]
    );
    assert_eq!(pump.windows[0].state.constraints.max_height, 200);

    let actions = pump
        .process_command(
            id,
            WindowCommand::SetResizeConstraints {
                constraints: ResizeConstraints {
                    min_width: 10,
                    min_height: 10,
                    max_width: 500,
                    max_height: 400,
                },
            },
        )
        .unwrap();
    assert_eq!(
        actions,
        vec![
            NativeAction::SetMinInnerSize { handle: 0x7000, logical_width: 10, logical_height: 10 },
            NativeAction::SetMaxInnerSize {
                handle: 0x7000,
                logical_width: 500,
                logical_height: 400,
            },
        ]
    );
}

#[test]
fn queued_commands_drain_once() {
    let (mut pump, id) = pump_with_window(0x7000);
    pump.queue_command(id, WindowCommand::SetMaximized { maximized: false });
    pump.queue_command(id, WindowCommand::SetMinimized { minimized: true });
    let cmds = pump.take_commands();
    assert_eq!(cmds.len(), 2);
    assert!(pump.take_commands().is_empty());
    let mut all_actions = Vec::new();
    for (target, cmd) in cmds {
        all_actions.extend(pump.process_command(target, cmd).unwrap());
    }
    assert_eq!(
        all_actions,
        vec![
            NativeAction::SetMaximized { handle: 0x7000, maximized: false },
            NativeAction::SetMinimized { handle: 0x7000, minimized: true },
        ]
    );
    assert!(!pump.windows[0].state.maximized);
    assert!(pump.windows[0].state.minimized);
}

#[test]
fn full_frame_cycle_in_low_power_mode() {
    // the single window stays unfocused, so ReactiveLowPower{60} governs
    let (mut pump, _id) = pump_with_window(0x9000);

    // an idle frame that woke early: no update, wait rescheduled
    pump.new_frame(false, 10);
    assert!(!pump.main_events_cleared(10));
    let d = pump.redraw_events_cleared(10, false, false);
    assert_eq!(d, WaitDirective::WaitUntil { deadline: 70 });

    // a frame with a window event: the low-power gate opens and the update
    // stamps the clock
    pump.new_frame(false, 20);
    pump.window_event(0x9000, &OsWindowEvent::Moved { x: 1, y: 1 })
        .unwrap();
    assert!(pump.main_events_cleared(20));
    assert_eq!(pump.loop_state.last_update, 20);
}

#[test]
fn window_visible_to_dispatch_only_after_materialization() {
    let mut pump = EventPump::new(config(), 0);
    pump.request_create(descriptor());
    // until the create request is materialized, events for the new native
    // window are unknown to dispatch
    assert_eq!(
        pump.window_event(0xaaa, &OsWindowEvent::CloseRequested),
        Err(BackendError::UnknownNativeHandle)
    );
    let descs = pump.drain_creates();
    let id = pump
        .complete_create(&descs[0], &Some(native(0xaaa)))
        .unwrap();
    assert_eq!(pump.window_event(0xaaa, &OsWindowEvent::CloseRequested), Ok(None));
    assert_eq!(
        pump.drain_events(),
        vec![
            EngineEvent::WindowCreated { id },
            EngineEvent::WindowCloseRequested { id },
        ]
    );
}

#[test]
fn set_position_translates_to_native_call() {
    let (mut pump, id) = pump_with_window(0x7000);
    let actions = pump
        .process_command(id, WindowCommand::SetPosition { x: 15, y: -30 })
        .unwrap();
    assert_eq!(
        actions,
        vec![NativeAction::SetOuterPosition { handle: 0x7000, x: 15, y: -30 }]
    );
}
