use wallpaper_pump::registry::WindowRegistry;
use wallpaper_pump::window::{NativeWindowInfo, ResizeConstraints, WindowDescriptor, WindowMode};
use wallpaper_pump::BackendError;

fn descriptor() -> WindowDescriptor {
    WindowDescriptor {
        requested_logical_width: 1280,
        requested_logical_height: 720,
        scale_factor_override_milli: None,
        mode: WindowMode::Windowed,
        resizable: false,
        constraints: ResizeConstraints {
            min_width: 1,
            min_height: 1,
            max_width: u32::MAX,
            max_height: u32::MAX,
        },
    }
}

fn native(handle: u64) -> NativeWindowInfo {
    NativeWindowInfo {
        handle,
        position: Some((0, 0)),
        inner_width: 1280,
        inner_height: 720,
        scale_milli: 1000,
    }
}

#[test]
fn create_then_get_native_returns_handle() {
    let mut reg = WindowRegistry::new();
    let (id, st) = reg
        .create_window(&descriptor(), &Some(native(0x5001)))
        .unwrap();
    assert_eq!(reg.get_native(id), Some(0x5001));
    assert_eq!(reg.get_engine_id(0x5001), Some(id));
    assert_eq!(st.physical_width, 1280);
    assert_eq!(st.physical_height, 720);
    assert!(!st.focused);
    assert!(st.maximized);
}

#[test]
fn lookup_survives_unrelated_operations() {
    let mut reg = WindowRegistry::new();
    let (id_a, _) = reg
        .create_window(&descriptor(), &Some(native(0x5001)))
        .unwrap();
    let (id_b, _) = reg
        .create_window(&descriptor(), &Some(native(0x5002)))
        .unwrap();
    assert_ne!(id_a, id_b);
    assert_eq!(reg.get_native(id_a), Some(0x5001));
    assert_eq!(reg.remove(id_b), Some(0x5002));
    assert_eq!(reg.get_native(id_a), Some(0x5001));
}

#[test]
fn remove_leaves_reverse_tombstone() {
    let mut reg = WindowRegistry::new();
    let (id, _) = reg
        .create_window(&descriptor(), &Some(native(0x6001)))
        .unwrap();
    assert_eq!(reg.remove(id), Some(0x6001));
    // forward lookup is gone
    assert_eq!(reg.get_native(id), None);
    // but the reverse tombstone still resolves the stale handle to the id
    assert_eq!(reg.get_engine_id(0x6001), Some(id));
}

#[test]
fn second_remove_returns_none() {
    let mut reg = WindowRegistry::new();
    let (id, _) = reg
        .create_window(&descriptor(), &Some(native(0x6001)))
        .unwrap();
    assert_eq!(reg.remove(id), Some(0x6001));
    // the handle comes out exactly once, so the native window is destroyed
    // exactly once
    assert_eq!(reg.remove(id), None);
}

#[test]
fn denied_creation_is_typed_failure() {
    let mut reg = WindowRegistry::new();
    let r = reg.create_window(&descriptor(), &None);
    assert_eq!(r.unwrap_err(), BackendError::WindowCreationFailed);
    assert_eq!(reg.get_native(0), None);
}

#[test]
fn handle_in_use_tracks_live_windows_only() {
    let mut reg = WindowRegistry::new();
    assert!(!reg.handle_in_use(0x7001));
    let (id, _) = reg
        .create_window(&descriptor(), &Some(native(0x7001)))
        .unwrap();
    assert!(reg.handle_in_use(0x7001));
    reg.remove(id);
    // the tombstone does not count as use: the OS may hand the handle out again
    assert!(!reg.handle_in_use(0x7001));
}

#[test]
fn ids_are_minted_monotonically() {
    let mut reg = WindowRegistry::new();
    let (id_a, _) = reg
        .create_window(&descriptor(), &Some(native(0x8001)))
        .unwrap();
    reg.remove(id_a);
    let (id_b, _) = reg
        .create_window(&descriptor(), &Some(native(0x8001)))
        .unwrap();
    // even when the OS reuses a handle, the engine id is fresh
    assert_ne!(id_a, id_b);
    assert_eq!(reg.get_engine_id(0x8001), Some(id_b));
}
