//! Data model of an engine-managed window: per-window state mirrored from OS
//! notifications, creation descriptors, queued window commands, engine-level
//! events, and the native actions the backend asks the OS to perform.
//!
//! Scale factors are carried in thousandths (1000 stands for a factor of
//! 1.0), so every size computation is exact integer arithmetic.

use vstd::prelude::*;

verus! {

/// Largest logical size a caller may request, so that any physical size
/// derived from it still fits the OS's 32-bit size fields.
pub const MAX_LOGICAL_SIZE: u32 = 1_000_000;

/// Largest scale factor, in thousandths, that the model admits; together with
/// `MAX_LOGICAL_SIZE` it keeps logical-to-physical conversions within `u32`.
pub const MAX_SCALE_MILLI: u32 = 4_000_000;

/// Fullscreen or windowed presentation of a window.
#[derive(Clone, Copy, Debug, PartialEq, Eq, Structural)]
pub enum WindowMode {
    Windowed,
    /// Borderless window covering the current monitor.
    BorderlessFullscreen,
    /// Exclusive fullscreen at the video mode closest to a requested size.
    SizedFullscreen,
    /// Exclusive fullscreen at the monitor's best video mode.
    Fullscreen,
}

/// Logical bounds on a window's inner size; `u32::MAX` stands for unbounded.
#[derive(Clone, Copy, Debug, PartialEq, Eq, Structural)]
pub struct ResizeConstraints {
    pub min_width: u32,
    pub min_height: u32,
    pub max_width: u32,
    pub max_height: u32,
}

impl ResizeConstraints {
    /// The constraints with the minima raised to at least 1 and the maxima
    /// raised to the minima, so that min <= max always holds.
    pub open spec fn spec_checked(self) -> ResizeConstraints {
        let min_w = if self.min_width >= 1 { self.min_width } else { 1u32 };
        let min_h = if self.min_height >= 1 { self.min_height } else { 1u32 };
        let max_w = if self.max_width >= min_w { self.max_width } else { min_w };
        let max_h = if self.max_height >= min_h { self.max_height } else { min_h };
        ResizeConstraints { min_width: min_w, min_height: min_h, max_width: max_w, max_height: max_h }
    }

    /// Repairs inconsistent constraints as `spec_checked` describes.
    pub fn check_constraints(&self) -> (r: ResizeConstraints)
        ensures
            r == self.spec_checked(),
            r.min_width <= r.max_width,
            r.min_height <= r.max_height,
            r.min_width >= 1,
            r.min_height >= 1,
    {
        let min_width = if self.min_width >= 1 { self.min_width } else { 1 };
        let min_height = if self.min_height >= 1 { self.min_height } else { 1 };
        let max_width = if self.max_width >= min_width { self.max_width } else { min_width };
        let max_height = if self.max_height >= min_height { self.max_height } else { min_height };
        ResizeConstraints { min_width, min_height, max_width, max_height }
    }
}

/// What application code asks for when it requests a window. The backend
/// always creates the native window as an always-on-top, maximized,
/// undecorated child of the located render surface; the descriptor carries
/// the engine-visible settings.
#[derive(Clone, Copy, Debug, PartialEq, Eq)]
pub struct WindowDescriptor {
    pub requested_logical_width: u32,
    pub requested_logical_height: u32,
    /// A forced scale factor, in thousandths; when set, OS-proposed scale
    /// factor changes are overridden.
    pub scale_factor_override_milli: Option<u32>,
    pub mode: WindowMode,
    pub resizable: bool,
    pub constraints: ResizeConstraints,
}

impl WindowDescriptor {
    /// Size and scale requests within the model's conversion bounds.
    pub open spec fn wf(self) -> bool {
        &&& self.requested_logical_width <= MAX_LOGICAL_SIZE
        &&& self.requested_logical_height <= MAX_LOGICAL_SIZE
        &&& match self.scale_factor_override_milli {
            Some(s) => 1 <= s <= MAX_SCALE_MILLI,
            None => true,
        }
    }
}

/// What the OS reported about a freshly created native window.
#[derive(Clone, Copy, Debug, PartialEq, Eq)]
pub struct NativeWindowInfo {
    /// The native window handle; never zero for a real window.
    pub handle: u64,
    /// Outer position, if the OS could report one.
    pub position: Option<(i32, i32)>,
    pub inner_width: u32,
    pub inner_height: u32,
    /// The backend's scale factor in thousandths.
    pub scale_milli: u32,
}

impl NativeWindowInfo {
    pub open spec fn wf(self) -> bool {
        &&& self.handle != 0
        &&& 1 <= self.scale_milli <= MAX_SCALE_MILLI
    }
}

/// Per-window state mirrored from OS notifications; mutated only by the event
/// pump, read by everyone else.
#[derive(Clone, Copy, Debug, PartialEq, Eq)]
pub struct WindowState {
    pub physical_width: u32,
    pub physical_height: u32,
    /// Outer position, if the OS has reported one.
    pub position: Option<(i32, i32)>,
    /// The scale factor last reported by the OS, in thousandths.
    pub backend_scale_milli: u32,
    /// A forced scale factor, in thousandths, taking precedence over the
    /// backend's.
    pub scale_override_milli: Option<u32>,
    pub requested_logical_width: u32,
    pub requested_logical_height: u32,
    pub focused: bool,
    pub mode: WindowMode,
    pub resizable: bool,
    pub minimized: bool,
    pub maximized: bool,
    pub constraints: ResizeConstraints,
    /// Cursor position in physical pixels, origin at the bottom left, if the
    /// cursor has been seen over this window.
    pub cursor_physical: Option<(u32, u32)>,
}

impl WindowState {
    /// The scale factor in force: the override if one is set, else the
    /// backend's.
    pub open spec fn spec_effective_scale_milli(self) -> u32 {
        match self.scale_override_milli {
            Some(s) => s,
            None => self.backend_scale_milli,
        }
    }

    /// Scale factors in range and size requests within conversion bounds.
    pub open spec fn wf(self) -> bool {
        &&& 1 <= self.backend_scale_milli <= MAX_SCALE_MILLI
        &&& match self.scale_override_milli {
            Some(s) => 1 <= s <= MAX_SCALE_MILLI,
            None => true,
        }
        &&& self.requested_logical_width <= MAX_LOGICAL_SIZE
        &&& self.requested_logical_height <= MAX_LOGICAL_SIZE
    }

    /// The scale factor in force.
    pub fn effective_scale_milli(&self) -> (r: u32)
        ensures
            r == self.spec_effective_scale_milli(),
    {
        match self.scale_override_milli {
            Some(s) => s,
            None => self.backend_scale_milli,
        }
    }
}

/// The initial state observed for a window just created from `desc`, whose
/// native side the OS reported as `info`. Wallpaper windows start unfocused,
/// maximized and not minimized.
pub open spec fn spec_initial_state(desc: WindowDescriptor, info: NativeWindowInfo) -> WindowState {
    WindowState {
        physical_width: info.inner_width,
        physical_height: info.inner_height,
        position: info.position,
        backend_scale_milli: info.scale_milli,
        scale_override_milli: desc.scale_factor_override_milli,
        requested_logical_width: desc.requested_logical_width,
        requested_logical_height: desc.requested_logical_height,
        focused: false,
        mode: desc.mode,
        resizable: desc.resizable,
        minimized: false,
        maximized: true,
        constraints: desc.constraints,
        cursor_physical: None,
    }
}

/// Builds the initial state for a freshly created window.
pub fn initial_state(desc: &WindowDescriptor, info: &NativeWindowInfo) -> (st: WindowState)
    ensures
        st == spec_initial_state(*desc, *info),
        desc.wf() && info.wf() ==> st.wf(),
{
    WindowState {
        physical_width: info.inner_width,
        physical_height: info.inner_height,
        position: info.position,
        backend_scale_milli: info.scale_milli,
        scale_override_milli: desc.scale_factor_override_milli,
        requested_logical_width: desc.requested_logical_width,
        requested_logical_height: desc.requested_logical_height,
        focused: false,
        mode: desc.mode,
        resizable: desc.resizable,
        minimized: false,
        maximized: true,
        constraints: desc.constraints,
        cursor_physical: None,
    }
}

/// The logical length of `physical` pixels under a scale factor given in
/// thousandths: physical * 1000 / scale, rounded down.
pub open spec fn spec_logical_size(physical: u32, scale_milli: u32) -> u64
    recommends
        scale_milli >= 1,
{
    ((physical as int) * 1000 / (scale_milli as int)) as u64
}

/// Converts a physical length to logical pixels under `scale_milli`.
pub fn logical_size(physical: u32, scale_milli: u32) -> (r: u64)
    requires
        scale_milli >= 1,
    ensures
        r == spec_logical_size(physical, scale_milli),
{
    (physical as u64) * 1000 / (scale_milli as u64)
}

/// The physical length of `logical` pixels under a scale factor given in
/// thousandths: logical * scale / 1000, rounded down.
pub open spec fn spec_physical_size(logical: u32, scale_milli: u32) -> int {
    (logical as int) * (scale_milli as int) / 1000
}

/// Converts a logical length to physical pixels under `scale_milli`. The
/// bounds keep the result within the OS's 32-bit size fields.
pub fn physical_size(logical: u32, scale_milli: u32) -> (r: u32)
    requires
        logical <= MAX_LOGICAL_SIZE,
        scale_milli <= MAX_SCALE_MILLI,
    ensures
        r == spec_physical_size(logical, scale_milli),
{
    proof {
        assert((logical as int) * (scale_milli as int) <= (MAX_LOGICAL_SIZE as int) * (
        MAX_SCALE_MILLI as int)) by (nonlinear_arith)
            requires
                logical <= MAX_LOGICAL_SIZE,
                scale_milli <= MAX_SCALE_MILLI,
        ;
    }
    (((logical as u64) * (scale_milli as u64)) / 1000) as u32
}

/// An engine-level window event, published once per occurrence and delivered
/// in emission order.
#[derive(Clone, Copy, Debug, PartialEq, Eq)]
pub enum EngineEvent {
    WindowCreated { id: u64 },
    WindowResized { id: u64, logical_width: u64, logical_height: u64 },
    WindowCloseRequested { id: u64 },
    WindowClosed { id: u64 },
    CursorMoved { id: u64, logical_x: u64, logical_y: u64 },
    WindowFocused { id: u64, focused: bool },
    WindowMoved { id: u64, x: i32, y: i32 },
    /// The engine-visible scale factor changed (override set, or backend
    /// change with no override in force).
    WindowScaleFactorChanged { id: u64, scale_milli: u32 },
    /// The OS reported a new backend scale factor, whether or not an override
    /// masks it.
    WindowBackendScaleFactorChanged { id: u64, scale_milli: u32 },
    /// Raw device-level relative motion, not tied to any window.
    RelativeMotion { delta_x: i64, delta_y: i64 },
}

/// A queued mutation request issued by application code against an engine
/// window id; consumed once per frame by the command-processing step.
#[derive(Debug, PartialEq, Eq)]
pub enum WindowCommand {
    SetTitle { title: String },
    SetWindowMode { mode: WindowMode, resolution_width: u32, resolution_height: u32 },
    /// Forces the scale factor, in thousandths.
    SetScaleFactor { scale_milli: u32 },
    /// Requests a new logical inner size, converted under `scale_milli`.
    SetResolution { logical_width: u32, logical_height: u32, scale_milli: u32 },
    SetResizable { resizable: bool },
    SetMaximized { maximized: bool },
    SetMinimized { minimized: bool },
    SetPosition { x: i32, y: i32 },
    SetResizeConstraints { constraints: ResizeConstraints },
    Close,
}

impl WindowCommand {
    /// Numeric arguments within the model's conversion bounds.
    pub open spec fn wf(self) -> bool {
        match self {
            WindowCommand::SetScaleFactor { scale_milli } => 1 <= scale_milli <= MAX_SCALE_MILLI,
            WindowCommand::SetResolution { logical_width, logical_height, scale_milli } => {
                &&& logical_width <= MAX_LOGICAL_SIZE
                &&& logical_height <= MAX_LOGICAL_SIZE
                &&& 1 <= scale_milli <= MAX_SCALE_MILLI
            },
            WindowCommand::SetResizeConstraints { constraints } => {
                &&& constraints.spec_checked().min_width <= MAX_LOGICAL_SIZE
                &&& constraints.spec_checked().min_height <= MAX_LOGICAL_SIZE
            },
            _ => true,
        }
    }
}

/// How an exclusive-fullscreen request picks its video mode; the caller
/// resolves it against the monitor's modes with the videomode helpers.
#[derive(Clone, Copy, Debug, PartialEq, Eq, Structural)]
pub enum FullscreenDirective {
    Windowed,
    Borderless,
    /// Exclusive fullscreen at the best mode the monitor offers.
    ExclusiveBest,
    /// Exclusive fullscreen at the mode closest to this size.
    ExclusiveFitting { width: u32, height: u32 },
}

/// A native call the backend asks the OS layer to perform on a window.
#[derive(Debug, PartialEq, Eq)]
pub enum NativeAction {
    SetTitle { handle: u64, title: String },
    SetFullscreen { handle: u64, fullscreen: FullscreenDirective },
    SetInnerSize { handle: u64, physical_width: u32, physical_height: u32 },
    SetResizable { handle: u64, resizable: bool },
    SetMaximized { handle: u64, maximized: bool },
    SetMinimized { handle: u64, minimized: bool },
    SetOuterPosition { handle: u64, x: i32, y: i32 },
    SetMinInnerSize { handle: u64, logical_width: u32, logical_height: u32 },
    /// Only issued when the checked constraints are bounded.
    SetMaxInnerSize { handle: u64, logical_width: u32, logical_height: u32 },
    /// Destroy the native window; issued exactly once per window.
    DestroyWindow { handle: u64 },
}

} // verus!
