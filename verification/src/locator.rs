//! Shell-window locator: finds the desktop shell's hidden worker surface in a
//! snapshot of the top-level window hierarchy.
//!
//! The OS-side protocol is: find the desktop shell's top-level window by
//! class, send it the documented "spawn worker surface" message with a
//! bounded timeout, then enumerate top-level windows. The caller performs
//! those native steps and hands the enumeration snapshot in; this module
//! holds the decision logic: the first top-level window hosting a child of
//! the desktop-icon-view class marks the spot, and the first window of the
//! worker class that follows it in enumeration order is the render surface.
//! A missing hierarchy is a typed failure, never a zero handle.

use vstd::prelude::*;

use crate::BackendError;

verus! {

/// The window classes the locator protocol distinguishes; every other class
/// reads as `Other`.
#[derive(Clone, Copy, Debug, PartialEq, Eq, Structural)]
pub enum WindowClass {
    /// The desktop shell's top-level window class.
    DesktopShell,
    /// The desktop-icon-view class found among the shell window's children.
    IconView,
    /// The hidden worker-surface class.
    Worker,
    Other,
}

/// One top-level window in the enumeration snapshot: its handle, its class,
/// and the classes of its child windows in search order.
#[derive(Clone, Debug, PartialEq, Eq)]
pub struct TopLevelWindow {
    pub handle: u64,
    pub class: WindowClass,
    pub child_classes: Vec<WindowClass>,
}

/// Whether this top-level window has a desktop-icon-view child.
pub open spec fn spec_hosts_icon_view(w: TopLevelWindow) -> bool {
    exists|j: int|
        0 <= j < w.child_classes@.len() && w.child_classes@[j] == WindowClass::IconView
}

/// `i` is the first position in the snapshot whose window hosts an icon view.
pub open spec fn is_first_icon_host(s: Seq<TopLevelWindow>, i: int) -> bool {
    &&& 0 <= i < s.len()
    &&& spec_hosts_icon_view(s[i])
    &&& forall|j: int| 0 <= j < i ==> !spec_hosts_icon_view(s[j])
}

/// `k` is the first position after `i` holding a worker-class window.
pub open spec fn is_next_worker(s: Seq<TopLevelWindow>, i: int, k: int) -> bool {
    &&& i < k < s.len()
    &&& s[k].class == WindowClass::Worker
    &&& forall|j: int| i < j < k ==> s[j].class != WindowClass::Worker
}

/// `(i, k)` is the witness pair the locator protocol is after: the first
/// icon-view host and the first worker window following it. On a given
/// snapshot at most one pair qualifies.
pub open spec fn is_surface_witness(s: Seq<TopLevelWindow>, i: int, k: int) -> bool {
    is_first_icon_host(s, i) && is_next_worker(s, i, k)
}

/// `i` is the first position holding a window of class `c`.
pub open spec fn is_first_of_class(s: Seq<TopLevelWindow>, i: int, c: WindowClass) -> bool {
    &&& 0 <= i < s.len()
    &&& s[i].class == c
    &&& forall|j: int| 0 <= j < i ==> s[j].class != c
}

/// Whether this window has a desktop-icon-view child.
pub fn hosts_icon_view(w: &TopLevelWindow) -> (r: bool)
    ensures
        r == spec_hosts_icon_view(*w),
{
    let mut j: usize = 0;
    while j < w.child_classes.len()
        invariant
            j <= w.child_classes@.len(),
            forall|l: int| 0 <= l < j ==> w.child_classes@[l] != WindowClass::IconView,
        decreases w.child_classes@.len() - j,
    {
        if w.child_classes[j] == WindowClass::IconView {
            return true;
        }
        j = j + 1;
    }
    false
}

/// Finds the desktop shell's top-level window in the snapshot: the target of
/// the "spawn worker surface" message the caller sends before enumerating.
pub fn find_shell_window(windows: &Vec<TopLevelWindow>) -> (r: Option<u64>)
    ensures
        match r {
            Some(h) => exists|i: int|
                is_first_of_class(windows@, i, WindowClass::DesktopShell) && h == windows@[i].handle,
            None => forall|i: int|
                0 <= i < windows@.len() ==> windows@[i].class != WindowClass::DesktopShell,
        },
{
    let mut i: usize = 0;
    while i < windows.len()
        invariant
            i <= windows@.len(),
            forall|j: int| 0 <= j < i ==> windows@[j].class != WindowClass::DesktopShell,
        decreases windows@.len() - i,
    {
        if windows[i].class == WindowClass::DesktopShell {
            proof {
                assert(is_first_of_class(windows@, i as int, WindowClass::DesktopShell));
            }
            return Some(windows[i].handle);
        }
        i = i + 1;
    }
    None
}

/// Resolves the render surface in the snapshot: the first worker window
/// after the first icon-view host. When the expected hierarchy is absent (or
/// the worker's handle reads zero) it reports `SurfaceNotFound` -- an absent
/// wallpaper slot is a recoverable, typed failure for the caller, never a
/// handle of value zero.
pub fn locate_render_surface(windows: &Vec<TopLevelWindow>) -> (r: Result<u64, BackendError>)
    ensures
        match r {
            Ok(h) => h != 0 && exists|i: int, k: int|
                #[trigger] is_surface_witness(windows@, i, k) && windows@[k].handle == h,
            Err(e) => {
                &&& e == BackendError::SurfaceNotFound
                &&& forall|i: int, k: int|
                    #[trigger] is_surface_witness(windows@, i, k) ==> windows@[k].handle == 0
            },
        },
        forall|i: int, k: int|
            #[trigger] is_surface_witness(windows@, i, k) && windows@[k].handle != 0 ==> r
                == Ok::<u64, BackendError>(windows@[k].handle),
{
    let ghost s = windows@;
    // find the first top-level window hosting an icon view
    let mut i: usize = 0;
    while i < windows.len()
        invariant_except_break
            s == windows@,
            i <= s.len(),
            forall|j: int| 0 <= j < i ==> !spec_hosts_icon_view(s[j]),
        ensures
            s == windows@,
            i <= s.len(),
            forall|j: int| 0 <= j < i ==> !spec_hosts_icon_view(s[j]),
            i < s.len() ==> spec_hosts_icon_view(s[i as int]),
        decreases s.len() - i,
    {
        if hosts_icon_view(&windows[i]) {
            break ;
        }
        i = i + 1;
    }
    if i == windows.len() {
        proof {
            lemma_no_icon_host_no_surface(s);
        }
        return Err(BackendError::SurfaceNotFound);
    }
    proof {
        assert(is_first_icon_host(s, i as int));
    }
    // find the first worker-class window after it in enumeration order
    let mut k: usize = i + 1;
    while k < windows.len()
        invariant_except_break
            s == windows@,
            i < k <= s.len(),
            forall|j: int| i < j < k ==> s[j].class != WindowClass::Worker,
        ensures
            s == windows@,
            i < k <= s.len(),
            forall|j: int| i < j < k ==> s[j].class != WindowClass::Worker,
            k < s.len() ==> s[k as int].class == WindowClass::Worker,
        decreases s.len() - k,
    {
        if windows[k].class == WindowClass::Worker {
            break ;
        }
        k = k + 1;
    }
    if k == windows.len() {
        proof {
            lemma_no_worker_after_host_no_surface(s, i as int);
        }
        return Err(BackendError::SurfaceNotFound);
    }
    proof {
        assert(is_next_worker(s, i as int, k as int));
        lemma_surface_witness_unique(s, i as int, k as int);
    }
    let handle = windows[k].handle;
    if handle == 0 {
        Err(BackendError::SurfaceNotFound)
    } else {
        proof {
            assert(is_surface_witness(s, i as int, k as int));
        }
        Ok(handle)
    }
}

/// With no icon-view host in the snapshot, no witness pair exists.
proof fn lemma_no_icon_host_no_surface(s: Seq<TopLevelWindow>)
    requires
        forall|j: int| 0 <= j < s.len() ==> !spec_hosts_icon_view(s[j]),
    ensures
        forall|i: int, k: int| !(#[trigger] is_surface_witness(s, i, k)),
{
    assert forall|i: int, k: int| !(#[trigger] is_surface_witness(s, i, k)) by {
        if is_first_icon_host(s, i) {
            assert(!spec_hosts_icon_view(s[i]));
        }
    }
}

/// With no worker window after the first icon-view host, no witness pair
/// exists.
proof fn lemma_no_worker_after_host_no_surface(s: Seq<TopLevelWindow>, i0: int)
    requires
        is_first_icon_host(s, i0),
        forall|j: int| i0 < j < s.len() ==> s[j].class != WindowClass::Worker,
    ensures
        forall|i: int, k: int| !(#[trigger] is_surface_witness(s, i, k)),
{
    assert forall|i: int, k: int| !(#[trigger] is_surface_witness(s, i, k)) by {
        if is_first_icon_host(s, i) && is_next_worker(s, i, k) {
            lemma_first_icon_host_unique(s, i0, i);
            assert(s[k].class == WindowClass::Worker);
        }
    }
}

/// The first icon-view host position is unique.
proof fn lemma_first_icon_host_unique(s: Seq<TopLevelWindow>, i1: int, i2: int)
    requires
        is_first_icon_host(s, i1),
        is_first_icon_host(s, i2),
    ensures
        i1 == i2,
{
    if i1 < i2 {
        assert(!spec_hosts_icon_view(s[i1]));
    }
    if i2 < i1 {
        assert(!spec_hosts_icon_view(s[i2]));
    }
}

/// At most one witness pair exists on a snapshot: any pair equals the one
/// found.
proof fn lemma_surface_witness_unique(s: Seq<TopLevelWindow>, i: int, k: int)
    requires
        is_first_icon_host(s, i),
        is_next_worker(s, i, k),
    ensures
        forall|a: int, b: int| #[trigger] is_surface_witness(s, a, b) ==> a == i && b == k,
{
    assert forall|a: int, b: int| #[trigger] is_surface_witness(s, a, b) implies a == i && b
        == k by {
        lemma_first_icon_host_unique(s, a, i);
        if b < k {
            assert(s[b].class != WindowClass::Worker);
        }
        if k < b {
            assert(s[k].class != WindowClass::Worker);
        }
    }
}

} // verus!
