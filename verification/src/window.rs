//! Always-on-top control: applies or clears the "stay above other windows"
//! z-order hint on a window named by an opaque handle.
//!
//! The window manager's state is modelled per window as exactly the two facts
//! this layer can observe or change: whether the handle still names a live
//! window, and whether that window's always-on-top hint is set. Every other
//! window attribute (size, position, focus) is outside the model because the
//! command here never touches it.

use vstd::prelude::*;

verus! {

/// One window as the window manager sees it: whether the handle still names a
/// live window, and whether its always-on-top hint is currently set.
#[derive(Clone, Copy, Debug, PartialEq, Eq, Structural)]
pub struct WindowRecord {
    pub live: bool,
    pub always_on_top: bool,
}

/// An opaque, non-owning capability token for a window. The shell hands one
/// in per request; this layer never creates, stores or destroys windows
/// through it, and validates it at the moment of use.
#[derive(Clone, Copy, Debug, PartialEq, Eq, Structural)]
pub struct WindowHandle {
    pub id: usize,
}

/// The window manager's z-order state for every window the shell has opened.
/// A handle names the window at its index; a destroyed window keeps its slot
/// so that stale handles are recognised, never reused.
pub struct WindowManager {
    windows: Vec<WindowRecord>,
}

impl View for WindowManager {
    type V = Seq<WindowRecord>;

    closed spec fn view(&self) -> Seq<WindowRecord> {
        self.windows@
    }
}

impl WindowManager {
    /// A handle is valid and live when it names a window that has not been
    /// destroyed.
    pub open spec fn is_live(self, w: WindowHandle) -> bool {
        w.id < self@.len() && self@[w.id as int].live
    }

    /// The OS-observed always-on-top flag of the window named by `w`.
    pub open spec fn on_top(self, w: WindowHandle) -> bool {
        w.id < self@.len() && self@[w.id as int].always_on_top
    }

    /// A window manager with no windows yet.
    pub fn new() -> (wm: WindowManager)
        ensures
            wm@.len() == 0,
    {
        WindowManager { windows: Vec::new() }
    }

    /// The shell opens a window: it comes up live, with the always-on-top
    /// hint clear, and existing windows are untouched.
    pub fn open_window(&mut self) -> (w: WindowHandle)
        ensures
            w.id == old(self)@.len(),
            final(self)@ == old(self)@.push((WindowRecord { live: true, always_on_top: false })),
            final(self).is_live(w),
            !final(self).on_top(w),
    {
        let id = self.windows.len();
        self.windows.push(WindowRecord { live: true, always_on_top: false });
        WindowHandle { id }
    }

    /// The shell destroys a live window: its handle stops being live and is
    /// never reused, and every other window is untouched.
    pub fn destroy_window(&mut self, w: WindowHandle)
        requires
            old(self).is_live(w),
        ensures
            final(self)@ == old(self)@.update(
                w.id as int,
                (WindowRecord { live: false, always_on_top: old(self)@[w.id as int].always_on_top }),
            ),
            !final(self).is_live(w),
    {
        let flag = self.windows[w.id].always_on_top;
        self.windows[w.id] = WindowRecord { live: false, always_on_top: flag };
    }

    /// Whether `w` currently names a live window.
    pub fn live(&self, w: WindowHandle) -> (b: bool)
        ensures
            b == self.is_live(w),
    {
        w.id < self.windows.len() && self.windows[w.id].live
    }

    /// The OS-observed always-on-top flag of the window named by `w`.
    pub fn always_on_top(&self, w: WindowHandle) -> (b: bool)
        ensures
            b == self.on_top(w),
    {
        w.id < self.windows.len() && self.windows[w.id].always_on_top
    }
}

/// What one `set_always_on_top` command does to the window manager's state:
/// on a live window it sets the flag to exactly the requested value and
/// touches nothing else; on a dead or invalid handle it changes nothing.
pub open spec fn spec_set_always_on_top(
    s: Seq<WindowRecord>,
    w: WindowHandle,
    enable: bool,
) -> Seq<WindowRecord> {
    if w.id < s.len() && s[w.id as int].live {
        s.update(w.id as int, (WindowRecord { live: true, always_on_top: enable }))
    } else {
        s
    }
}

/// Law: issuing the always-on-top command twice on the same live window is
/// last-write-wins. The second request alone decides the OS-observed flag —
/// there is no hidden toggling — and the pair of commands leaves the window
/// manager exactly as the second command alone would have.
pub proof fn lemma_always_on_top_last_write_wins(
    s: Seq<WindowRecord>,
    w: WindowHandle,
    b1: bool,
    b2: bool,
)
    requires
        w.id < s.len(),
        s[w.id as int].live,
    ensures
        spec_set_always_on_top(spec_set_always_on_top(s, w, b1), w, b2)
            == spec_set_always_on_top(s, w, b2),
        spec_set_always_on_top(spec_set_always_on_top(s, w, b1), w, b2)[w.id as int].always_on_top
            == b2,
{
    assert(spec_set_always_on_top(spec_set_always_on_top(s, w, b1), w, b2)
        =~= spec_set_always_on_top(s, w, b2));
}

/// The failure description returned when a command names a window that has
/// been destroyed or never existed.
pub open spec fn dead_window_msg() -> Seq<char> {
    "window handle does not name a live window"@
}

fn dead_window_error() -> (m: String)
    ensures
        m@ == dead_window_msg(),
        m@.len() > 0,
{
    proof {
        reveal_strlit("window handle does not name a live window");
    }
    "window handle does not name a live window".to_owned()
}

/// Inbound command: set (`always_on_top = true`) or clear (`false`) the
/// always-on-top hint of the window named by `window`.
///
/// Succeeds exactly on a live window, where it issues the single z-order
/// change and touches no other window and no other attribute. On a destroyed
/// or invalid handle it fails with a non-empty description and leaves every
/// window unchanged; it never panics.
pub fn set_always_on_top(
    wm: &mut WindowManager,
    window: WindowHandle,
    always_on_top: bool,
) -> (r: Result<(), String>)
    ensures
        r is Ok <==> old(wm).is_live(window),
        final(wm)@ == spec_set_always_on_top(old(wm)@, window, always_on_top),
        old(wm).is_live(window) ==> final(wm).on_top(window) == always_on_top
            && final(wm).is_live(window),
        forall|v: WindowHandle| final(wm).is_live(v) == old(wm).is_live(v),
        forall|v: WindowHandle| v.id != window.id ==> final(wm).on_top(v) == old(wm).on_top(v),
        r matches Err(m) ==> m@ == dead_window_msg() && m@.len() > 0 && final(wm)@ == old(wm)@,
{
    if window.id < wm.windows.len() && wm.windows[window.id].live {
        wm.windows[window.id] = WindowRecord { live: true, always_on_top };
        proof {
            assert(wm@ =~= spec_set_always_on_top(old(wm)@, window, always_on_top));
        }
        Ok(())
    } else {
        Err(dead_window_error())
    }
}

} // verus!
