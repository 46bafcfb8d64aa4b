//! Window state and lifecycle.  A window system owns every window's state
//! record; handles are weak references emulated as slot indices, so that
//! once a window's state is gone every handle to it resolves to nothing,
//! permanently, and each operation through a stale handle is a silent
//! no-op.  The application callback object is held in an exclusively
//! checked-out cell: it is taken out for the span of one dispatch and put
//! back, and a second take while it is out fails fast.

use vstd::prelude::*;
use vstd::pervasive::arbitrary;
use crate::Error;
use crate::idle::IdleQueue;
use crate::scale::{round_to_nearest, DEFAULT_DPI};
use crate::timer::{TimerRegistry, TimerToken, time_interval_from_deadline, wait_for_deadline};

verus! {

/// An abstract menu description, handed to the external menu-construction
/// subsystem when the window is realized.
#[derive(Clone, Copy, Debug, PartialEq, Eq, Structural)]
pub struct Menu {}

/// The state record owned by the window system for one live window: the
/// application callback object (absent while checked out for a dispatch),
/// the idle queue, transient input state, and what the native window
/// mirrors (title, menu, visibility, pending paint, display resolution).
pub struct WindowState<H, T> {
    pub title: String,
    pub menu: Option<Menu>,
    pub handler: Option<H>,
    pub idle: IdleQueue<T>,
    pub current_keyval: Option<u32>,
    pub last_size: (u32, u32),
    pub visible: bool,
    pub pending_paint: bool,
    pub dpi: u16,
}

impl<H, T> WindowState<H, T> {
    /// The per-window invariant: the idle queue's registration flag agrees
    /// with its contents.
    pub open spec fn wf(self) -> bool {
        self.idle.wf()
    }
}

/// A weak, cloneable reference to a window's state.  A default handle
/// refers to nothing; a built handle keeps its slot index and resolves
/// only while the slot still holds the state.
#[derive(Clone, Copy, Debug, PartialEq, Eq, Structural)]
pub struct WindowHandle {
    pub id: Option<usize>,
}

impl Default for WindowHandle {
    /// A handle that never resolves.
    fn default() -> (r: WindowHandle)
        ensures
            r.id is None,
    {
        WindowHandle { id: None }
    }
}

/// A handle for scheduling idle work, obtainable only while the window is
/// alive; it weakly references the same slot.
#[derive(Clone, Copy, Debug, PartialEq, Eq, Structural)]
pub struct IdleHandle {
    pub id: usize,
}

/// The owner of every window state.  Destruction of a window clears its
/// slot for good; slots are never reused, so a stale handle can never
/// resolve to a younger window.
pub struct WindowSystem<H, T> {
    pub windows: Vec<Option<WindowState<H, T>>>,
    pub timers: TimerRegistry,
}

/// The slot index a handle refers to, or -1 for a handle that refers to
/// nothing.
pub open spec fn win_idx(h: WindowHandle) -> int {
    match h.id {
        Some(i) => i as int,
        None => -1,
    }
}

/// Two system states with the same windows and the same timer registry: a
/// no-op left everything as it was.
pub open spec fn sys_unchanged<H, T>(pre: WindowSystem<H, T>, post: WindowSystem<H, T>) -> bool {
    &&& post.windows@ == pre.windows@
    &&& post.timers == pre.timers
}

/// Two system states that differ at most in the window stored at slot `i`,
/// which afterwards holds `w`; the timer registry is untouched.
pub open spec fn only_window_changed<H, T>(
    pre: WindowSystem<H, T>,
    post: WindowSystem<H, T>,
    i: int,
    w: WindowState<H, T>,
) -> bool {
    &&& post.windows@ == pre.windows@.update(i, Some(w))
    &&& post.timers == pre.timers
}

impl<H, T> WindowSystem<H, T> {
    /// The state slot at index `i`, `None` outside the allocated range.
    pub open spec fn slot_at(self, i: int) -> Option<WindowState<H, T>> {
        if 0 <= i < self.windows@.len() {
            self.windows@[i]
        } else {
            None
        }
    }

    /// Whether the window at slot `i` is still owned.
    pub open spec fn live_at(self, i: int) -> bool {
        self.slot_at(i) is Some
    }

    /// The state at slot `i`; meaningful only while it is live.
    pub open spec fn state_at(self, i: int) -> WindowState<H, T> {
        match self.slot_at(i) {
            Some(w) => w,
            None => arbitrary(),
        }
    }

    /// Whether a handle still resolves to a window.
    pub open spec fn live(self, h: WindowHandle) -> bool {
        self.live_at(win_idx(h))
    }

    /// The state a handle resolves to; meaningful only while it is live.
    pub open spec fn state_of(self, h: WindowHandle) -> WindowState<H, T> {
        self.state_at(win_idx(h))
    }

    /// The resolution used for this window's coordinate conversions: what
    /// the display reported while the window is alive, else the nominal
    /// one-to-one value.
    pub open spec fn dpi_of(self, h: WindowHandle) -> u16 {
        if self.live(h) && self.state_of(h).dpi >= 1 {
            self.state_of(h).dpi
        } else {
            DEFAULT_DPI
        }
    }

    /// The system-wide invariant: every live window's state is
    /// well-formed.
    pub open spec fn wf(self) -> bool {
        forall|i: int|
            0 <= i < self.windows@.len() ==> ((#[trigger] self.windows@[i]) matches Some(w)
                ==> w.wf())
    }

    /// A fresh system with no windows and a fresh timer registry.
    pub fn new() -> (r: WindowSystem<H, T>)
        ensures
            r.windows@ == Seq::<Option<WindowState<H, T>>>::empty(),
            r.timers.next_id == 1,
            r.wf(),
    {
        WindowSystem { windows: Vec::new(), timers: TimerRegistry::new() }
    }

    /// Whether a handle currently resolves; the executable mirror of
    /// `live`.
    pub fn is_live(&self, h: &WindowHandle) -> (r: bool)
        ensures
            r == self.live(*h),
    {
        match h.id {
            Some(i) => i < self.windows.len() && self.windows[i].is_some(),
            None => false,
        }
    }
}

/// A single-window update keeps the system invariant as long as the new
/// state is itself well-formed.
pub proof fn lemma_update_preserves_wf<H, T>(
    pre: WindowSystem<H, T>,
    post: WindowSystem<H, T>,
    i: int,
    w: WindowState<H, T>,
)
    requires
        pre.wf(),
        w.wf(),
        0 <= i < pre.windows@.len(),
        only_window_changed(pre, post, i, w),
    ensures
        post.wf(),
{
    assert forall|j: int|
        0 <= j < post.windows@.len() implies ((#[trigger] post.windows@[j]) matches Some(x)
        ==> x.wf()) by {
        if j != i {
            assert(post.windows@[j] == pre.windows@[j]);
        }
    }
}

/// Builder for a window: collects the application callback object, the
/// title and the menu, and wires them into the window system on build.
pub struct WindowBuilder<H> {
    pub handler: Option<H>,
    pub title: String,
    pub menu: Option<Menu>,
}

impl<H> WindowBuilder<H> {
    /// An empty builder: no handler, an empty title, no menu.
    pub fn new() -> (r: WindowBuilder<H>)
        ensures
            r.handler is None,
            r.title@ == Seq::<char>::empty(),
            r.menu is None,
    {
        WindowBuilder { handler: None, title: String::new(), menu: None }
    }

    /// Sets the application callback object the window will dispatch to.
    pub fn set_handler(&mut self, handler: H)
        ensures
            final(self).handler == Some(handler),
            final(self).title == old(self).title,
            final(self).menu == old(self).menu,
    {
        self.handler = Some(handler);
    }

    /// Sets the window title.
    pub fn set_title(&mut self, title: String)
        ensures
            final(self).title == title,
            final(self).handler == old(self).handler,
            final(self).menu == old(self).menu,
    {
        self.title = title;
    }

    /// Sets the menu description realized when the window is built.
    pub fn set_menu(&mut self, menu: Menu)
        ensures
            final(self).menu == Some(menu),
            final(self).handler == old(self).handler,
            final(self).title == old(self).title,
    {
        self.menu = Some(menu);
    }

    /// Builds the window.  Without a handler this is a configuration
    /// error and nothing is allocated.  On success a fresh slot owns the
    /// window's state — not yet visible, idle queue empty, no key
    /// recorded — and the returned handle weakly references it; the
    /// caller then invokes the callback object's connect hook with a
    /// clone of that handle.
    pub fn build<T>(self, sys: &mut WindowSystem<H, T>) -> (r: Result<WindowHandle, Error>)
        requires
            old(sys).wf(),
        ensures
            final(sys).wf(),
            self.handler is None ==> r == Err::<WindowHandle, Error>(Error::NoHandler)
                && *final(sys) == *old(sys),
            self.handler is Some ==> (match r {
                Ok(h) => {
                    &&& h.id == Some(old(sys).windows@.len() as usize)
                    &&& final(sys).live(h)
                    &&& final(sys).timers == old(sys).timers
                    &&& final(sys).windows@.len() == old(sys).windows@.len() + 1
                    &&& forall|i: int|
                        0 <= i < old(sys).windows@.len() ==> final(sys).windows@[i] == old(
                            sys,
                        ).windows@[i]
                    &&& (match final(sys).windows@.last() {
                        Some(w) => {
                            &&& w.title == self.title
                            &&& w.menu == self.menu
                            &&& w.handler == self.handler
                            &&& w.idle.tasks@ == Seq::<T>::empty()
                            &&& !w.idle.scheduled
                            &&& w.current_keyval is None
                            &&& w.last_size == (0u32, 0u32)
                            &&& !w.visible
                            &&& !w.pending_paint
                            &&& w.dpi == 96
                        },
                        None => false,
                    })
                },
                Err(_) => false,
            }),
    {
        if self.handler.is_none() {
            return Err(Error::NoHandler);
        }
        let state = WindowState {
            title: self.title,
            menu: self.menu,
            handler: self.handler,
            idle: IdleQueue::new(),
            current_keyval: None,
            last_size: (0, 0),
            visible: false,
            pending_paint: false,
            dpi: 96,
        };
        let id = sys.windows.len();
        sys.windows.push(Some(state));
        let h = WindowHandle { id: Some(id) };
        proof {
            assert(sys.windows@.last() == sys.windows@[id as int]);
            assert forall|i: int|
                0 <= i < sys.windows@.len() implies ((#[trigger] sys.windows@[i]) matches Some(w)
                ==> w.wf()) by {
                if i < id as int {
                    assert(sys.windows@[i] == old(sys).windows@[i]);
                }
            }
        }
        Ok(h)
    }
}

impl WindowHandle {
    /// Reveals the window.  Through a stale handle this is a silent no-op.
    pub fn show<H, T>(&self, sys: &mut WindowSystem<H, T>)
        ensures
            old(sys).wf() ==> final(sys).wf(),
            !old(sys).live(*self) ==> sys_unchanged(*old(sys), *final(sys)),
            old(sys).live(*self) ==> only_window_changed(
                *old(sys),
                *final(sys),
                win_idx(*self),
                (WindowState { visible: true, ..old(sys).state_of(*self) }),
            ),
    {
        if let Some(i) = self.id {
            if i < sys.windows.len() && sys.windows[i].is_some() {
                if let Some(w) = &mut sys.windows[i] {
                    w.visible = true;
                }
                proof {
                    if old(sys).wf() {
                        lemma_update_preserves_wf(
                            *old(sys),
                            *sys,
                            i as int,
                            (WindowState { visible: true, ..old(sys).state_of(*self) }),
                        );
                    }
                }
            }
        }
    }

    /// Whether the window should be removed from the owning native
    /// application: true exactly while the handle resolves.  Teardown
    /// itself completes when the native destroy notification arrives.
    pub fn close<H, T>(&self, sys: &WindowSystem<H, T>) -> (r: bool)
        ensures
            r == sys.live(*self),
    {
        sys.is_live(self)
    }

    /// Requests invalidation of the entire window contents: a future paint
    /// is recorded as owed.  Through a stale handle this is a silent no-op
    /// and no redraw occurs.
    pub fn invalidate<H, T>(&self, sys: &mut WindowSystem<H, T>)
        ensures
            old(sys).wf() ==> final(sys).wf(),
            !old(sys).live(*self) ==> sys_unchanged(*old(sys), *final(sys)),
            old(sys).live(*self) ==> only_window_changed(
                *old(sys),
                *final(sys),
                win_idx(*self),
                (WindowState { pending_paint: true, ..old(sys).state_of(*self) }),
            ),
    {
        if let Some(i) = self.id {
            if i < sys.windows.len() && sys.windows[i].is_some() {
                if let Some(w) = &mut sys.windows[i] {
                    w.pending_paint = true;
                }
                proof {
                    if old(sys).wf() {
                        lemma_update_preserves_wf(
                            *old(sys),
                            *sys,
                            i as int,
                            (WindowState { pending_paint: true, ..old(sys).state_of(*self) }),
                        );
                    }
                }
            }
        }
    }

    /// Whether the window is currently shown; false through a stale
    /// handle.
    pub fn is_visible<H, T>(&self, sys: &WindowSystem<H, T>) -> (r: bool)
        ensures
            r == (sys.live(*self) && sys.state_of(*self).visible),
    {
        if let Some(i) = self.id {
            if i < sys.windows.len() {
                if let Some(w) = &sys.windows[i] {
                    return w.visible;
                }
            }
        }
        false
    }

    /// Whether a paint is owed; false through a stale handle.
    pub fn has_pending_paint<H, T>(&self, sys: &WindowSystem<H, T>) -> (r: bool)
        ensures
            r == (sys.live(*self) && sys.state_of(*self).pending_paint),
    {
        if let Some(i) = self.id {
            if i < sys.windows.len() {
                if let Some(w) = &sys.windows[i] {
                    return w.pending_paint;
                }
            }
        }
        false
    }

    /// A handle for scheduling idle work, obtainable only while the
    /// window is alive.
    pub fn get_idle_handle<H, T>(&self, sys: &WindowSystem<H, T>) -> (r: Option<IdleHandle>)
        ensures
            sys.live(*self) ==> (r matches Some(ih) && Some(ih.id) == self.id),
            !sys.live(*self) ==> r is None,
    {
        if let Some(i) = self.id {
            if i < sys.windows.len() && sys.windows[i].is_some() {
                return Some(IdleHandle { id: i });
            }
        }
        None
    }

    /// The display resolution of the window, in dots per inch; the nominal
    /// one-to-one value when the handle is stale or the display reported
    /// nothing usable.
    pub fn get_dpi<H, T>(&self, sys: &WindowSystem<H, T>) -> (r: u16)
        ensures
            r == sys.dpi_of(*self),
            r >= 1,
    {
        if let Some(i) = self.id {
            if i < sys.windows.len() {
                if let Some(w) = &sys.windows[i] {
                    if w.dpi >= 1 {
                        return w.dpi;
                    } else {
                        return DEFAULT_DPI;
                    }
                }
            }
        }
        DEFAULT_DPI
    }

    /// Records the resolution the native display reports for this window.
    /// Through a stale handle this is a silent no-op.
    pub fn set_dpi<H, T>(&self, sys: &mut WindowSystem<H, T>, dpi: u16)
        ensures
            old(sys).wf() ==> final(sys).wf(),
            !old(sys).live(*self) ==> sys_unchanged(*old(sys), *final(sys)),
            old(sys).live(*self) ==> only_window_changed(
                *old(sys),
                *final(sys),
                win_idx(*self),
                (WindowState { dpi, ..old(sys).state_of(*self) }),
            ),
    {
        if let Some(i) = self.id {
            if i < sys.windows.len() && sys.windows[i].is_some() {
                if let Some(w) = &mut sys.windows[i] {
                    w.dpi = dpi;
                }
                proof {
                    if old(sys).wf() {
                        lemma_update_preserves_wf(
                            *old(sys),
                            *sys,
                            i as int,
                            (WindowState { dpi, ..old(sys).state_of(*self) }),
                        );
                    }
                }
            }
        }
    }

    /// Converts a dimension in logical units to physical pixels at this
    /// window's resolution, rounding to the nearest pixel.
    pub fn px_to_pixels<H, T>(&self, sys: &WindowSystem<H, T>, x: i32) -> (r: i32)
        requires
            i32::MIN <= round_to_nearest(x * sys.dpi_of(*self), 96) <= i32::MAX,
        ensures
            r == round_to_nearest(x as int * sys.dpi_of(*self) as int, 96),
    {
        let dpi = self.get_dpi(sys);
        crate::scale::px_to_pixels(x, dpi)
    }

    /// Converts a point in logical units to physical pixels at this
    /// window's resolution, rounding each coordinate.
    pub fn px_to_pixels_xy<H, T>(&self, sys: &WindowSystem<H, T>, x: i32, y: i32) -> (r: (
        i32,
        i32,
    ))
        requires
            i32::MIN <= round_to_nearest(x * sys.dpi_of(*self), 96) <= i32::MAX,
            i32::MIN <= round_to_nearest(y * sys.dpi_of(*self), 96) <= i32::MAX,
        ensures
            r.0 == round_to_nearest(x as int * sys.dpi_of(*self) as int, 96),
            r.1 == round_to_nearest(y as int * sys.dpi_of(*self) as int, 96),
    {
        let dpi = self.get_dpi(sys);
        crate::scale::px_to_pixels_xy(x, y, dpi)
    }

    /// Converts a dimension in physical pixels to logical units at this
    /// window's resolution, rounding to the nearest unit.
    pub fn pixels_to_px<H, T>(&self, sys: &WindowSystem<H, T>, x: i32) -> (r: i32)
        requires
            i32::MIN <= round_to_nearest(x * 96, sys.dpi_of(*self) as int) <= i32::MAX,
        ensures
            r == round_to_nearest(x as int * 96, sys.dpi_of(*self) as int),
    {
        let dpi = self.get_dpi(sys);
        crate::scale::pixels_to_px(x, dpi)
    }

    /// Converts a point in physical pixels to logical units at this
    /// window's resolution, rounding each coordinate.
    pub fn pixels_to_px_xy<H, T>(&self, sys: &WindowSystem<H, T>, x: i32, y: i32) -> (r: (
        i32,
        i32,
    ))
        requires
            i32::MIN <= round_to_nearest(x * 96, sys.dpi_of(*self) as int) <= i32::MAX,
            i32::MIN <= round_to_nearest(y * 96, sys.dpi_of(*self) as int) <= i32::MAX,
        ensures
            r.0 == round_to_nearest(x as int * 96, sys.dpi_of(*self) as int),
            r.1 == round_to_nearest(y as int * 96, sys.dpi_of(*self) as int),
    {
        let dpi = self.get_dpi(sys);
        crate::scale::pixels_to_px_xy(x, y, dpi)
    }

    /// Gate for the native file dialog: permitted exactly while the
    /// handle resolves; through a stale handle the explicit unavailable
    /// error is returned instead, never a crash.
    pub fn file_dialog<H, T>(&self, sys: &WindowSystem<H, T>) -> (r: Result<(), Error>)
        ensures
            sys.live(*self) ==> r == Ok::<(), Error>(()),
            !sys.live(*self) ==> r == Err::<(), Error>(Error::Null),
    {
        if sys.is_live(self) {
            Ok(())
        } else {
            Err(Error::Null)
        }
    }

    /// Checks the application callback object out for one dispatch.  It
    /// comes back `None` through a stale handle, and also while it is
    /// already checked out — re-entrant access is a programming error the
    /// caller must fail fast on, not a recoverable race.
    pub fn borrow_handler<H, T>(&self, sys: &mut WindowSystem<H, T>) -> (r: Option<H>)
        ensures
            old(sys).wf() ==> final(sys).wf(),
            !old(sys).live(*self) ==> r is None && sys_unchanged(*old(sys), *final(sys)),
            old(sys).live(*self) ==> r == old(sys).state_of(*self).handler
                && only_window_changed(
                *old(sys),
                *final(sys),
                win_idx(*self),
                (WindowState { handler: None, ..old(sys).state_of(*self) }),
            ),
    {
        if let Some(i) = self.id {
            if i < sys.windows.len() && sys.windows[i].is_some() {
                let mut r: Option<H> = None;
                if let Some(w) = &mut sys.windows[i] {
                    r = w.handler.take();
                }
                proof {
                    if old(sys).wf() {
                        lemma_update_preserves_wf(
                            *old(sys),
                            *sys,
                            i as int,
                            (WindowState { handler: None, ..old(sys).state_of(*self) }),
                        );
                    }
                }
                return r;
            }
        }
        None
    }

    /// Puts the callback object back after a dispatch.  Through a stale
    /// handle the object is dropped: the window it served is gone.
    pub fn restore_handler<H, T>(&self, sys: &mut WindowSystem<H, T>, handler: H)
        ensures
            old(sys).wf() ==> final(sys).wf(),
            !old(sys).live(*self) ==> sys_unchanged(*old(sys), *final(sys)),
            old(sys).live(*self) ==> only_window_changed(
                *old(sys),
                *final(sys),
                win_idx(*self),
                (WindowState { handler: Some(handler), ..old(sys).state_of(*self) }),
            ),
    {
        if let Some(i) = self.id {
            if i < sys.windows.len() && sys.windows[i].is_some() {
                if let Some(w) = &mut sys.windows[i] {
                    w.handler = Some(handler);
                }
                proof {
                    if old(sys).wf() {
                        lemma_update_preserves_wf(
                            *old(sys),
                            *sys,
                            i as int,
                            (WindowState { handler: Some(handler), ..old(sys).state_of(*self) }),
                        );
                    }
                }
            }
        }
    }

    /// The native destroy notification: releases the owning slot, so that
    /// every handle to this window permanently stops resolving.  Returns
    /// the callback object that was still held, for the caller to run the
    /// destroy hook on and drop.  Through a stale handle this is a silent
    /// no-op.
    pub fn destroy<H, T>(&self, sys: &mut WindowSystem<H, T>) -> (r: Option<H>)
        ensures
            old(sys).wf() ==> final(sys).wf(),
            !old(sys).live(*self) ==> r is None && sys_unchanged(*old(sys), *final(sys)),
            old(sys).live(*self) ==> {
                &&& r == old(sys).state_of(*self).handler
                &&& final(sys).windows@ == old(sys).windows@.update(win_idx(*self), None)
                &&& final(sys).timers == old(sys).timers
                &&& !final(sys).live(*self)
            },
    {
        if let Some(i) = self.id {
            if i < sys.windows.len() && sys.windows[i].is_some() {
                let mut taken: Option<WindowState<H, T>> = None;
                core::mem::swap(&mut sys.windows[i], &mut taken);
                proof {
                    if old(sys).wf() {
                        assert forall|j: int|
                            0 <= j < sys.windows@.len() implies ((#[trigger] sys.windows@[j])
                            matches Some(x) ==> x.wf()) by {
                            if j != i as int {
                                assert(sys.windows@[j] == old(sys).windows@[j]);
                            }
                        }
                    }
                }
                return match taken {
                    Some(w) => w.handler,
                    None => None,
                };
            }
        }
        None
    }

    /// Records a key press and reports whether it is a repeat: true
    /// exactly when the pressed key value equals the one recorded from the
    /// immediately preceding unreleased key-down.  Through a stale handle
    /// nothing is recorded and no event is dispatched.
    pub fn note_key_press<H, T>(&self, sys: &mut WindowSystem<H, T>, keyval: u32) -> (r: Option<
        bool,
    >)
        ensures
            old(sys).wf() ==> final(sys).wf(),
            !old(sys).live(*self) ==> r is None && sys_unchanged(*old(sys), *final(sys)),
            old(sys).live(*self) ==> r == Some(
                old(sys).state_of(*self).current_keyval == Some(keyval),
            ) && only_window_changed(
                *old(sys),
                *final(sys),
                win_idx(*self),
                (WindowState { current_keyval: Some(keyval), ..old(sys).state_of(*self) }),
            ),
    {
        if let Some(i) = self.id {
            if i < sys.windows.len() && sys.windows[i].is_some() {
                let mut repeat = false;
                if let Some(w) = &mut sys.windows[i] {
                    repeat = match w.current_keyval {
                        Some(v) => v == keyval,
                        None => false,
                    };
                    w.current_keyval = Some(keyval);
                }
                proof {
                    if old(sys).wf() {
                        lemma_update_preserves_wf(
                            *old(sys),
                            *sys,
                            i as int,
                            (WindowState {
                                current_keyval: Some(keyval),
                                ..old(sys).state_of(*self)
                            }),
                        );
                    }
                }
                return Some(repeat);
            }
        }
        None
    }

    /// Records a key release, which always clears the recorded key value.
    /// Returns whether the window was alive to dispatch the event to.
    pub fn note_key_release<H, T>(&self, sys: &mut WindowSystem<H, T>) -> (r: bool)
        ensures
            old(sys).wf() ==> final(sys).wf(),
            !old(sys).live(*self) ==> !r && sys_unchanged(*old(sys), *final(sys)),
            old(sys).live(*self) ==> r && only_window_changed(
                *old(sys),
                *final(sys),
                win_idx(*self),
                (WindowState { current_keyval: None, ..old(sys).state_of(*self) }),
            ),
    {
        if let Some(i) = self.id {
            if i < sys.windows.len() && sys.windows[i].is_some() {
                if let Some(w) = &mut sys.windows[i] {
                    w.current_keyval = None;
                }
                proof {
                    if old(sys).wf() {
                        lemma_update_preserves_wf(
                            *old(sys),
                            *sys,
                            i as int,
                            (WindowState { current_keyval: None, ..old(sys).state_of(*self) }),
                        );
                    }
                }
                return true;
            }
        }
        false
    }

    /// Records the drawable area's size as seen by a paint and reports
    /// whether the size hook must run: true exactly when the size differs
    /// from the last one recorded.  Through a stale handle nothing is
    /// recorded and the paint is dropped.
    pub fn update_size<H, T>(&self, sys: &mut WindowSystem<H, T>, width: u32, height: u32) -> (r:
        bool)
        ensures
            old(sys).wf() ==> final(sys).wf(),
            !old(sys).live(*self) ==> !r && sys_unchanged(*old(sys), *final(sys)),
            old(sys).live(*self) ==> r == ((width, height)
                != old(sys).state_of(*self).last_size) && only_window_changed(
                *old(sys),
                *final(sys),
                win_idx(*self),
                (WindowState { last_size: (width, height), ..old(sys).state_of(*self) }),
            ),
    {
        if let Some(i) = self.id {
            if i < sys.windows.len() && sys.windows[i].is_some() {
                let mut changed = false;
                if let Some(w) = &mut sys.windows[i] {
                    changed = w.last_size.0 != width || w.last_size.1 != height;
                    w.last_size = (width, height);
                }
                proof {
                    if old(sys).wf() {
                        lemma_update_preserves_wf(
                            *old(sys),
                            *sys,
                            i as int,
                            (WindowState {
                                last_size: (width, height),
                                ..old(sys).state_of(*self)
                            }),
                        );
                    }
                }
                return changed;
            }
        }
        false
    }

    /// Decision for a fired one-shot timeout: deliver the token to the
    /// timer hook exactly while the handle resolves; a timer that fires
    /// after its window is gone is a no-op, not an error.
    pub fn timer_fired<H, T>(&self, sys: &WindowSystem<H, T>, token: TimerToken) -> (r: Option<
        TimerToken,
    >)
        ensures
            sys.live(*self) ==> r == Some(token),
            !sys.live(*self) ==> r is None,
    {
        if sys.is_live(self) {
            Some(token)
        } else {
            None
        }
    }
}

impl IdleHandle {
    /// Schedules a deferred task on the owning window's idle queue.
    /// Returns true exactly when the caller must arrange one native idle
    /// drain: the queue was empty, so no registration was outstanding.
    /// Once the window is gone the task is silently dropped.
    pub fn add_idle<H, T>(&self, sys: &mut WindowSystem<H, T>, task: T) -> (r: bool)
        requires
            old(sys).wf(),
        ensures
            final(sys).wf(),
            !old(sys).live_at(self.id as int) ==> !r && sys_unchanged(*old(sys), *final(sys)),
            old(sys).live_at(self.id as int) ==> {
                &&& r == (old(sys).state_at(self.id as int).idle.tasks@.len() == 0)
                &&& r == !old(sys).state_at(self.id as int).idle.scheduled
                &&& final(sys).state_at(self.id as int).idle.tasks@ == old(sys).state_at(
                    self.id as int,
                ).idle.tasks@.push(task)
                &&& final(sys).state_at(self.id as int).idle.scheduled
                &&& only_window_changed(
                    *old(sys),
                    *final(sys),
                    self.id as int,
                    (WindowState {
                        idle: final(sys).state_at(self.id as int).idle,
                        ..old(sys).state_at(self.id as int)
                    }),
                )
            },
    {
        let i = self.id;
        if i < sys.windows.len() && sys.windows[i].is_some() {
            if let Some(w) = &mut sys.windows[i] {
                let ghost pre = *old(sys);
                let r = w.idle.enqueue(task);
                proof {
                    lemma_update_preserves_wf(
                        pre,
                        *sys,
                        i as int,
                        (WindowState { idle: sys.state_at(i as int).idle, ..pre.state_at(i as int) }),
                    );
                }
                return r;
            }
        }
        false
    }
}

/// The drain the native idle mechanism runs on the UI thread: takes
/// ownership of the owning window's entire task list at once, leaving the
/// queue empty with no registration outstanding, and hands the tasks back
/// for the caller to run once each, in enqueue order.  Tasks enqueued
/// while they run wait for a later drain.  Once the window is gone the
/// whole drain is skipped and nothing runs.
pub fn run_idle<H, T>(sys: &mut WindowSystem<H, T>, h: &IdleHandle) -> (r: Vec<T>)
    requires
        old(sys).wf(),
    ensures
        final(sys).wf(),
        !old(sys).live_at(h.id as int) ==> r@ == Seq::<T>::empty() && sys_unchanged(
            *old(sys),
            *final(sys),
        ),
        old(sys).live_at(h.id as int) ==> {
            &&& r@ == old(sys).state_at(h.id as int).idle.tasks@
            &&& final(sys).state_at(h.id as int).idle.tasks@ == Seq::<T>::empty()
            &&& !final(sys).state_at(h.id as int).idle.scheduled
            &&& only_window_changed(
                *old(sys),
                *final(sys),
                h.id as int,
                (WindowState {
                    idle: final(sys).state_at(h.id as int).idle,
                    ..old(sys).state_at(h.id as int)
                }),
            )
        },
{
    let i = h.id;
    if i < sys.windows.len() && sys.windows[i].is_some() {
        if let Some(w) = &mut sys.windows[i] {
            let ghost pre = *old(sys);
            let r = w.idle.drain();
            proof {
                lemma_update_preserves_wf(
                    pre,
                    *sys,
                    i as int,
                    (WindowState { idle: sys.state_at(i as int).idle, ..pre.state_at(i as int) }),
                );
            }
            return r;
        }
    }
    Vec::new()
}

impl<H, T> WindowSystem<H, T> {
    /// Registers a one-shot timer: computes the relative wait the native
    /// timeout mechanism needs and issues a fresh token, strictly greater
    /// than every token issued before.  The windows are untouched; whether
    /// the eventual firing reaches the application is decided only then,
    /// by `timer_fired`.
    pub fn request_timer(&mut self, deadline: u64, now: u64) -> (r: (TimerToken, u64))
        requires
            old(self).timers.next_id < u64::MAX,
        ensures
            old(self).wf() ==> final(self).wf(),
            r.0.id == old(self).timers.next_id,
            final(self).timers.next_id == old(self).timers.next_id + 1,
            r.1 == wait_for_deadline(now, deadline),
            final(self).windows@ == old(self).windows@,
    {
        let interval = time_interval_from_deadline(deadline, now);
        let token = self.timers.next_timer_id();
        (TimerToken { id: token }, interval)
    }
}

/// Law: a stale handle stays stale across every single-window update a
/// live operation performs, whichever window that operation touched.
pub proof fn lemma_destroyed_stays_dead<H, T>(
    pre: WindowSystem<H, T>,
    post: WindowSystem<H, T>,
    h: WindowHandle,
    g: WindowHandle,
    w: WindowState<H, T>,
)
    requires
        !pre.live(h),
        pre.live(g),
        only_window_changed(pre, post, win_idx(g), w),
    ensures
        !post.live(h),
{
    assert(post.windows@.len() == pre.windows@.len());
    if 0 <= win_idx(h) < pre.windows@.len() && win_idx(h) != win_idx(g) {
        assert(post.windows@[win_idx(h)] == pre.windows@[win_idx(h)]);
    }
}

/// Law: building a new window never revives a stale handle: the fresh
/// slot lies beyond every slot that existed when the stale handle was
/// made.
pub proof fn lemma_build_does_not_revive<H, T>(
    pre: WindowSystem<H, T>,
    post: WindowSystem<H, T>,
    h: WindowHandle,
    w: WindowState<H, T>,
)
    requires
        !pre.live(h),
        win_idx(h) < pre.windows@.len(),
        post.windows@ == pre.windows@.push(Some(w)),
    ensures
        !post.live(h),
{
    if 0 <= win_idx(h) < pre.windows@.len() {
        assert(post.windows@[win_idx(h)] == pre.windows@[win_idx(h)]);
    }
}

} // verus!
