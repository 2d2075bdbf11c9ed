//! The callback dispatch bridge.
//!
//! The native library offers exactly one C-ABI trampoline per event
//! category, globally for monitors and joysticks and per window for the
//! rest, and one opaque user pointer per window.  The bridge stores user
//! handlers as opaque identifiers the runner owns: one optional identifier
//! per (window, category) pair in [`CallbackSlots`], one global slot each
//! for monitor and joystick events.  Registering replaces the previous
//! handler; unregistering clears the slot and is a no-op when the slot is
//! already empty.
//!
//! A trampoline runs in three steps the runner performs in order: it enters
//! event processing ([`Glfw::enter_event_processing`]), recovers the
//! handler and the typed event (the `deliver` functions here and the
//! translation in [`crate::events`]), invokes the handler, and leaves event
//! processing.  Any panic escaping the handler must be caught at that
//! boundary and turned into an abort; it never crosses back into native
//! code.

use vstd::prelude::*;

use crate::codes::{GLFW_CONNECTED, GLFW_DISCONNECTED};
use crate::enums::Joystick;
use crate::events::DispatchFault;
use crate::events::Event;
use crate::monitor::invalidate_monitor;
use crate::monitor::spec_invalidated;
use crate::monitor::DisconnectedMonitor;
use crate::monitor::Monitor;
use crate::monitor::MonitorEntry;
use crate::window::Window;
use crate::window::WindowRecord;
use crate::Glfw;

verus! {

/// The per-window event categories: one native trampoline and one handler
/// slot each.
#[derive(Clone, Copy, PartialEq, Eq, Structural, Hash, Debug)]
pub enum EventCategory {
    WindowPos,
    WindowSize,
    WindowClose,
    WindowRefresh,
    WindowFocus,
    WindowIconify,
    WindowMaximize,
    FramebufferSize,
    ContentScale,
    MouseButton,
    CursorPos,
    CursorEnter,
    Scroll,
    Key,
    CharTyped,
    CharMods,
    FileDrop,
}

/// One optional handler identifier per event category: the block a window's
/// opaque user pointer addresses.  At most one handler is registered per
/// (window, category) pair at any time.
#[derive(Clone, Copy, PartialEq, Eq, Structural, Debug)]
pub struct CallbackSlots {
    pub window_pos: Option<u64>,
    pub window_size: Option<u64>,
    pub window_close: Option<u64>,
    pub window_refresh: Option<u64>,
    pub window_focus: Option<u64>,
    pub window_iconify: Option<u64>,
    pub window_maximize: Option<u64>,
    pub framebuffer_size: Option<u64>,
    pub content_scale: Option<u64>,
    pub mouse_button: Option<u64>,
    pub cursor_pos: Option<u64>,
    pub cursor_enter: Option<u64>,
    pub scroll: Option<u64>,
    pub key: Option<u64>,
    pub char_typed: Option<u64>,
    pub char_mods: Option<u64>,
    pub file_drop: Option<u64>,
}

impl CallbackSlots {
    /// No handler registered for any category.
    pub open spec fn spec_empty() -> CallbackSlots {
        CallbackSlots {
            window_pos: None,
            window_size: None,
            window_close: None,
            window_refresh: None,
            window_focus: None,
            window_iconify: None,
            window_maximize: None,
            framebuffer_size: None,
            content_scale: None,
            mouse_button: None,
            cursor_pos: None,
            cursor_enter: None,
            scroll: None,
            key: None,
            char_typed: None,
            char_mods: None,
            file_drop: None,
        }
    }

    /// No handler registered for any category.
    pub fn empty() -> (r: CallbackSlots)
        ensures
            r == CallbackSlots::spec_empty(),
    {
        CallbackSlots {
            window_pos: None,
            window_size: None,
            window_close: None,
            window_refresh: None,
            window_focus: None,
            window_iconify: None,
            window_maximize: None,
            framebuffer_size: None,
            content_scale: None,
            mouse_button: None,
            cursor_pos: None,
            cursor_enter: None,
            scroll: None,
            key: None,
            char_typed: None,
            char_mods: None,
            file_drop: None,
        }
    }

    /// One handler registered for every category.
    pub open spec fn spec_filled(callback: u64) -> CallbackSlots {
        CallbackSlots {
            window_pos: Some(callback),
            window_size: Some(callback),
            window_close: Some(callback),
            window_refresh: Some(callback),
            window_focus: Some(callback),
            window_iconify: Some(callback),
            window_maximize: Some(callback),
            framebuffer_size: Some(callback),
            content_scale: Some(callback),
            mouse_button: Some(callback),
            cursor_pos: Some(callback),
            cursor_enter: Some(callback),
            scroll: Some(callback),
            key: Some(callback),
            char_typed: Some(callback),
            char_mods: Some(callback),
            file_drop: Some(callback),
        }
    }

    /// One handler registered for every category.
    pub fn filled(callback: u64) -> (r: CallbackSlots)
        ensures
            r == CallbackSlots::spec_filled(callback),
    {
        CallbackSlots {
            window_pos: Some(callback),
            window_size: Some(callback),
            window_close: Some(callback),
            window_refresh: Some(callback),
            window_focus: Some(callback),
            window_iconify: Some(callback),
            window_maximize: Some(callback),
            framebuffer_size: Some(callback),
            content_scale: Some(callback),
            mouse_button: Some(callback),
            cursor_pos: Some(callback),
            cursor_enter: Some(callback),
            scroll: Some(callback),
            key: Some(callback),
            char_typed: Some(callback),
            char_mods: Some(callback),
            file_drop: Some(callback),
        }
    }

    /// The handler slot of one category.
    pub open spec fn spec_slot(self, category: EventCategory) -> Option<u64> {
        match category {
            EventCategory::WindowPos => self.window_pos,
            EventCategory::WindowSize => self.window_size,
            EventCategory::WindowClose => self.window_close,
            EventCategory::WindowRefresh => self.window_refresh,
            EventCategory::WindowFocus => self.window_focus,
            EventCategory::WindowIconify => self.window_iconify,
            EventCategory::WindowMaximize => self.window_maximize,
            EventCategory::FramebufferSize => self.framebuffer_size,
            EventCategory::ContentScale => self.content_scale,
            EventCategory::MouseButton => self.mouse_button,
            EventCategory::CursorPos => self.cursor_pos,
            EventCategory::CursorEnter => self.cursor_enter,
            EventCategory::Scroll => self.scroll,
            EventCategory::Key => self.key,
            EventCategory::CharTyped => self.char_typed,
            EventCategory::CharMods => self.char_mods,
            EventCategory::FileDrop => self.file_drop,
        }
    }

    /// The slots after one category's slot is replaced.
    pub open spec fn spec_with_slot(self, category: EventCategory, v: Option<u64>) -> CallbackSlots {
        match category {
            EventCategory::WindowPos => CallbackSlots { window_pos: v, ..self },
            EventCategory::WindowSize => CallbackSlots { window_size: v, ..self },
            EventCategory::WindowClose => CallbackSlots { window_close: v, ..self },
            EventCategory::WindowRefresh => CallbackSlots { window_refresh: v, ..self },
            EventCategory::WindowFocus => CallbackSlots { window_focus: v, ..self },
            EventCategory::WindowIconify => CallbackSlots { window_iconify: v, ..self },
            EventCategory::WindowMaximize => CallbackSlots { window_maximize: v, ..self },
            EventCategory::FramebufferSize => CallbackSlots { framebuffer_size: v, ..self },
            EventCategory::ContentScale => CallbackSlots { content_scale: v, ..self },
            EventCategory::MouseButton => CallbackSlots { mouse_button: v, ..self },
            EventCategory::CursorPos => CallbackSlots { cursor_pos: v, ..self },
            EventCategory::CursorEnter => CallbackSlots { cursor_enter: v, ..self },
            EventCategory::Scroll => CallbackSlots { scroll: v, ..self },
            EventCategory::Key => CallbackSlots { key: v, ..self },
            EventCategory::CharTyped => CallbackSlots { char_typed: v, ..self },
            EventCategory::CharMods => CallbackSlots { char_mods: v, ..self },
            EventCategory::FileDrop => CallbackSlots { file_drop: v, ..self },
        }
    }

    /// The slots after one category's slot is replaced.
    pub fn with_slot(self, category: EventCategory, v: Option<u64>) -> (r: CallbackSlots)
        ensures
            r == self.spec_with_slot(category, v),
    {
        match category {
            EventCategory::WindowPos => CallbackSlots { window_pos: v, ..self },
            EventCategory::WindowSize => CallbackSlots { window_size: v, ..self },
            EventCategory::WindowClose => CallbackSlots { window_close: v, ..self },
            EventCategory::WindowRefresh => CallbackSlots { window_refresh: v, ..self },
            EventCategory::WindowFocus => CallbackSlots { window_focus: v, ..self },
            EventCategory::WindowIconify => CallbackSlots { window_iconify: v, ..self },
            EventCategory::WindowMaximize => CallbackSlots { window_maximize: v, ..self },
            EventCategory::FramebufferSize => CallbackSlots { framebuffer_size: v, ..self },
            EventCategory::ContentScale => CallbackSlots { content_scale: v, ..self },
            EventCategory::MouseButton => CallbackSlots { mouse_button: v, ..self },
            EventCategory::CursorPos => CallbackSlots { cursor_pos: v, ..self },
            EventCategory::CursorEnter => CallbackSlots { cursor_enter: v, ..self },
            EventCategory::Scroll => CallbackSlots { scroll: v, ..self },
            EventCategory::Key => CallbackSlots { key: v, ..self },
            EventCategory::CharTyped => CallbackSlots { char_typed: v, ..self },
            EventCategory::CharMods => CallbackSlots { char_mods: v, ..self },
            EventCategory::FileDrop => CallbackSlots { file_drop: v, ..self },
        }
    }
}

/// Law: unregistering a handler from a category that has none registered is
/// a no-op, not an error: the slots are unchanged.
pub proof fn lemma_unset_idempotent(slots: CallbackSlots, category: EventCategory)
    requires
        slots.spec_slot(category) is None,
    ensures
        slots.spec_with_slot(category, None) == slots,
{
}

impl Glfw {
    /// Marks the start of native event delivery: a trampoline has fired and
    /// user code is about to run.  Destructive operations requested from
    /// here on are deferred.
    pub fn enter_event_processing(&mut self)
        ensures
            final(self).processing_events,
            final(self).monitors.entries@ == old(self).monitors.entries@,
            final(self).windows@ == old(self).windows@,
            final(self).cursors@ == old(self).cursors@,
            final(self).deferred@ == old(self).deferred@,
            final(self).monitor_callback == old(self).monitor_callback,
            final(self).joystick_callback == old(self).joystick_callback,
    {
        self.processing_events = true;
    }

    /// Marks the end of native event delivery.
    pub fn exit_event_processing(&mut self)
        ensures
            !final(self).processing_events,
            final(self).monitors.entries@ == old(self).monitors.entries@,
            final(self).windows@ == old(self).windows@,
            final(self).cursors@ == old(self).cursors@,
            final(self).deferred@ == old(self).deferred@,
            final(self).monitor_callback == old(self).monitor_callback,
            final(self).joystick_callback == old(self).joystick_callback,
    {
        self.processing_events = false;
    }

    /// Registers the handler for monitor connection events, replacing any
    /// previous one; the native library allows a single global callback for
    /// this category.
    pub fn set_monitor_callback(&mut self, callback: u64)
        ensures
            final(self).monitor_callback == Some(callback),
            final(self).monitors.entries@ == old(self).monitors.entries@,
            final(self).windows@ == old(self).windows@,
            final(self).cursors@ == old(self).cursors@,
            final(self).processing_events == old(self).processing_events,
            final(self).deferred@ == old(self).deferred@,
            final(self).joystick_callback == old(self).joystick_callback,
    {
        self.monitor_callback = Some(callback);
    }

    /// Unregisters the monitor handler; a no-op when none is registered.
    pub fn unset_monitor_callback(&mut self)
        ensures
            final(self).monitor_callback is None,
            final(self).monitors.entries@ == old(self).monitors.entries@,
            final(self).windows@ == old(self).windows@,
            final(self).cursors@ == old(self).cursors@,
            final(self).processing_events == old(self).processing_events,
            final(self).deferred@ == old(self).deferred@,
            final(self).joystick_callback == old(self).joystick_callback,
    {
        self.monitor_callback = None;
    }

    /// Registers the handler for joystick connection events, replacing any
    /// previous one.
    pub fn set_joystick_callback(&mut self, callback: u64)
        ensures
            final(self).joystick_callback == Some(callback),
            final(self).monitors.entries@ == old(self).monitors.entries@,
            final(self).windows@ == old(self).windows@,
            final(self).cursors@ == old(self).cursors@,
            final(self).processing_events == old(self).processing_events,
            final(self).deferred@ == old(self).deferred@,
            final(self).monitor_callback == old(self).monitor_callback,
    {
        self.joystick_callback = Some(callback);
    }

    /// Unregisters the joystick handler; a no-op when none is registered.
    pub fn unset_joystick_callback(&mut self)
        ensures
            final(self).joystick_callback is None,
            final(self).monitors.entries@ == old(self).monitors.entries@,
            final(self).windows@ == old(self).windows@,
            final(self).cursors@ == old(self).cursors@,
            final(self).processing_events == old(self).processing_events,
            final(self).deferred@ == old(self).deferred@,
            final(self).monitor_callback == old(self).monitor_callback,
    {
        self.joystick_callback = None;
    }

    /// Registers a handler for one (window, category) pair, replacing any
    /// previous one.  No other slot of any window changes.
    pub fn set_callback(&mut self, window: &Window, category: EventCategory, callback: u64)
        requires
            old(self).wf(),
            old(self).window_ok(window.id as int),
        ensures
            final(self).wf(),
            final(self).windows@ == old(self).windows@.update(
                window.id as int,
                (WindowRecord {
                    callbacks: old(self).windows@[window.id as int].callbacks.spec_with_slot(
                        category,
                        Some(callback),
                    ),
                    ..old(self).windows@[window.id as int]
                }),
            ),
            final(self).monitors.entries@ == old(self).monitors.entries@,
            final(self).cursors@ == old(self).cursors@,
            final(self).processing_events == old(self).processing_events,
            final(self).deferred@ == old(self).deferred@,
            final(self).monitor_callback == old(self).monitor_callback,
            final(self).joystick_callback == old(self).joystick_callback,
    {
        let rec = self.windows[window.id];
        let slots = rec.callbacks.with_slot(category, Some(callback));
        self.windows.set(window.id, WindowRecord { callbacks: slots, ..rec });
    }

    /// Unregisters the handler for one (window, category) pair.  When no
    /// handler is registered there this changes nothing: unregistration is
    /// idempotent, not an error.
    pub fn unset_callback(&mut self, window: &Window, category: EventCategory)
        requires
            old(self).wf(),
            old(self).window_ok(window.id as int),
        ensures
            final(self).wf(),
            final(self).windows@ == old(self).windows@.update(
                window.id as int,
                (WindowRecord {
                    callbacks: old(self).windows@[window.id as int].callbacks.spec_with_slot(
                        category,
                        None,
                    ),
                    ..old(self).windows@[window.id as int]
                }),
            ),
            old(self).windows@[window.id as int].callbacks.spec_slot(category) is None
                ==> final(self).windows@ == old(self).windows@,
            final(self).monitors.entries@ == old(self).monitors.entries@,
            final(self).cursors@ == old(self).cursors@,
            final(self).processing_events == old(self).processing_events,
            final(self).deferred@ == old(self).deferred@,
            final(self).monitor_callback == old(self).monitor_callback,
            final(self).joystick_callback == old(self).joystick_callback,
    {
        let rec = self.windows[window.id];
        let slots = rec.callbacks.with_slot(category, None);
        self.windows.set(window.id, WindowRecord { callbacks: slots, ..rec });
        proof {
            if old(self).windows@[window.id as int].callbacks.spec_slot(category) is None {
                lemma_unset_idempotent(old(self).windows@[window.id as int].callbacks, category);
                assert(self.windows@ =~= old(self).windows@);
            }
        }
    }

    /// Reads the handler registered for one (window, category) pair, as a
    /// trampoline does before inventing an event: no handler, no delivery.
    pub fn window_callback(&self, window: &Window, category: EventCategory) -> (r: Option<u64>)
        requires
            self.window_ok(window.id as int),
        ensures
            r == self.windows@[window.id as int].callbacks.spec_slot(category),
    {
        let slots = self.windows[window.id].callbacks;
        match category {
            EventCategory::WindowPos => slots.window_pos,
            EventCategory::WindowSize => slots.window_size,
            EventCategory::WindowClose => slots.window_close,
            EventCategory::WindowRefresh => slots.window_refresh,
            EventCategory::WindowFocus => slots.window_focus,
            EventCategory::WindowIconify => slots.window_iconify,
            EventCategory::WindowMaximize => slots.window_maximize,
            EventCategory::FramebufferSize => slots.framebuffer_size,
            EventCategory::ContentScale => slots.content_scale,
            EventCategory::MouseButton => slots.mouse_button,
            EventCategory::CursorPos => slots.cursor_pos,
            EventCategory::CursorEnter => slots.cursor_enter,
            EventCategory::Scroll => slots.scroll,
            EventCategory::Key => slots.key,
            EventCategory::CharTyped => slots.char_typed,
            EventCategory::CharMods => slots.char_mods,
            EventCategory::FileDrop => slots.file_drop,
        }
    }

    /// Installs one handler for every category of each listed window,
    /// returning each window's previous slots in list order so that
    /// [`Glfw::restore_callbacks`] can put them back.  Windows not listed
    /// are untouched.
    pub fn install_callbacks(&mut self, windows: &Vec<Window>, callback: u64) -> (prev: Vec<
        CallbackSlots,
    >)
        requires
            old(self).wf(),
            forall|k: int| 0 <= k < windows@.len() ==> old(self).window_ok(windows@[k].id as int),
            forall|k1: int, k2: int|
                0 <= k1 < k2 < windows@.len() ==> windows@[k1].id != windows@[k2].id,
        ensures
            final(self).wf(),
            prev@.len() == windows@.len(),
            forall|k: int|
                0 <= k < windows@.len() ==> prev@[k] == old(self).windows@[windows@[k].id as int].callbacks,
            final(self).windows@.len() == old(self).windows@.len(),
            forall|k: int|
                0 <= k < windows@.len() ==> final(self).windows@[windows@[k].id as int]
                    == (WindowRecord {
                    callbacks: CallbackSlots::spec_filled(callback),
                    ..old(self).windows@[windows@[k].id as int]
                }),
            forall|w: int|
                0 <= w < old(self).windows@.len() && (forall|k: int|
                    0 <= k < windows@.len() ==> windows@[k].id != w) ==> final(self).windows@[w]
                    == old(self).windows@[w],
            final(self).monitors.entries@ == old(self).monitors.entries@,
            final(self).cursors@ == old(self).cursors@,
            final(self).processing_events == old(self).processing_events,
            final(self).deferred@ == old(self).deferred@,
            final(self).monitor_callback == old(self).monitor_callback,
            final(self).joystick_callback == old(self).joystick_callback,
    {
        let mut prev: Vec<CallbackSlots> = Vec::new();
        let n = windows.len();
        let mut k: usize = 0;
        while k < n
            invariant
                k <= n,
                n == windows@.len(),
                old(self).wf(),
                forall|j: int| 0 <= j < n ==> old(self).window_ok(windows@[j].id as int),
                forall|k1: int, k2: int|
                    0 <= k1 < k2 < n ==> windows@[k1].id != windows@[k2].id,
                self.windows@.len() == old(self).windows@.len(),
                prev@.len() == k,
                forall|j: int|
                    0 <= j < k ==> prev@[j] == old(self).windows@[windows@[j].id as int].callbacks,
                forall|j: int|
                    0 <= j < k ==> self.windows@[windows@[j].id as int] == (WindowRecord {
                        callbacks: CallbackSlots::spec_filled(callback),
                        ..old(self).windows@[windows@[j].id as int]
                    }),
                forall|w: int|
                    0 <= w < old(self).windows@.len() && (forall|j: int|
                        0 <= j < k ==> windows@[j].id != w) ==> self.windows@[w] == old(
                        self,
                    ).windows@[w],
                self.monitors.entries@ == old(self).monitors.entries@,
                self.cursors@ == old(self).cursors@,
                self.processing_events == old(self).processing_events,
                self.deferred@ == old(self).deferred@,
                self.monitor_callback == old(self).monitor_callback,
                self.joystick_callback == old(self).joystick_callback,
            decreases n - k,
        {
            let w = windows[k];
            let rec = self.windows[w.id];
            prev.push(rec.callbacks);
            self.windows.set(w.id, WindowRecord { callbacks: CallbackSlots::filled(callback), ..rec });
            k = k + 1;
        }
        prev
    }

    /// Puts back the slots [`Glfw::install_callbacks`] saved, window by
    /// window.  Windows not listed are untouched.
    pub fn restore_callbacks(&mut self, windows: &Vec<Window>, prev: &Vec<CallbackSlots>)
        requires
            old(self).wf(),
            prev@.len() == windows@.len(),
            forall|k: int| 0 <= k < windows@.len() ==> windows@[k].id < old(self).windows@.len(),
            forall|k1: int, k2: int|
                0 <= k1 < k2 < windows@.len() ==> windows@[k1].id != windows@[k2].id,
        ensures
            final(self).wf(),
            final(self).windows@.len() == old(self).windows@.len(),
            forall|k: int|
                0 <= k < windows@.len() ==> final(self).windows@[windows@[k].id as int]
                    == (WindowRecord {
                    callbacks: prev@[k],
                    ..old(self).windows@[windows@[k].id as int]
                }),
            forall|w: int|
                0 <= w < old(self).windows@.len() && (forall|k: int|
                    0 <= k < windows@.len() ==> windows@[k].id != w) ==> final(self).windows@[w]
                    == old(self).windows@[w],
            final(self).monitors.entries@ == old(self).monitors.entries@,
            final(self).cursors@ == old(self).cursors@,
            final(self).processing_events == old(self).processing_events,
            final(self).deferred@ == old(self).deferred@,
            final(self).monitor_callback == old(self).monitor_callback,
            final(self).joystick_callback == old(self).joystick_callback,
    {
        let n = windows.len();
        let mut k: usize = 0;
        while k < n
            invariant
                k <= n,
                n == windows@.len(),
                old(self).wf(),
                prev@.len() == windows@.len(),
                forall|j: int| 0 <= j < n ==> windows@[j].id < old(self).windows@.len(),
                forall|k1: int, k2: int|
                    0 <= k1 < k2 < n ==> windows@[k1].id != windows@[k2].id,
                self.windows@.len() == old(self).windows@.len(),
                forall|j: int|
                    0 <= j < k ==> self.windows@[windows@[j].id as int] == (WindowRecord {
                        callbacks: prev@[j],
                        ..old(self).windows@[windows@[j].id as int]
                    }),
                forall|w: int|
                    0 <= w < old(self).windows@.len() && (forall|j: int|
                        0 <= j < k ==> windows@[j].id != w) ==> self.windows@[w] == old(
                        self,
                    ).windows@[w],
                self.monitors.entries@ == old(self).monitors.entries@,
                self.cursors@ == old(self).cursors@,
                self.processing_events == old(self).processing_events,
                self.deferred@ == old(self).deferred@,
                self.monitor_callback == old(self).monitor_callback,
                self.joystick_callback == old(self).joystick_callback,
            decreases n - k,
        {
            let w = windows[k];
            let rec = self.windows[w.id];
            self.windows.set(w.id, WindowRecord { callbacks: prev[k], ..rec });
            k = k + 1;
        }
    }

    /// Reacts to the native monitor trampoline.  On a connection, a fresh
    /// [`Monitor`] is registered — only when a handler will see it — and
    /// handed to the handler.  On a disconnection, every handle sharing the
    /// native address is invalidated first, whether or not a handler is
    /// registered, and the handler then receives the single-use
    /// [`DisconnectedMonitor`] reference.  Any other event code is a
    /// dispatch fault.
    pub fn deliver_monitor_event(&mut self, ptr: crate::GLFWmonitor, event: i32) -> (r: Result<
        Option<(u64, Event)>,
        DispatchFault,
    >)
        requires
            old(self).wf(),
        ensures
            final(self).wf(),
            final(self).windows@ == old(self).windows@,
            final(self).cursors@ == old(self).cursors@,
            final(self).processing_events == old(self).processing_events,
            final(self).deferred@ == old(self).deferred@,
            final(self).monitor_callback == old(self).monitor_callback,
            final(self).joystick_callback == old(self).joystick_callback,
            event == GLFW_CONNECTED ==> match old(self).monitor_callback {
                Some(h) => {
                    &&& final(self).monitors.entries@ == old(self).monitors.entries@.push(
                        (MonitorEntry { ptr: ptr, valid: true }),
                    )
                    &&& r matches Ok(d)
                    &&& d matches Some((hh, e))
                    &&& hh == h
                    &&& e matches Event::MonitorConnected(m)
                    &&& m.slot == old(self).monitors.entries@.len()
                },
                None => {
                    &&& final(self).monitors.entries@ == old(self).monitors.entries@
                    &&& r matches Ok(d)
                    &&& d is None
                },
            },
            event == GLFW_DISCONNECTED ==> {
                &&& final(self).monitors.entries@ == spec_invalidated(
                    old(self).monitors.entries@,
                    ptr,
                )
                &&& match old(self).monitor_callback {
                    Some(h) => {
                        &&& r matches Ok(d)
                        &&& d matches Some((hh, e))
                        &&& hh == h
                        &&& e matches Event::MonitorDisconnected(dm)
                        &&& dm.ptr == ptr
                    },
                    None => {
                        &&& r matches Ok(d)
                        &&& d is None
                    },
                }
            },
            event != GLFW_CONNECTED && event != GLFW_DISCONNECTED ==> {
                &&& final(self).monitors.entries@ == old(self).monitors.entries@
                &&& r matches Err(f)
                &&& f == DispatchFault::UnknownMonitorEvent(event)
            },
    {
        if event == GLFW_CONNECTED {
            match self.monitor_callback {
                Some(h) => {
                    let m = Monitor::create_from(&mut self.monitors, ptr);
                    Ok(Some((h, Event::MonitorConnected(m))))
                },
                None => Ok(None),
            }
        } else if event == GLFW_DISCONNECTED {
            invalidate_monitor(&mut self.monitors, ptr);
            match self.monitor_callback {
                Some(h) => Ok(
                    Some((h, Event::MonitorDisconnected(DisconnectedMonitor { ptr: ptr }))),
                ),
                None => Ok(None),
            }
        } else {
            Err(DispatchFault::UnknownMonitorEvent(event))
        }
    }

    /// Reacts to the native joystick trampoline: validates the event code
    /// and the joystick identifier, and names the handler, if one is
    /// registered, with the typed event it receives.
    pub fn deliver_joystick_event(&self, joystick: i32, event: i32) -> (r: Result<
        Option<(u64, Event)>,
        DispatchFault,
    >)
        ensures
            event != GLFW_CONNECTED && event != GLFW_DISCONNECTED ==> {
                &&& r matches Err(f)
                &&& f == DispatchFault::UnknownJoystickEvent(event)
            },
            (event == GLFW_CONNECTED || event == GLFW_DISCONNECTED)
                ==> match Joystick::spec_from_code(joystick) {
                None => {
                    &&& r matches Err(f)
                    &&& f == DispatchFault::UnknownJoystick(joystick)
                },
                Some(j) => match self.joystick_callback {
                    Some(h) => {
                        &&& r matches Ok(d)
                        &&& d matches Some((hh, e))
                        &&& hh == h
                        &&& e == (if event == GLFW_CONNECTED {
                            Event::JoystickConnected(j)
                        } else {
                            Event::JoystickDisconnected(j)
                        })
                    },
                    None => {
                        &&& r matches Ok(d)
                        &&& d is None
                    },
                },
            },
    {
        if event != GLFW_CONNECTED && event != GLFW_DISCONNECTED {
            return Err(DispatchFault::UnknownJoystickEvent(event));
        }
        match Joystick::from_code(joystick) {
            None => Err(DispatchFault::UnknownJoystick(joystick)),
            Some(j) => match self.joystick_callback {
                Some(h) => {
                    if event == GLFW_CONNECTED {
                        Ok(Some((h, Event::JoystickConnected(j))))
                    } else {
                        Ok(Some((h, Event::JoystickDisconnected(j))))
                    }
                },
                None => Ok(None),
            },
        }
    }
}

} // verus!
