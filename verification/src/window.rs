//! Windows: safely-owned wrappers around native window handles.
//!
//! All observable window state the native library would hold — attributes,
//! input modes, the close flag, the per-category handler slots — lives in a
//! [`WindowRecord`] of the session's window table.  A [`Window`] is the
//! owning handle naming one record; [`SharedWindow`] is the part of it other
//! threads may use.  Records are never removed from the table, only marked
//! dead, so indices stay meaningful for the whole session.

use vstd::prelude::*;

use crate::callbacks::CallbackSlots;
use crate::enums::ClientApi;
use crate::enums::ContextCreationApi;
use crate::enums::ContextRobustness;
use crate::enums::CursorMode;
use crate::enums::InputMode;
use crate::enums::OpenGlProfile;
use crate::enums::SetInputMode;
use crate::enums::SetWindowAttribute;
use crate::enums::WindowAttribute;
use crate::enums::WindowHints;
use crate::monitor::Monitor;
use crate::Error;
use crate::GLFWmonitor;
use crate::GLFWwindow;
use crate::Glfw;
use crate::NativeAction;
use crate::ReentranceAvoidanceCommand;

verus! {

/// The queryable state of one window, as the creation hints establish it
/// and later operations and events update it.
#[derive(Clone, Copy, PartialEq, Eq, Structural, Debug)]
pub struct WindowAttributes {
    pub focused: bool,
    pub iconified: bool,
    pub maximized: bool,
    pub hovered: bool,
    pub visible: bool,
    pub resizable: bool,
    pub decorated: bool,
    pub auto_iconify: bool,
    pub floating: bool,
    pub transparent_framebuffer: bool,
    pub opengl_forward_compat: bool,
    pub opengl_debug_context: bool,
    pub client_api: ClientApi,
    pub context_creation_api: ContextCreationApi,
    pub context_robustness: ContextRobustness,
    pub opengl_profile: OpenGlProfile,
    pub context_version_major: i32,
    pub context_version_minor: i32,
    pub context_revision: i32,
}

impl WindowAttributes {
    /// The attributes a freshly created window reports, given the hints it
    /// was created with: each hinted attribute holds the hinted value, and a
    /// fresh window is neither iconified nor hovered.
    pub open spec fn spec_from_hints(h: WindowHints) -> WindowAttributes {
        WindowAttributes {
            focused: h.focused,
            iconified: false,
            maximized: h.maximized,
            hovered: false,
            visible: h.visible,
            resizable: h.resizable,
            decorated: h.decorated,
            auto_iconify: h.auto_iconify,
            floating: h.floating,
            transparent_framebuffer: h.transparent_framebuffer,
            opengl_forward_compat: h.opengl_forward_compatible,
            opengl_debug_context: h.opengl_debug_context,
            client_api: h.client_api,
            context_creation_api: h.context_creation_api,
            context_robustness: h.context_robustness,
            opengl_profile: h.opengl_profile,
            context_version_major: h.context_version_major,
            context_version_minor: h.context_version_minor,
            context_revision: 0,
        }
    }

    /// The value of one boolean attribute.
    pub open spec fn spec_get(self, attribute: WindowAttribute) -> bool {
        match attribute {
            WindowAttribute::Focused => self.focused,
            WindowAttribute::Iconified => self.iconified,
            WindowAttribute::Maximized => self.maximized,
            WindowAttribute::Hovered => self.hovered,
            WindowAttribute::Visible => self.visible,
            WindowAttribute::Resizable => self.resizable,
            WindowAttribute::Decorated => self.decorated,
            WindowAttribute::AutoIconify => self.auto_iconify,
            WindowAttribute::Floating => self.floating,
            WindowAttribute::TransparentFramebuffer => self.transparent_framebuffer,
            WindowAttribute::OpenGlForwardCompat => self.opengl_forward_compat,
            WindowAttribute::OpenGlDebugContext => self.opengl_debug_context,
        }
    }

    /// What the creation hints request for one queryable boolean attribute;
    /// the two attributes no hint governs (iconified, hovered) start false.
    pub open spec fn spec_hint_request(h: WindowHints, attribute: WindowAttribute) -> bool {
        match attribute {
            WindowAttribute::Focused => h.focused,
            WindowAttribute::Iconified => false,
            WindowAttribute::Maximized => h.maximized,
            WindowAttribute::Hovered => false,
            WindowAttribute::Visible => h.visible,
            WindowAttribute::Resizable => h.resizable,
            WindowAttribute::Decorated => h.decorated,
            WindowAttribute::AutoIconify => h.auto_iconify,
            WindowAttribute::Floating => h.floating,
            WindowAttribute::TransparentFramebuffer => h.transparent_framebuffer,
            WindowAttribute::OpenGlForwardCompat => h.opengl_forward_compatible,
            WindowAttribute::OpenGlDebugContext => h.opengl_debug_context,
        }
    }

    /// The attributes after one attribute-setting request.
    pub open spec fn spec_set(self, attribute: SetWindowAttribute) -> WindowAttributes {
        match attribute {
            SetWindowAttribute::Decorated(v) => WindowAttributes { decorated: v, ..self },
            SetWindowAttribute::Resizable(v) => WindowAttributes { resizable: v, ..self },
            SetWindowAttribute::Floating(v) => WindowAttributes { floating: v, ..self },
            SetWindowAttribute::AutoIconify(v) => WindowAttributes { auto_iconify: v, ..self },
        }
    }
}

/// Law: window hints round-trip into window attributes.  Every queryable
/// boolean attribute of a freshly created window agrees with what the
/// creation hints requested.
pub proof fn lemma_window_hints_round_trip(h: WindowHints, attribute: WindowAttribute)
    ensures
        WindowAttributes::spec_from_hints(h).spec_get(attribute) == WindowAttributes::spec_hint_request(
            h,
            attribute,
        ),
{
}

/// The per-window input modes.
#[derive(Clone, Copy, PartialEq, Eq, Structural, Debug)]
pub struct InputModes {
    pub cursor_mode: CursorMode,
    pub sticky_keys: bool,
    pub sticky_mouse_buttons: bool,
    pub lock_key_mods: bool,
    pub raw_mouse_motion: bool,
}

impl InputModes {
    /// The input modes of a freshly created window.
    pub open spec fn spec_initial() -> InputModes {
        InputModes {
            cursor_mode: CursorMode::Normal,
            sticky_keys: false,
            sticky_mouse_buttons: false,
            lock_key_mods: false,
            raw_mouse_motion: false,
        }
    }

    /// The value of one boolean input mode.
    pub open spec fn spec_get(self, mode: InputMode) -> bool {
        match mode {
            InputMode::StickyKeys => self.sticky_keys,
            InputMode::StickyMouseButtons => self.sticky_mouse_buttons,
            InputMode::LockKeyMods => self.lock_key_mods,
            InputMode::RawMouseMotion => self.raw_mouse_motion,
        }
    }

    /// The input modes after one mode-setting request.
    pub open spec fn spec_set(self, mode: SetInputMode) -> InputModes {
        match mode {
            SetInputMode::Cursor(c) => InputModes { cursor_mode: c, ..self },
            SetInputMode::StickyKeys(v) => InputModes { sticky_keys: v, ..self },
            SetInputMode::StickyMouseButtons(v) => InputModes { sticky_mouse_buttons: v, ..self },
            SetInputMode::LockKeyMods(v) => InputModes { lock_key_mods: v, ..self },
            SetInputMode::RawMouseMotion(v) => InputModes { raw_mouse_motion: v, ..self },
        }
    }
}

/// One entry of the session's window table.
#[derive(Clone, Copy, PartialEq, Eq, Structural, Debug)]
pub struct WindowRecord {
    /// The native handle, fixed for the record's whole life.
    pub handle: GLFWwindow,
    /// False once the native window has actually been destroyed.
    pub alive: bool,
    /// The size the window was requested with.
    pub width: i32,
    pub height: i32,
    /// The monitor a fullscreen window was created on.
    pub monitor: Option<GLFWmonitor>,
    pub attributes: WindowAttributes,
    pub input_modes: InputModes,
    pub should_close: bool,
    /// The per-category handler slots reachable through the window's opaque
    /// user pointer.
    pub callbacks: CallbackSlots,
}

impl WindowRecord {
    /// The record of a freshly created window.
    pub open spec fn spec_fresh(
        handle: GLFWwindow,
        h: WindowHints,
        width: i32,
        height: i32,
        monitor: Option<GLFWmonitor>,
    ) -> WindowRecord {
        WindowRecord {
            handle,
            alive: true,
            width,
            height,
            monitor,
            attributes: WindowAttributes::spec_from_hints(h),
            input_modes: InputModes::spec_initial(),
            should_close: false,
            callbacks: CallbackSlots::spec_empty(),
        }
    }
}

/// The window table after record `i` is hidden: only its visibility
/// changes; it stays alive, and every other record is untouched.
pub open spec fn spec_window_hidden(ws: Seq<WindowRecord>, i: int) -> Seq<WindowRecord> {
    ws.update(
        i,
        WindowRecord {
            attributes: WindowAttributes { visible: false, ..ws[i].attributes },
            ..ws[i]
        },
    )
}

/// The window table after record `i`'s native window is destroyed: only its
/// liveness changes, and every other record is untouched.
pub open spec fn spec_window_destroyed(ws: Seq<WindowRecord>, i: int) -> Seq<WindowRecord> {
    ws.update(i, WindowRecord { alive: false, ..ws[i] })
}

/// The window table after record `i`'s attributes are replaced; everything
/// else about it, and every other record, is untouched.
pub open spec fn spec_window_with_attributes(
    ws: Seq<WindowRecord>,
    i: int,
    a: WindowAttributes,
) -> Seq<WindowRecord> {
    ws.update(i, WindowRecord { attributes: a, ..ws[i] })
}

/// The owning handle to one window of the session.
#[derive(Clone, Copy, PartialEq, Eq, Structural, Debug)]
pub struct Window {
    /// Index of the window's record in the session's table.
    pub id: usize,
    pub shared: SharedWindow,
}

/// The part of a window usable from any thread.
#[derive(Clone, Copy, PartialEq, Eq, Structural, Hash, Debug)]
pub struct SharedWindow {
    /// Index of the window's record in the session's table.
    pub id: usize,
}

impl Window {
    /// A window handle is coherent when its shared part names the same
    /// record.
    pub open spec fn wf(self) -> bool {
        self.shared.id == self.id
    }

    /// Builds the handle for the record with index `id`; the dispatch
    /// bridge uses this to hand a non-owning reference to a handler.
    pub fn init(id: usize) -> (r: Window)
        ensures
            r.id == id,
            r.wf(),
    {
        Window { id, shared: SharedWindow { id } }
    }

    /// Gets the part of this window usable from any thread.
    pub fn shared(&self) -> (r: &SharedWindow)
        ensures
            r == self.shared,
            r.id == self.shared.id,
    {
        &self.shared
    }
}

impl Glfw {
    /// The handle names a live record of this session's window table.
    pub open spec fn window_ok(self, id: int) -> bool {
        0 <= id < self.windows@.len() && self.windows@[id].alive
    }

    /// Creates a window.  The runner applies [`WindowHints::hint_codes`]
    /// and performs the native creation call, reporting its outcome through
    /// `native`; this function owns the record-keeping.  On success the new
    /// window's attributes are the ones the hints requested; on failure the
    /// session is unchanged and the native error is handed back.
    pub fn create_window(
        &mut self,
        window_hints: &WindowHints,
        width: i32,
        height: i32,
        monitor: Option<&Monitor>,
        native: Result<GLFWwindow, Error>,
    ) -> (r: Result<Window, Error>)
        requires
            old(self).wf(),
            monitor matches Some(m) ==> m.registered(old(self).monitors) && m.spec_valid(
                old(self).monitors,
            ),
        ensures
            final(self).wf(),
            final(self).monitors.entries@ == old(self).monitors.entries@,
            final(self).cursors@ == old(self).cursors@,
            final(self).processing_events == old(self).processing_events,
            final(self).deferred@ == old(self).deferred@,
            final(self).monitor_callback == old(self).monitor_callback,
            final(self).joystick_callback == old(self).joystick_callback,
            match native {
                Ok(h) => {
                    &&& r matches Ok(w) && w.id == old(self).windows@.len() && w.wf()
                    &&& final(self).windows@ == old(self).windows@.push(
                        WindowRecord::spec_fresh(
                            h,
                            *window_hints,
                            width,
                            height,
                            match monitor {
                                Some(m) => Some(m.spec_ptr(old(self).monitors)),
                                None => None,
                            },
                        ),
                    )
                },
                Err(e) => {
                    &&& r matches Err(e2) && e2 == e
                    &&& final(self).windows@ == old(self).windows@
                },
            },
    {
        let fullscreen = match monitor {
            Some(m) => Some(m.get_ptr(&self.monitors)),
            None => None,
        };
        match native {
            Ok(handle) => {
                let id = self.windows.len();
                self.windows.push(
                    WindowRecord {
                        handle,
                        alive: true,
                        width,
                        height,
                        monitor: fullscreen,
                        attributes: attributes_from_hints(window_hints),
                        input_modes: InputModes {
                            cursor_mode: CursorMode::Normal,
                            sticky_keys: false,
                            sticky_mouse_buttons: false,
                            lock_key_mods: false,
                            raw_mouse_motion: false,
                        },
                        should_close: false,
                        callbacks: CallbackSlots::empty(),
                    },
                );
                Ok(Window::init(id))
            },
            Err(e) => Err(e),
        }
    }

    /// Requests destruction of a window.  Inside event processing the
    /// native pump may be traversing its own structures, so the real
    /// destruction is deferred: the window is queued and immediately
    /// hidden — the only observable change — and stays alive until the
    /// queue is drained.  Outside event processing it is destroyed at once.
    /// Either way no other window's record changes.
    #[verifier::rlimit(50)]
    pub fn destroy_window(&mut self, window: Window) -> (act: NativeAction)
        requires
            old(self).wf(),
            old(self).window_ok(window.id as int),
        ensures
            final(self).wf(),
            final(self).monitors.entries@ == old(self).monitors.entries@,
            final(self).cursors@ == old(self).cursors@,
            final(self).processing_events == old(self).processing_events,
            final(self).monitor_callback == old(self).monitor_callback,
            final(self).joystick_callback == old(self).joystick_callback,
            old(self).processing_events ==> {
                &&& final(self).windows@ == spec_window_hidden(old(self).windows@, window.id as int)
                &&& final(self).deferred@ == old(self).deferred@.push(
                    ReentranceAvoidanceCommand::DestroyWindow(window.id),
                )
                &&& act == NativeAction::HideWindow(old(self).windows@[window.id as int].handle)
            },
            !old(self).processing_events ==> {
                &&& final(self).windows@ == spec_window_destroyed(
                    old(self).windows@,
                    window.id as int,
                )
                &&& final(self).deferred@ == old(self).deferred@
                &&& act == NativeAction::DestroyWindow(old(self).windows@[window.id as int].handle)
            },
    {
        let rec = self.windows[window.id];
        if self.processing_events {
            self.deferred.push(ReentranceAvoidanceCommand::DestroyWindow(window.id));
            let mut updated = rec;
            updated.attributes.visible = false;
            self.windows.set(window.id, updated);
            proof {
                crate::lemma_cmds_in_range_push(
                    old(self).deferred@,
                    ReentranceAvoidanceCommand::DestroyWindow(window.id),
                    old(self).windows@.len() as int,
                    old(self).cursors@.len() as int,
                );
            }
            NativeAction::HideWindow(rec.handle)
        } else {
            self.windows.set(window.id, WindowRecord { alive: false, ..rec });
            NativeAction::DestroyWindow(rec.handle)
        }
    }

    /// Reads one boolean attribute of a window, as the session's record of
    /// the native state has it.
    pub fn get_attribute(&self, window: &Window, attribute: WindowAttribute) -> (r: bool)
        requires
            self.window_ok(window.id as int),
        ensures
            r == self.windows@[window.id as int].attributes.spec_get(attribute),
    {
        let a = self.windows[window.id].attributes;
        match attribute {
            WindowAttribute::Focused => a.focused,
            WindowAttribute::Iconified => a.iconified,
            WindowAttribute::Maximized => a.maximized,
            WindowAttribute::Hovered => a.hovered,
            WindowAttribute::Visible => a.visible,
            WindowAttribute::Resizable => a.resizable,
            WindowAttribute::Decorated => a.decorated,
            WindowAttribute::AutoIconify => a.auto_iconify,
            WindowAttribute::Floating => a.floating,
            WindowAttribute::TransparentFramebuffer => a.transparent_framebuffer,
            WindowAttribute::OpenGlForwardCompat => a.opengl_forward_compat,
            WindowAttribute::OpenGlDebugContext => a.opengl_debug_context,
        }
    }

    /// Reads the client interface the window's context was created for.
    pub fn get_client_api_attribute(&self, window: &Window) -> (r: ClientApi)
        requires
            self.window_ok(window.id as int),
        ensures
            r == self.windows@[window.id as int].attributes.client_api,
    {
        self.windows[window.id].attributes.client_api
    }

    /// Reads the machinery the window's context was created by.
    pub fn get_context_creation_api_attribute(&self, window: &Window) -> (r: ContextCreationApi)
        requires
            self.window_ok(window.id as int),
        ensures
            r == self.windows@[window.id as int].attributes.context_creation_api,
    {
        self.windows[window.id].attributes.context_creation_api
    }

    /// Reads the context version of the window.
    pub fn get_context_version_attribute(&self, window: &Window) -> (r: (i32, i32, i32))
        requires
            self.window_ok(window.id as int),
        ensures
            r.0 == self.windows@[window.id as int].attributes.context_version_major,
            r.1 == self.windows@[window.id as int].attributes.context_version_minor,
            r.2 == self.windows@[window.id as int].attributes.context_revision,
    {
        let a = self.windows[window.id].attributes;
        (a.context_version_major, a.context_version_minor, a.context_revision)
    }

    /// Reads the profile the window's context was created for.
    pub fn get_opengl_profile_attribute(&self, window: &Window) -> (r: OpenGlProfile)
        requires
            self.window_ok(window.id as int),
        ensures
            r == self.windows@[window.id as int].attributes.opengl_profile,
    {
        self.windows[window.id].attributes.opengl_profile
    }

    /// Reads the robustness strategy of the window's context.
    pub fn get_context_robustness_attribute(&self, window: &Window) -> (r: ContextRobustness)
        requires
            self.window_ok(window.id as int),
        ensures
            r == self.windows@[window.id as int].attributes.context_robustness,
    {
        self.windows[window.id].attributes.context_robustness
    }

    /// Applies one attribute-setting request to a window.  The runner
    /// performs the matching native call with
    /// [`SetWindowAttribute::attrib_and_value`].
    pub fn set_attribute(&mut self, window: &Window, attribute: SetWindowAttribute)
        requires
            old(self).wf(),
            old(self).window_ok(window.id as int),
        ensures
            final(self).wf(),
            final(self).windows@ == old(self).windows@.update(
                window.id as int,
                (WindowRecord {
                    attributes: old(self).windows@[window.id as int].attributes.spec_set(attribute),
                    ..old(self).windows@[window.id as int]
                }),
            ),
            final(self).monitors.entries@ == old(self).monitors.entries@,
            final(self).cursors@ == old(self).cursors@,
            final(self).processing_events == old(self).processing_events,
            final(self).deferred@ == old(self).deferred@,
            final(self).monitor_callback == old(self).monitor_callback,
            final(self).joystick_callback == old(self).joystick_callback,
    {
        let rec = self.windows[window.id];
        let a = rec.attributes;
        let updated = match attribute {
            SetWindowAttribute::Decorated(v) => WindowAttributes { decorated: v, ..a },
            SetWindowAttribute::Resizable(v) => WindowAttributes { resizable: v, ..a },
            SetWindowAttribute::Floating(v) => WindowAttributes { floating: v, ..a },
            SetWindowAttribute::AutoIconify(v) => WindowAttributes { auto_iconify: v, ..a },
        };
        self.windows.set(window.id, WindowRecord { attributes: updated, ..rec });
    }

    /// Reads one boolean input mode of a window.
    pub fn get_input_mode(&self, window: &Window, mode: InputMode) -> (r: bool)
        requires
            self.window_ok(window.id as int),
        ensures
            r == self.windows@[window.id as int].input_modes.spec_get(mode),
    {
        let m = self.windows[window.id].input_modes;
        match mode {
            InputMode::StickyKeys => m.sticky_keys,
            InputMode::StickyMouseButtons => m.sticky_mouse_buttons,
            InputMode::LockKeyMods => m.lock_key_mods,
            InputMode::RawMouseMotion => m.raw_mouse_motion,
        }
    }

    /// Reads the cursor mode of a window.
    pub fn get_cursor_mode(&self, window: &Window) -> (r: CursorMode)
        requires
            self.window_ok(window.id as int),
        ensures
            r == self.windows@[window.id as int].input_modes.cursor_mode,
    {
        self.windows[window.id].input_modes.cursor_mode
    }

    /// Applies one input-mode request to a window.  The runner performs the
    /// matching native call with [`SetInputMode::mode_and_value`].
    pub fn set_input_mode(&mut self, window: &Window, mode: SetInputMode)
        requires
            old(self).wf(),
            old(self).window_ok(window.id as int),
        ensures
            final(self).wf(),
            final(self).windows@ == old(self).windows@.update(
                window.id as int,
                (WindowRecord {
                    input_modes: old(self).windows@[window.id as int].input_modes.spec_set(mode),
                    ..old(self).windows@[window.id as int]
                }),
            ),
            final(self).monitors.entries@ == old(self).monitors.entries@,
            final(self).cursors@ == old(self).cursors@,
            final(self).processing_events == old(self).processing_events,
            final(self).deferred@ == old(self).deferred@,
            final(self).monitor_callback == old(self).monitor_callback,
            final(self).joystick_callback == old(self).joystick_callback,
    {
        let rec = self.windows[window.id];
        let m = rec.input_modes;
        let updated = match mode {
            SetInputMode::Cursor(c) => InputModes { cursor_mode: c, ..m },
            SetInputMode::StickyKeys(v) => InputModes { sticky_keys: v, ..m },
            SetInputMode::StickyMouseButtons(v) => InputModes { sticky_mouse_buttons: v, ..m },
            SetInputMode::LockKeyMods(v) => InputModes { lock_key_mods: v, ..m },
            SetInputMode::RawMouseMotion(v) => InputModes { raw_mouse_motion: v, ..m },
        };
        self.windows.set(window.id, WindowRecord { input_modes: updated, ..rec });
    }

    /// Finds the live window owning a native handle, as the dispatch bridge
    /// must when a trampoline fires: the non-owning reference it hands to
    /// the handler.  Returns the first live record with that handle, or
    /// nothing when no live window has it (the event then goes nowhere).
    pub fn find_window(&self, handle: GLFWwindow) -> (r: Option<Window>)
        ensures
            match r {
                Some(w) => {
                    &&& w.wf()
                    &&& self.window_ok(w.id as int)
                    &&& self.windows@[w.id as int].handle == handle
                    &&& forall|j: int|
                        0 <= j < w.id ==> !(self.windows@[j].alive && self.windows@[j].handle
                            == handle)
                },
                None => forall|j: int|
                    0 <= j < self.windows@.len() ==> !(self.windows@[j].alive
                        && self.windows@[j].handle == handle),
            },
    {
        let n = self.windows.len();
        let mut i: usize = 0;
        while i < n
            invariant
                i <= n,
                n == self.windows@.len(),
                forall|j: int|
                    0 <= j < i ==> !(self.windows@[j].alive && self.windows@[j].handle == handle),
            decreases n - i,
        {
            let rec = self.windows[i];
            if rec.alive && rec.handle == handle {
                return Some(Window::init(i));
            }
            i = i + 1;
        }
        None
    }
}

impl Window {
    /// Makes the window visible.  The runner performs the native call; the
    /// session records the new visibility.
    pub fn show(&self, glfw: &mut Glfw)
        requires
            old(glfw).wf(),
            old(glfw).window_ok(self.id as int),
        ensures
            final(glfw).wf(),
            final(glfw).windows@ == spec_window_with_attributes(
                old(glfw).windows@,
                self.id as int,
                (WindowAttributes {
                    visible: true,
                    ..old(glfw).windows@[self.id as int].attributes
                }),
            ),
            final(glfw).monitors.entries@ == old(glfw).monitors.entries@,
            final(glfw).cursors@ == old(glfw).cursors@,
            final(glfw).processing_events == old(glfw).processing_events,
            final(glfw).deferred@ == old(glfw).deferred@,
            final(glfw).monitor_callback == old(glfw).monitor_callback,
            final(glfw).joystick_callback == old(glfw).joystick_callback,
    {
        let rec = glfw.windows[self.id];
        let mut updated = rec;
        updated.attributes.visible = true;
        glfw.windows.set(self.id, updated);
    }

    /// Hides the window.  (The bare word `hide` is reserved by the
    /// verifier, hence the longer name.)
    pub fn hide_window(&self, glfw: &mut Glfw)
        requires
            old(glfw).wf(),
            old(glfw).window_ok(self.id as int),
        ensures
            final(glfw).wf(),
            final(glfw).windows@ == spec_window_with_attributes(
                old(glfw).windows@,
                self.id as int,
                (WindowAttributes {
                    visible: false,
                    ..old(glfw).windows@[self.id as int].attributes
                }),
            ),
            final(glfw).monitors.entries@ == old(glfw).monitors.entries@,
            final(glfw).cursors@ == old(glfw).cursors@,
            final(glfw).processing_events == old(glfw).processing_events,
            final(glfw).deferred@ == old(glfw).deferred@,
            final(glfw).monitor_callback == old(glfw).monitor_callback,
            final(glfw).joystick_callback == old(glfw).joystick_callback,
    {
        let rec = glfw.windows[self.id];
        let mut updated = rec;
        updated.attributes.visible = false;
        glfw.windows.set(self.id, updated);
    }

    /// Iconifies (minimizes) the window.
    pub fn iconify(&self, glfw: &mut Glfw)
        requires
            old(glfw).wf(),
            old(glfw).window_ok(self.id as int),
        ensures
            final(glfw).wf(),
            final(glfw).windows@ == spec_window_with_attributes(
                old(glfw).windows@,
                self.id as int,
                (WindowAttributes {
                    iconified: true,
                    ..old(glfw).windows@[self.id as int].attributes
                }),
            ),
            final(glfw).monitors.entries@ == old(glfw).monitors.entries@,
            final(glfw).cursors@ == old(glfw).cursors@,
            final(glfw).processing_events == old(glfw).processing_events,
            final(glfw).deferred@ == old(glfw).deferred@,
            final(glfw).monitor_callback == old(glfw).monitor_callback,
            final(glfw).joystick_callback == old(glfw).joystick_callback,
    {
        let rec = glfw.windows[self.id];
        let mut updated = rec;
        updated.attributes.iconified = true;
        glfw.windows.set(self.id, updated);
    }

    /// Restores the window from iconified or maximized state.
    pub fn restore(&self, glfw: &mut Glfw)
        requires
            old(glfw).wf(),
            old(glfw).window_ok(self.id as int),
        ensures
            final(glfw).wf(),
            final(glfw).windows@ == spec_window_with_attributes(
                old(glfw).windows@,
                self.id as int,
                (WindowAttributes {
                    iconified: false,
                    maximized: false,
                    ..old(glfw).windows@[self.id as int].attributes
                }),
            ),
            final(glfw).monitors.entries@ == old(glfw).monitors.entries@,
            final(glfw).cursors@ == old(glfw).cursors@,
            final(glfw).processing_events == old(glfw).processing_events,
            final(glfw).deferred@ == old(glfw).deferred@,
            final(glfw).monitor_callback == old(glfw).monitor_callback,
            final(glfw).joystick_callback == old(glfw).joystick_callback,
    {
        let rec = glfw.windows[self.id];
        let mut updated = rec;
        updated.attributes.iconified = false;
        updated.attributes.maximized = false;
        glfw.windows.set(self.id, updated);
    }

    /// Maximizes the window; a maximized window is not iconified.
    pub fn maximize(&self, glfw: &mut Glfw)
        requires
            old(glfw).wf(),
            old(glfw).window_ok(self.id as int),
        ensures
            final(glfw).wf(),
            final(glfw).windows@ == spec_window_with_attributes(
                old(glfw).windows@,
                self.id as int,
                (WindowAttributes {
                    maximized: true,
                    iconified: false,
                    ..old(glfw).windows@[self.id as int].attributes
                }),
            ),
            final(glfw).monitors.entries@ == old(glfw).monitors.entries@,
            final(glfw).cursors@ == old(glfw).cursors@,
            final(glfw).processing_events == old(glfw).processing_events,
            final(glfw).deferred@ == old(glfw).deferred@,
            final(glfw).monitor_callback == old(glfw).monitor_callback,
            final(glfw).joystick_callback == old(glfw).joystick_callback,
    {
        let rec = glfw.windows[self.id];
        let mut updated = rec;
        updated.attributes.maximized = true;
        updated.attributes.iconified = false;
        glfw.windows.set(self.id, updated);
    }

    /// Gives the window input focus.
    pub fn focus(&self, glfw: &mut Glfw)
        requires
            old(glfw).wf(),
            old(glfw).window_ok(self.id as int),
        ensures
            final(glfw).wf(),
            final(glfw).windows@ == spec_window_with_attributes(
                old(glfw).windows@,
                self.id as int,
                (WindowAttributes {
                    focused: true,
                    ..old(glfw).windows@[self.id as int].attributes
                }),
            ),
            final(glfw).monitors.entries@ == old(glfw).monitors.entries@,
            final(glfw).cursors@ == old(glfw).cursors@,
            final(glfw).processing_events == old(glfw).processing_events,
            final(glfw).deferred@ == old(glfw).deferred@,
            final(glfw).monitor_callback == old(glfw).monitor_callback,
            final(glfw).joystick_callback == old(glfw).joystick_callback,
    {
        let rec = glfw.windows[self.id];
        let mut updated = rec;
        updated.attributes.focused = true;
        glfw.windows.set(self.id, updated);
    }
}

impl SharedWindow {
    /// Whether the user has requested that this window close.
    pub fn should_close(&self, glfw: &Glfw) -> (r: bool)
        requires
            glfw.window_ok(self.id as int),
        ensures
            r == glfw.windows@[self.id as int].should_close,
    {
        glfw.windows[self.id].should_close
    }

    /// Sets or clears this window's close request.  Nothing else about the
    /// window changes, so a handler mid-callback can rely on every other
    /// part of its state.
    pub fn set_should_close(&self, glfw: &mut Glfw, value: bool)
        requires
            old(glfw).wf(),
            old(glfw).window_ok(self.id as int),
        ensures
            final(glfw).wf(),
            final(glfw).windows@ == old(glfw).windows@.update(
                self.id as int,
                (WindowRecord { should_close: value, ..old(glfw).windows@[self.id as int] }),
            ),
            final(glfw).monitors.entries@ == old(glfw).monitors.entries@,
            final(glfw).cursors@ == old(glfw).cursors@,
            final(glfw).processing_events == old(glfw).processing_events,
            final(glfw).deferred@ == old(glfw).deferred@,
            final(glfw).monitor_callback == old(glfw).monitor_callback,
            final(glfw).joystick_callback == old(glfw).joystick_callback,
    {
        let rec = glfw.windows[self.id];
        glfw.windows.set(self.id, WindowRecord { should_close: value, ..rec });
    }
}

/// The attributes a freshly created window reports, given its hints.
pub fn attributes_from_hints(h: &WindowHints) -> (r: WindowAttributes)
    ensures
        r == WindowAttributes::spec_from_hints(*h),
{
    WindowAttributes {
        focused: h.focused,
        iconified: false,
        maximized: h.maximized,
        hovered: false,
        visible: h.visible,
        resizable: h.resizable,
        decorated: h.decorated,
        auto_iconify: h.auto_iconify,
        floating: h.floating,
        transparent_framebuffer: h.transparent_framebuffer,
        opengl_forward_compat: h.opengl_forward_compatible,
        opengl_debug_context: h.opengl_debug_context,
        client_api: h.client_api,
        context_creation_api: h.context_creation_api,
        context_robustness: h.context_robustness,
        opengl_profile: h.opengl_profile,
        context_version_major: h.context_version_major,
        context_version_minor: h.context_version_minor,
        context_revision: 0,
    }
}

} // verus!
