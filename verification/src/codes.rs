//! The native library's integer constants, as its C header defines them.
//!
//! Only the constants the verified core speaks about are listed: action
//! codes, modifier bits, device-event codes, error codes, and the hint,
//! attribute and input-mode identifiers.

use vstd::prelude::*;

verus! {

pub const GLFW_RELEASE: i32 = 0;

pub const GLFW_PRESS: i32 = 1;

pub const GLFW_REPEAT: i32 = 2;

pub const GLFW_KEY_UNKNOWN: i32 = -1;

pub const GLFW_MOD_SHIFT: i32 = 0x0001;

pub const GLFW_MOD_CONTROL: i32 = 0x0002;

pub const GLFW_MOD_ALT: i32 = 0x0004;

pub const GLFW_MOD_SUPER: i32 = 0x0008;

pub const GLFW_MOD_CAPS_LOCK: i32 = 0x0010;

pub const GLFW_MOD_NUM_LOCK: i32 = 0x0020;

pub const GLFW_NO_ERROR: i32 = 0;

pub const GLFW_NOT_INITIALIZED: i32 = 0x00010001;

pub const GLFW_NO_CURRENT_CONTEXT: i32 = 0x00010002;

pub const GLFW_INVALID_ENUM: i32 = 0x00010003;

pub const GLFW_INVALID_VALUE: i32 = 0x00010004;

pub const GLFW_OUT_OF_MEMORY: i32 = 0x00010005;

pub const GLFW_API_UNAVAILABLE: i32 = 0x00010006;

pub const GLFW_VERSION_UNAVAILABLE: i32 = 0x00010007;

pub const GLFW_PLATFORM_ERROR: i32 = 0x00010008;

pub const GLFW_FORMAT_UNAVAILABLE: i32 = 0x00010009;

pub const GLFW_NO_WINDOW_CONTEXT: i32 = 0x0001000A;

pub const GLFW_FOCUSED: i32 = 0x00020001;

pub const GLFW_ICONIFIED: i32 = 0x00020002;

pub const GLFW_RESIZABLE: i32 = 0x00020003;

pub const GLFW_VISIBLE: i32 = 0x00020004;

pub const GLFW_DECORATED: i32 = 0x00020005;

pub const GLFW_AUTO_ICONIFY: i32 = 0x00020006;

pub const GLFW_FLOATING: i32 = 0x00020007;

pub const GLFW_MAXIMIZED: i32 = 0x00020008;

pub const GLFW_CENTER_CURSOR: i32 = 0x00020009;

pub const GLFW_TRANSPARENT_FRAMEBUFFER: i32 = 0x0002000A;

pub const GLFW_HOVERED: i32 = 0x0002000B;

pub const GLFW_RED_BITS: i32 = 0x00021001;

pub const GLFW_GREEN_BITS: i32 = 0x00021002;

pub const GLFW_BLUE_BITS: i32 = 0x00021003;

pub const GLFW_ALPHA_BITS: i32 = 0x00021004;

pub const GLFW_DEPTH_BITS: i32 = 0x00021005;

pub const GLFW_STENCIL_BITS: i32 = 0x00021006;

pub const GLFW_ACCUM_RED_BITS: i32 = 0x00021007;

pub const GLFW_ACCUM_GREEN_BITS: i32 = 0x00021008;

pub const GLFW_ACCUM_BLUE_BITS: i32 = 0x00021009;

pub const GLFW_ACCUM_ALPHA_BITS: i32 = 0x0002100A;

pub const GLFW_AUX_BUFFERS: i32 = 0x0002100B;

pub const GLFW_STEREO: i32 = 0x0002100C;

pub const GLFW_SAMPLES: i32 = 0x0002100D;

pub const GLFW_SRGB_CAPABLE: i32 = 0x0002100E;

pub const GLFW_REFRESH_RATE: i32 = 0x0002100F;

pub const GLFW_DOUBLEBUFFER: i32 = 0x00021010;

pub const GLFW_CLIENT_API: i32 = 0x00022001;

pub const GLFW_CONTEXT_VERSION_MAJOR: i32 = 0x00022002;

pub const GLFW_CONTEXT_VERSION_MINOR: i32 = 0x00022003;

pub const GLFW_CONTEXT_REVISION: i32 = 0x00022004;

pub const GLFW_CONTEXT_ROBUSTNESS: i32 = 0x00022005;

pub const GLFW_OPENGL_FORWARD_COMPAT: i32 = 0x00022006;

pub const GLFW_OPENGL_DEBUG_CONTEXT: i32 = 0x00022007;

pub const GLFW_OPENGL_PROFILE: i32 = 0x00022008;

pub const GLFW_CONTEXT_RELEASE_BEHAVIOR: i32 = 0x00022009;

pub const GLFW_CONTEXT_NO_ERROR: i32 = 0x0002200A;

pub const GLFW_CONTEXT_CREATION_API: i32 = 0x0002200B;

pub const GLFW_COCOA_RETINA_FRAMEBUFFER: i32 = 0x00023001;

pub const GLFW_COCOA_FRAME_NAME: i32 = 0x00023002;

pub const GLFW_COCOA_GRAPHICS_SWITCHING: i32 = 0x00023003;

pub const GLFW_X11_CLASS_NAME: i32 = 0x00024001;

pub const GLFW_X11_INSTANCE_NAME: i32 = 0x00024002;

pub const GLFW_NO_API: i32 = 0;

pub const GLFW_OPENGL_API: i32 = 0x00030001;

pub const GLFW_OPENGL_ES_API: i32 = 0x00030002;

pub const GLFW_NO_ROBUSTNESS: i32 = 0;

pub const GLFW_NO_RESET_NOTIFICATION: i32 = 0x00031001;

pub const GLFW_LOSE_CONTEXT_ON_RESET: i32 = 0x00031002;

pub const GLFW_OPENGL_ANY_PROFILE: i32 = 0;

pub const GLFW_OPENGL_CORE_PROFILE: i32 = 0x00032001;

pub const GLFW_OPENGL_COMPAT_PROFILE: i32 = 0x00032002;

pub const GLFW_CURSOR: i32 = 0x00033001;

pub const GLFW_STICKY_KEYS: i32 = 0x00033002;

pub const GLFW_STICKY_MOUSE_BUTTONS: i32 = 0x00033003;

pub const GLFW_LOCK_KEY_MODS: i32 = 0x00033004;

pub const GLFW_RAW_MOUSE_MOTION: i32 = 0x00033005;

pub const GLFW_CURSOR_NORMAL: i32 = 0x00034001;

pub const GLFW_CURSOR_HIDDEN: i32 = 0x00034002;

pub const GLFW_CURSOR_DISABLED: i32 = 0x00034003;

pub const GLFW_ANY_RELEASE_BEHAVIOR: i32 = 0;

pub const GLFW_RELEASE_BEHAVIOR_FLUSH: i32 = 0x00035001;

pub const GLFW_RELEASE_BEHAVIOR_NONE: i32 = 0x00035002;

pub const GLFW_NATIVE_CONTEXT_API: i32 = 0x00036001;

pub const GLFW_EGL_CONTEXT_API: i32 = 0x00036002;

pub const GLFW_OSMESA_CONTEXT_API: i32 = 0x00036003;

pub const GLFW_ARROW_CURSOR: i32 = 0x00036001;

pub const GLFW_IBEAM_CURSOR: i32 = 0x00036002;

pub const GLFW_CROSSHAIR_CURSOR: i32 = 0x00036003;

pub const GLFW_HAND_CURSOR: i32 = 0x00036004;

pub const GLFW_HRESIZE_CURSOR: i32 = 0x00036005;

pub const GLFW_VRESIZE_CURSOR: i32 = 0x00036006;

pub const GLFW_CONNECTED: i32 = 0x00040001;

pub const GLFW_DISCONNECTED: i32 = 0x00040002;

pub const GLFW_JOYSTICK_HAT_BUTTONS: i32 = 0x00050001;

pub const GLFW_COCOA_CHDIR_RESOURCES: i32 = 0x00051001;

pub const GLFW_COCOA_MENUBAR: i32 = 0x00051002;

pub const GLFW_DONT_CARE: i32 = -1;

} // verus!
