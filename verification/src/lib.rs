//! A verified model of the callback-dispatch and lifetime-safety core of a
//! GLFW-style windowing wrapper.
//!
//! The native windowing library is an external collaborator: it creates
//! windows, monitors and cursors, pumps events, and invokes one registered
//! trampoline per event category.  Everything the native side does is driven
//! by an unverified runner that performs the raw calls; this crate holds the
//! state and the decisions:
//!
//! * which monitor handles are still live ([`monitor::MonitorRegistry`]),
//! * which destructive operations must be deferred while event processing is
//!   under way (the reentrance-avoidance queue owned by [`Glfw`]),
//! * how raw native event payloads turn into typed events
//!   ([`events`]),
//! * which user handler, if any, receives each event
//!   ([`callbacks::CallbackSlots`]),
//! * and the process-wide initialization state machine ([`init`]).
//!
//! Native handles are carried as plain addresses ([`GLFWwindow`],
//! [`GLFWmonitor`], [`GLFWcursor`]); the runner converts them from and to the
//! raw pointers of the native library.

use vstd::prelude::*;

pub mod callbacks;
pub mod codes;
pub mod enums;
pub mod events;
pub mod misc;
pub mod monitor;
pub mod util;
pub mod window;

use crate::enums::ErrorKind;
use crate::enums::InitHints;
use crate::misc::spec_cursor_destroyed;
use crate::misc::CursorRecord;
use crate::monitor::invalidate_all_monitors;
use crate::monitor::spec_all_invalidated;
use crate::monitor::MonitorRegistry;
use crate::window::spec_window_destroyed;
use crate::window::spec_window_hidden;
use crate::window::WindowRecord;

verus! {

/// Address of the native library's opaque window object.
#[derive(Clone, Copy, PartialEq, Eq, Structural, Debug)]
pub struct GLFWwindow {
    pub addr: u64,
}

/// Address of the native library's opaque monitor object.
#[derive(Clone, Copy, PartialEq, Eq, Structural, Debug)]
pub struct GLFWmonitor {
    pub addr: u64,
}

/// Address of the native library's opaque cursor object.
#[derive(Clone, Copy, PartialEq, Eq, Structural, Debug)]
pub struct GLFWcursor {
    pub addr: u64,
}

/// A recoverable error reported by the native library through its
/// "check after call" error channel.
#[derive(Clone, PartialEq, Eq, Debug)]
pub struct Error {
    pub kind: ErrorKind,
    pub description: String,
}

/// Outcome of [`init`].
#[derive(Debug)]
pub enum InitError {
    /// A session already exists; the caller gets this distinct signal
    /// rather than a generic error.
    AlreadyInitialized,
    /// The native library failed to initialize; carries the error it
    /// reported.
    Failed(Error),
}

/// The process-wide initialization flag.
///
/// The native library's state is global, so at most one [`Glfw`] session may
/// exist at a time.  The runner owns exactly one value of this type for the
/// whole process and threads it through [`init`] and [`Glfw::terminate`].
pub struct InitFlag {
    pub initialized: bool,
}

impl InitFlag {
    /// A flag for a process in which the library has never been initialized.
    pub fn new() -> (r: InitFlag)
        ensures
            !r.initialized,
    {
        InitFlag { initialized: false }
    }
}

/// Classifies a code read from the native error channel.
///
/// Returns the recoverable error kind for the codes the library documents as
/// recoverable, and `None` for the no-error code and for the codes that can
/// only indicate a wrapper-internal bug.
pub fn classify_error_code(code: i32) -> (r: Option<ErrorKind>)
    ensures
        r == ErrorKind::spec_from_code(code),
{
    ErrorKind::from_code(code)
}

/// Decides whether a code delivered to the global error callback is fatal.
///
/// The error-retrieval convention promises that only recognized recoverable
/// codes are deliverable; anything else indicates a violated invariant and
/// the runner must abort rather than continue past it.
pub fn error_code_is_fatal(code: i32) -> (r: bool)
    ensures
        r == (ErrorKind::spec_from_code(code) is None),
{
    let k = ErrorKind::from_code(code);
    k.is_none()
}

/// Interprets one read of the native error channel: a recognized code turns
/// into a typed error carrying the description, the no-error code means
/// success.
///
/// An unrecognized nonzero code is a fatal internal-consistency violation;
/// the caller must test with [`error_code_is_fatal`] first, so it is ruled
/// out here.
pub fn interpret_error(code: i32, description: String) -> (r: Result<(), Error>)
    requires
        code == 0 || ErrorKind::spec_from_code(code) is Some,
    ensures
        match ErrorKind::spec_from_code(code) {
            Some(k) => r matches Err(e) && e.kind == k && e.description == description,
            None => r is Ok,
        },
{
    match ErrorKind::from_code(code) {
        Some(k) => Err(Error { kind: k, description }),
        None => Ok(()),
    }
}

/// A deferred destructive operation, queued while event processing is under
/// way and performed once it completes.
#[derive(Clone, Copy, PartialEq, Eq, Structural, Debug)]
pub enum ReentranceAvoidanceCommand {
    /// Destroy the window with this index in [`Glfw::windows`].
    DestroyWindow(usize),
    /// Destroy the cursor with this index in [`Glfw::cursors`].
    DestroyCursor(usize),
}

/// A raw call the unverified runner must perform against the native library,
/// in the order the library hands them out.
#[derive(Clone, Copy, PartialEq, Eq, Structural, Debug)]
pub enum NativeAction {
    HideWindow(GLFWwindow),
    DestroyWindow(GLFWwindow),
    DestroyCursor(GLFWcursor),
}

/// The parts of the session usable from any thread.
///
/// The native library allows a handful of calls (posting an empty
/// event, timer queries) from threads other than the session's; they carry
/// no model state, so this type carries none either.
pub struct SharedGlfw {
    /// Marks that a session exists; the type's value is the access it
    /// grants, not its data.
    pub present: bool,
}

/// Represents ownership of the library: the single session object.
///
/// Owns all state the trampolines and the resource lifecycle read: the
/// monitor liveness registry, the window and cursor tables, the processing
/// flag and the reentrance-avoidance queue, and the two global callback
/// slots.  All of it is confined to the thread that created the session.
pub struct Glfw {
    pub shared: SharedGlfw,
    pub monitors: MonitorRegistry,
    pub windows: Vec<WindowRecord>,
    pub cursors: Vec<CursorRecord>,
    /// True exactly while a native trampoline is executing.
    pub processing_events: bool,
    /// Destructive operations postponed until event processing completes,
    /// drained in FIFO order.
    pub deferred: Vec<ReentranceAvoidanceCommand>,
    /// Handler for monitor connection events (the native library allows a
    /// single global callback there).
    pub monitor_callback: Option<u64>,
    /// Handler for joystick connection events.
    pub joystick_callback: Option<u64>,
}

impl Glfw {
    /// Every queued command names an existing table entry.
    pub open spec fn deferred_wf(self) -> bool {
        spec_cmds_in_range(
            self.deferred@,
            self.windows@.len() as int,
            self.cursors@.len() as int,
        )
    }

    /// Well-formedness of the whole session state.
    pub open spec fn wf(self) -> bool {
        self.deferred_wf()
    }

    /// Gets the part of the session that other threads may use.
    pub fn shared(&self) -> (r: &SharedGlfw)
        ensures
            r == self.shared,
    {
        &self.shared
    }
}

/// Initializes the library.
///
/// The runner performs the native initialization call and reports its
/// outcome through `native`; this function owns the decision.  While a
/// session exists every call reports [`InitError::AlreadyInitialized`] and
/// changes nothing.  Otherwise the first call takes the flag; on native
/// failure the flag is rolled back and the reported error is returned.
pub fn init(init_hints: InitHints, flag: &mut InitFlag, native: Result<(), Error>) -> (r: Result<
    Glfw,
    InitError,
>)
    ensures
        old(flag).initialized ==> {
            &&& r matches Err(e)
            &&& e is AlreadyInitialized
            &&& final(flag).initialized
        },
        !old(flag).initialized ==> match native {
            Ok(_) => {
                &&& r matches Ok(g)
                &&& g.fresh()
                &&& final(flag).initialized
            },
            Err(e) => {
                &&& r matches Err(ie)
                &&& ie == InitError::Failed(e)
                &&& !final(flag).initialized
            },
        },
{
    if flag.initialized {
        Err(InitError::AlreadyInitialized)
    } else {
        flag.initialized = true;
        match native {
            Ok(()) => Ok(Glfw::new_session()),
            Err(e) => {
                flag.initialized = false;
                Err(InitError::Failed(e))
            },
        }
    }
}

impl Glfw {
    /// The state of a session that has just been created: empty tables, no
    /// handlers, not inside event processing.
    pub open spec fn fresh(self) -> bool {
        &&& self.monitors.entries@.len() == 0
        &&& self.windows@.len() == 0
        &&& self.cursors@.len() == 0
        &&& !self.processing_events
        &&& self.deferred@.len() == 0
        &&& self.monitor_callback is None
        &&& self.joystick_callback is None
    }

    fn new_session() -> (r: Glfw)
        ensures
            r.fresh(),
    {
        let r = Glfw {
            shared: SharedGlfw { present: true },
            monitors: MonitorRegistry { entries: Vec::new() },
            windows: Vec::new(),
            cursors: Vec::new(),
            processing_events: false,
            deferred: Vec::new(),
            monitor_callback: None,
            joystick_callback: None,
        };
        r
    }
}

/// The window table after one deferred command is performed: a deferred
/// window destruction kills its record, a cursor command leaves windows
/// alone.
pub open spec fn spec_step_windows(
    ws: Seq<WindowRecord>,
    cmd: ReentranceAvoidanceCommand,
) -> Seq<WindowRecord> {
    match cmd {
        ReentranceAvoidanceCommand::DestroyWindow(i) => spec_window_destroyed(ws, i as int),
        ReentranceAvoidanceCommand::DestroyCursor(_) => ws,
    }
}

/// The cursor table after one deferred command is performed.
pub open spec fn spec_step_cursors(
    cs: Seq<CursorRecord>,
    cmd: ReentranceAvoidanceCommand,
) -> Seq<CursorRecord> {
    match cmd {
        ReentranceAvoidanceCommand::DestroyWindow(_) => cs,
        ReentranceAvoidanceCommand::DestroyCursor(i) => spec_cursor_destroyed(cs, i as int),
    }
}

/// The window table after a queue of deferred commands is drained in FIFO
/// order.
pub open spec fn spec_drained_windows(
    ws: Seq<WindowRecord>,
    cmds: Seq<ReentranceAvoidanceCommand>,
) -> Seq<WindowRecord>
    decreases cmds.len(),
{
    if cmds.len() == 0 {
        ws
    } else {
        spec_step_windows(spec_drained_windows(ws, cmds.drop_last()), cmds.last())
    }
}

/// The cursor table after a queue of deferred commands is drained in FIFO
/// order.
pub open spec fn spec_drained_cursors(
    cs: Seq<CursorRecord>,
    cmds: Seq<ReentranceAvoidanceCommand>,
) -> Seq<CursorRecord>
    decreases cmds.len(),
{
    if cmds.len() == 0 {
        cs
    } else {
        spec_step_cursors(spec_drained_cursors(cs, cmds.drop_last()), cmds.last())
    }
}

/// Every window index a command queue names is within the table.
pub open spec fn spec_cmds_in_range(
    cmds: Seq<ReentranceAvoidanceCommand>,
    windows_len: int,
    cursors_len: int,
) -> bool {
    forall|k: int|
        0 <= k < cmds.len() ==> match #[trigger] cmds[k] {
            ReentranceAvoidanceCommand::DestroyWindow(w) => w < windows_len,
            ReentranceAvoidanceCommand::DestroyCursor(c) => c < cursors_len,
        }
}

/// Queueing one more command whose index is within its table keeps the
/// whole queue within the tables.
pub proof fn lemma_cmds_in_range_push(
    cmds: Seq<ReentranceAvoidanceCommand>,
    cmd: ReentranceAvoidanceCommand,
    windows_len: int,
    cursors_len: int,
)
    requires
        spec_cmds_in_range(cmds, windows_len, cursors_len),
        match cmd {
            ReentranceAvoidanceCommand::DestroyWindow(w) => w < windows_len,
            ReentranceAvoidanceCommand::DestroyCursor(c) => c < cursors_len,
        },
    ensures
        spec_cmds_in_range(cmds.push(cmd), windows_len, cursors_len),
{
    assert forall|k: int| 0 <= k < cmds.push(cmd).len() implies match #[trigger] cmds.push(cmd)[k] {
        ReentranceAvoidanceCommand::DestroyWindow(w) => w < windows_len,
        ReentranceAvoidanceCommand::DestroyCursor(c) => c < cursors_len,
    } by {
        if k < cmds.len() {
            assert(cmds.push(cmd)[k] == cmds[k]);
        } else {
            assert(cmds.push(cmd)[k] == cmd);
        }
    }
}

/// Every window index a command queue names is within the window table;
/// cursor commands are not constrained.
pub open spec fn spec_window_cmds_in_range(
    cmds: Seq<ReentranceAvoidanceCommand>,
    windows_len: int,
) -> bool {
    forall|k: int|
        0 <= k < cmds.len() ==> match #[trigger] cmds[k] {
            ReentranceAvoidanceCommand::DestroyWindow(w) => w < windows_len,
            ReentranceAvoidanceCommand::DestroyCursor(_) => true,
        }
}

/// Draining never grows or shrinks the window table, and never changes a
/// record's native handle.
pub proof fn lemma_drained_windows_shape(
    ws: Seq<WindowRecord>,
    cmds: Seq<ReentranceAvoidanceCommand>,
)
    requires
        spec_window_cmds_in_range(cmds, ws.len() as int),
    ensures
        spec_drained_windows(ws, cmds).len() == ws.len(),
        forall|i: int|
            0 <= i < ws.len() ==> spec_drained_windows(ws, cmds)[i].handle == ws[i].handle,
    decreases cmds.len(),
{
    if cmds.len() > 0 {
        assert(spec_window_cmds_in_range(cmds.drop_last(), ws.len() as int)) by {
            assert(forall|k: int|
                0 <= k < cmds.drop_last().len() ==> cmds.drop_last()[k] == cmds[k]);
        }
        lemma_drained_windows_shape(ws, cmds.drop_last());
    }
}

/// The raw call the runner performs for one deferred command.
pub open spec fn spec_cmd_action(
    ws: Seq<WindowRecord>,
    cs: Seq<CursorRecord>,
    cmd: ReentranceAvoidanceCommand,
) -> NativeAction {
    match cmd {
        ReentranceAvoidanceCommand::DestroyWindow(i) => NativeAction::DestroyWindow(
            ws[i as int].handle,
        ),
        ReentranceAvoidanceCommand::DestroyCursor(i) => NativeAction::DestroyCursor(
            cs[i as int].handle,
        ),
    }
}

impl Glfw {
    /// Drains the deferred-operation queue in FIFO order, performing the
    /// real destruction for each entry, and returns the raw calls the
    /// runner must make, in that order.  This runs immediately before and
    /// after every event-pump call and once at session teardown.
    pub fn process_reentrance_avoidance(&mut self) -> (acts: Vec<NativeAction>)
        requires
            old(self).wf(),
        ensures
            final(self).wf(),
            final(self).deferred@.len() == 0,
            final(self).windows@ == spec_drained_windows(old(self).windows@, old(self).deferred@),
            final(self).cursors@ == spec_drained_cursors(old(self).cursors@, old(self).deferred@),
            final(self).monitors.entries@ == old(self).monitors.entries@,
            final(self).processing_events == old(self).processing_events,
            final(self).monitor_callback == old(self).monitor_callback,
            final(self).joystick_callback == old(self).joystick_callback,
            acts@.len() == old(self).deferred@.len(),
            forall|k: int|
                0 <= k < acts@.len() ==> acts@[k] == spec_cmd_action(
                    old(self).windows@,
                    old(self).cursors@,
                    old(self).deferred@[k],
                ),
    {
        let ghost ws0 = self.windows@;
        let ghost cs0 = self.cursors@;
        let ghost q0 = self.deferred@;
        let mut acts: Vec<NativeAction> = Vec::new();
        let n = self.deferred.len();
        let mut k: usize = 0;
        while k < n
            invariant
                k <= n,
                n == q0.len(),
                self.deferred@ == q0,
                spec_cmds_in_range(q0, ws0.len() as int, cs0.len() as int),
                self.windows@ == spec_drained_windows(ws0, q0.take(k as int)),
                self.cursors@ == spec_drained_cursors(cs0, q0.take(k as int)),
                self.windows@.len() == ws0.len(),
                self.cursors@.len() == cs0.len(),
                forall|i: int| 0 <= i < ws0.len() ==> self.windows@[i].handle == ws0[i].handle,
                forall|i: int| 0 <= i < cs0.len() ==> self.cursors@[i].handle == cs0[i].handle,
                acts@.len() == k,
                forall|t: int|
                    0 <= t < k ==> acts@[t] == spec_cmd_action(ws0, cs0, q0[t]),
                self.monitors.entries@ == old(self).monitors.entries@,
                self.processing_events == old(self).processing_events,
                self.monitor_callback == old(self).monitor_callback,
                self.joystick_callback == old(self).joystick_callback,
            decreases n - k,
        {
            proof {
                assert(q0.take(k + 1 as int).drop_last() =~= q0.take(k as int));
                assert(q0.take(k + 1 as int).last() == q0[k as int]);
            }
            let cmd = self.deferred[k];
            match cmd {
                ReentranceAvoidanceCommand::DestroyWindow(i) => {
                    let rec = self.windows[i];
                    acts.push(NativeAction::DestroyWindow(rec.handle));
                    self.windows.set(i, WindowRecord { alive: false, ..rec });
                },
                ReentranceAvoidanceCommand::DestroyCursor(i) => {
                    let rec = self.cursors[i];
                    acts.push(NativeAction::DestroyCursor(rec.handle));
                    self.cursors.set(i, CursorRecord { alive: false, ..rec });
                },
            }
            k = k + 1;
        }
        self.deferred.clear();
        proof {
            assert(q0.take(n as int) =~= q0);
        }
        acts
    }
}

/// The one failure an event-pump entry point can report: it was entered
/// from inside event processing, which the native library does not support.
#[derive(Clone, Copy, PartialEq, Eq, Structural, Debug)]
pub enum PumpError {
    Reentrant,
}

impl Glfw {
    /// Begins one event-pump call (poll, wait, or wait-with-timeout): the
    /// runner calls this, performs the returned raw calls, makes the native
    /// pump call, and drains again with
    /// [`Glfw::process_reentrance_avoidance`].
    ///
    /// Entering a pump from inside event processing fails fast, changing
    /// nothing: the native library does not support nested pumping, and
    /// the runner must treat the error as fatal.  Draining before the pump
    /// ever blocks keeps a wait-style pump from blocking on windows that
    /// were destroyed between pumps.
    pub fn pump_events_begin(&mut self) -> (r: Result<Vec<NativeAction>, PumpError>)
        requires
            old(self).wf(),
        ensures
            final(self).wf(),
            (r is Err) == old(self).processing_events,
            r is Err ==> {
                &&& r matches Err(e) && e == PumpError::Reentrant
                &&& final(self).windows@ == old(self).windows@
                &&& final(self).cursors@ == old(self).cursors@
                &&& final(self).deferred@ == old(self).deferred@
                &&& final(self).monitors.entries@ == old(self).monitors.entries@
                &&& final(self).processing_events == old(self).processing_events
                &&& final(self).monitor_callback == old(self).monitor_callback
                &&& final(self).joystick_callback == old(self).joystick_callback
            },
            r matches Ok(acts) ==> {
                &&& final(self).deferred@.len() == 0
                &&& final(self).windows@ == spec_drained_windows(
                    old(self).windows@,
                    old(self).deferred@,
                )
                &&& final(self).cursors@ == spec_drained_cursors(
                    old(self).cursors@,
                    old(self).deferred@,
                )
                &&& final(self).monitors.entries@ == old(self).monitors.entries@
                &&& final(self).processing_events == old(self).processing_events
                &&& final(self).monitor_callback == old(self).monitor_callback
                &&& final(self).joystick_callback == old(self).joystick_callback
                &&& acts@.len() == old(self).deferred@.len()
                &&& forall|k: int|
                    0 <= k < acts@.len() ==> acts@[k] == spec_cmd_action(
                        old(self).windows@,
                        old(self).cursors@,
                        old(self).deferred@[k],
                    )
            },
    {
        if self.processing_events {
            Err(PumpError::Reentrant)
        } else {
            Ok(self.process_reentrance_avoidance())
        }
    }

    /// Tears the session down: drains the deferred operations, invalidates
    /// every monitor handle, and releases the process-wide flag, in that
    /// order — the native teardown call the runner makes afterwards renders
    /// both deferred handles and monitor addresses meaningless.  After this
    /// a new [`init`] may succeed again.
    pub fn terminate(&mut self, flag: &mut InitFlag) -> (acts: Vec<NativeAction>)
        requires
            old(self).wf(),
        ensures
            final(self).wf(),
            final(self).deferred@.len() == 0,
            final(self).windows@ == spec_drained_windows(old(self).windows@, old(self).deferred@),
            final(self).cursors@ == spec_drained_cursors(old(self).cursors@, old(self).deferred@),
            final(self).monitors.entries@ == spec_all_invalidated(old(self).monitors.entries@),
            !final(flag).initialized,
            acts@.len() == old(self).deferred@.len(),
            forall|k: int|
                0 <= k < acts@.len() ==> acts@[k] == spec_cmd_action(
                    old(self).windows@,
                    old(self).cursors@,
                    old(self).deferred@[k],
                ),
    {
        let acts = self.process_reentrance_avoidance();
        invalidate_all_monitors(&mut self.monitors);
        flag.initialized = false;
        acts
    }
}

/// Law: deferred destruction is visually inert but eventually real.  When a
/// window's destruction is deferred, the only observable change is that it
/// is hidden at once — it stays alive, and its handle, close flag, input
/// modes and handlers are untouched, as is every other window — and once
/// the queue holding the deferral is drained, at the latest when the
/// enclosing pump call returns, the window is really destroyed.
pub proof fn lemma_deferred_destruction_inert_then_real(
    ws: Seq<WindowRecord>,
    cmds: Seq<ReentranceAvoidanceCommand>,
    i: usize,
)
    requires
        i < ws.len(),
        spec_window_cmds_in_range(cmds, ws.len() as int),
    ensures
        spec_window_hidden(ws, i as int)[i as int].alive == ws[i as int].alive,
        !spec_window_hidden(ws, i as int)[i as int].attributes.visible,
        spec_window_hidden(ws, i as int)[i as int].handle == ws[i as int].handle,
        spec_window_hidden(ws, i as int)[i as int].should_close == ws[i as int].should_close,
        spec_window_hidden(ws, i as int)[i as int].input_modes == ws[i as int].input_modes,
        spec_window_hidden(ws, i as int)[i as int].callbacks == ws[i as int].callbacks,
        !spec_drained_windows(
            spec_window_hidden(ws, i as int),
            cmds.push(ReentranceAvoidanceCommand::DestroyWindow(i)),
        )[i as int].alive,
{
    let hidden = spec_window_hidden(ws, i as int);
    let q = cmds.push(ReentranceAvoidanceCommand::DestroyWindow(i));
    assert(q.drop_last() =~= cmds);
    assert(q.last() == ReentranceAvoidanceCommand::DestroyWindow(i));
    assert(spec_window_cmds_in_range(cmds, hidden.len() as int));
    lemma_drained_windows_shape(hidden, cmds);
    assert(spec_drained_windows(hidden, q) == spec_step_windows(
        spec_drained_windows(hidden, cmds),
        ReentranceAvoidanceCommand::DestroyWindow(i),
    ));
}

/// Law: no use-after-free across reentrancy.  Destroying one window —
/// deferred or immediate — leaves every other window's record exactly as it
/// was: a handler executing for a different window keeps a live, unchanged
/// window for the whole call.
pub proof fn lemma_destroy_other_window_preserves(ws: Seq<WindowRecord>, i: int, j: int)
    requires
        0 <= i < ws.len(),
        0 <= j < ws.len(),
        i != j,
    ensures
        spec_window_hidden(ws, j)[i] == ws[i],
        spec_window_destroyed(ws, j)[i] == ws[i],
{
}

} // verus!
