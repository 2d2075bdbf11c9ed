//! The native-handle registry for monitors.
//!
//! The native library invalidates monitor handles asynchronously on
//! disconnect and offers no owning reference type, so every [`Monitor`]
//! value is a slot in a session-owned registry.  A slot records the native
//! address and whether it is still live; disconnect notifications and
//! session teardown flip slots to invalid, and every [`Monitor`] sharing a
//! slot observes that at once.  Slots are never re-matched by address once
//! invalid, so a reused address after disconnect and reconnect can never
//! revive an old handle.

use vstd::prelude::*;

use crate::GLFWmonitor;

verus! {

/// One registry slot: a native monitor address and its liveness.
#[derive(Clone, Copy, PartialEq, Eq, Structural, Debug)]
pub struct MonitorEntry {
    pub ptr: GLFWmonitor,
    pub valid: bool,
}

/// The session-owned list of every monitor handle ever created, live or
/// not.  Slots are only appended and flipped to invalid, never removed, so
/// a [`Monitor`]'s slot index stays meaningful for the whole session.
pub struct MonitorRegistry {
    pub entries: Vec<MonitorEntry>,
}

impl MonitorRegistry {
    /// An empty registry, as a fresh session owns it.
    pub fn new() -> (r: MonitorRegistry)
        ensures
            r.entries@.len() == 0,
    {
        MonitorRegistry { entries: Vec::new() }
    }
}

/// The registry after a disconnect notification for `ptr`: every slot that
/// is still valid and holds that address becomes invalid; every other slot
/// is untouched.  Invalid slots are never matched by address, so a later
/// reuse of the same address cannot be confused with the old monitor.
pub open spec fn spec_invalidated(entries: Seq<MonitorEntry>, ptr: GLFWmonitor) -> Seq<
    MonitorEntry,
> {
    Seq::new(
        entries.len(),
        |i: int|
            MonitorEntry { ptr: entries[i].ptr, valid: entries[i].valid && entries[i].ptr != ptr },
    )
}

/// The registry after session teardown: every slot is invalid,
/// unconditionally.
pub open spec fn spec_all_invalidated(entries: Seq<MonitorEntry>) -> Seq<MonitorEntry> {
    Seq::new(entries.len(), |i: int| MonitorEntry { ptr: entries[i].ptr, valid: false })
}

/// Reacts to a native disconnect notification: marks every still-valid slot
/// holding `ptr` invalid, so all [`Monitor`] values for that native monitor
/// observe the disconnection simultaneously.
pub fn invalidate_monitor(registry: &mut MonitorRegistry, ptr: GLFWmonitor)
    ensures
        final(registry).entries@ == spec_invalidated(old(registry).entries@, ptr),
{
    let ghost orig = registry.entries@;
    let n = registry.entries.len();
    let mut i: usize = 0;
    while i < n
        invariant
            i <= n,
            n == orig.len(),
            registry.entries@.len() == orig.len(),
            forall|j: int| 0 <= j < i ==> registry.entries@[j] == spec_invalidated(orig, ptr)[j],
            forall|j: int| i <= j < orig.len() ==> registry.entries@[j] == orig[j],
        decreases n - i,
    {
        let e = registry.entries[i];
        if e.valid && e.ptr == ptr {
            registry.entries.set(i, MonitorEntry { ptr: e.ptr, valid: false });
        }
        i = i + 1;
    }
    proof {
        assert(registry.entries@ =~= spec_invalidated(orig, ptr));
    }
}

/// Reacts to session teardown: marks every slot invalid, whatever address
/// it holds.  This runs before the native teardown call, after which
/// address comparisons would be meaningless.
pub fn invalidate_all_monitors(registry: &mut MonitorRegistry)
    ensures
        final(registry).entries@ == spec_all_invalidated(old(registry).entries@),
{
    let ghost orig = registry.entries@;
    let n = registry.entries.len();
    let mut i: usize = 0;
    while i < n
        invariant
            i <= n,
            n == orig.len(),
            registry.entries@.len() == orig.len(),
            forall|j: int| 0 <= j < i ==> registry.entries@[j] == spec_all_invalidated(orig)[j],
            forall|j: int| i <= j < orig.len() ==> registry.entries@[j] == orig[j],
        decreases n - i,
    {
        let e = registry.entries[i];
        if e.valid {
            registry.entries.set(i, MonitorEntry { ptr: e.ptr, valid: false });
        }
        i = i + 1;
    }
    proof {
        assert(registry.entries@ =~= spec_all_invalidated(orig));
    }
}

/// Law: monitor invalidation is global and idempotent.  One disconnect
/// notification marks every slot holding that address invalid at once;
/// repeating it, or sweeping with the teardown invalidation, changes
/// nothing about slots that are already invalid.
pub proof fn lemma_monitor_invalidation_global_and_idempotent(
    entries: Seq<MonitorEntry>,
    ptr: GLFWmonitor,
)
    ensures
        forall|i: int|
            0 <= i < entries.len() && entries[i].ptr == ptr ==> !spec_invalidated(entries, ptr)[i].valid,
        spec_invalidated(spec_invalidated(entries, ptr), ptr) == spec_invalidated(entries, ptr),
        spec_all_invalidated(spec_all_invalidated(entries)) == spec_all_invalidated(entries),
        spec_all_invalidated(spec_invalidated(entries, ptr)) == spec_all_invalidated(entries),
        forall|i: int|
            0 <= i < entries.len() && !entries[i].valid ==> !spec_invalidated(entries, ptr)[i].valid,
{
    assert(spec_invalidated(spec_invalidated(entries, ptr), ptr) =~= spec_invalidated(
        entries,
        ptr,
    ));
    assert(spec_all_invalidated(spec_all_invalidated(entries)) =~= spec_all_invalidated(entries));
    assert(spec_all_invalidated(spec_invalidated(entries, ptr)) =~= spec_all_invalidated(entries));
}

/// A shared, weakly-invalidatable handle to a native monitor: a slot index
/// into the session's [`MonitorRegistry`].  Copies share the slot, so all
/// of them observe invalidation together.
#[derive(Clone, Copy, PartialEq, Eq, Structural, Debug)]
pub struct Monitor {
    pub slot: usize,
}

impl Monitor {
    /// The handle names a slot of this registry.  Slots are never removed,
    /// so this holds from creation for the rest of the session.
    pub open spec fn registered(self, registry: MonitorRegistry) -> bool {
        self.slot < registry.entries@.len()
    }

    /// The handle's slot is still live.
    pub open spec fn spec_valid(self, registry: MonitorRegistry) -> bool {
        registry.entries@[self.slot as int].valid
    }

    /// The native address the handle's slot holds.
    pub open spec fn spec_ptr(self, registry: MonitorRegistry) -> GLFWmonitor {
        registry.entries@[self.slot as int].ptr
    }

    /// Wraps a native monitor address the native library just handed out:
    /// appends a live slot and returns the handle naming it.  No existing
    /// slot is touched.
    pub fn create_from(registry: &mut MonitorRegistry, ptr: GLFWmonitor) -> (m: Monitor)
        ensures
            final(registry).entries@ == old(registry).entries@.push(
                (MonitorEntry { ptr: ptr, valid: true }),
            ),
            m.slot == old(registry).entries@.len(),
            m.registered(*final(registry)),
            m.spec_valid(*final(registry)),
            m.spec_ptr(*final(registry)) == ptr,
    {
        let slot = registry.entries.len();
        registry.entries.push(MonitorEntry { ptr: ptr, valid: true });
        Monitor { slot }
    }

    /// The native address behind this handle.  Dereferencing a disconnected
    /// monitor is a usage error the caller must rule out by checking
    /// [`Monitor::is_valid`] first.
    pub fn get_ptr(&self, registry: &MonitorRegistry) -> (r: GLFWmonitor)
        requires
            self.registered(*registry),
            self.spec_valid(*registry),
        ensures
            r == self.spec_ptr(*registry),
    {
        registry.entries[self.slot].ptr
    }

    /// Whether the native monitor behind this handle is still connected,
    /// as far as the session has been notified.
    pub fn is_valid(&self, registry: &MonitorRegistry) -> (r: bool)
        requires
            self.registered(*registry),
        ensures
            r == self.spec_valid(*registry),
    {
        registry.entries[self.slot].valid
    }

    /// Whether two handles refer to the same, still-connected native
    /// monitor.  An invalid handle compares the same as nothing.
    pub fn is_same_as(&self, other: &Monitor, registry: &MonitorRegistry) -> (r: bool)
        requires
            self.registered(*registry),
            other.registered(*registry),
        ensures
            r == (self.spec_valid(*registry) && other.spec_valid(*registry) && self.spec_ptr(
                *registry,
            ) == other.spec_ptr(*registry)),
    {
        let a = registry.entries[self.slot];
        let b = registry.entries[other.slot];
        a.valid && b.valid && a.ptr == b.ptr
    }
}

/// A single-use, non-owning reference handed only to a disconnect handler;
/// it carries just the identity needed to query the defunct monitor's name
/// for the duration of that call.
#[derive(Clone, Copy, PartialEq, Eq, Structural, Debug)]
pub struct DisconnectedMonitor {
    pub ptr: GLFWmonitor,
}

/// A gamma ramp: one `(red, green, blue)` triple per ramp element.
#[derive(Clone, PartialEq, Eq, Debug)]
pub struct GammaRamp(pub Vec<(u16, u16, u16)>);

impl GammaRamp {
    /// Splits the ramp into the three parallel channel arrays the native
    /// call takes.
    pub fn to_channels(&self) -> (r: (Vec<u16>, Vec<u16>, Vec<u16>))
        ensures
            r.0@.len() == self.0@.len(),
            r.1@.len() == self.0@.len(),
            r.2@.len() == self.0@.len(),
            forall|i: int|
                0 <= i < self.0@.len() ==> r.0@[i] == self.0@[i].0 && r.1@[i] == self.0@[i].1
                    && r.2@[i] == self.0@[i].2,
    {
        let mut red: Vec<u16> = Vec::new();
        let mut green: Vec<u16> = Vec::new();
        let mut blue: Vec<u16> = Vec::new();
        let n = self.0.len();
        let mut i: usize = 0;
        while i < n
            invariant
                i <= n,
                n == self.0@.len(),
                red@.len() == i,
                green@.len() == i,
                blue@.len() == i,
                forall|j: int|
                    0 <= j < i ==> red@[j] == self.0@[j].0 && green@[j] == self.0@[j].1
                        && blue@[j] == self.0@[j].2,
            decreases n - i,
        {
            let t = self.0[i];
            red.push(t.0);
            green.push(t.1);
            blue.push(t.2);
            i = i + 1;
        }
        (red, green, blue)
    }

    /// Builds a ramp from the three parallel channel arrays the native
    /// query returns.
    pub fn from_channels(red: &Vec<u16>, green: &Vec<u16>, blue: &Vec<u16>) -> (r: GammaRamp)
        requires
            red@.len() == green@.len(),
            red@.len() == blue@.len(),
        ensures
            r.0@.len() == red@.len(),
            forall|i: int|
                0 <= i < red@.len() ==> r.0@[i] == (red@[i], green@[i], blue@[i]),
    {
        let mut out: Vec<(u16, u16, u16)> = Vec::new();
        let n = red.len();
        let mut i: usize = 0;
        while i < n
            invariant
                i <= n,
                n == red@.len(),
                red@.len() == green@.len(),
                red@.len() == blue@.len(),
                out@.len() == i,
                forall|j: int| 0 <= j < i ==> out@[j] == (red@[j], green@[j], blue@[j]),
            decreases n - i,
        {
            out.push((red[i], green[i], blue[i]));
            i = i + 1;
        }
        GammaRamp(out)
    }
}

} // verus!
