use glfw_wrapper::monitor::{invalidate_all_monitors, invalidate_monitor, Monitor, MonitorRegistry};
use glfw_wrapper::GLFWmonitor;

#[test]
fn invalidation_marks_every_handle_sharing_the_pointer() {
    let mut registry = MonitorRegistry::new();
    let ptr = GLFWmonitor { addr: 0x1000 };
    let other = GLFWmonitor { addr: 0x2000 };
    let a = Monitor::create_from(&mut registry, ptr);
    let b = Monitor::create_from(&mut registry, ptr);
    let c = Monitor::create_from(&mut registry, other);
    assert!(a.is_valid(&registry));
    assert!(b.is_valid(&registry));
    assert!(c.is_valid(&registry));
    assert!(a.is_same_as(&b, &registry));

    invalidate_monitor(&mut registry, ptr);
    assert!(!a.is_valid(&registry));
    assert!(!b.is_valid(&registry));
    assert!(c.is_valid(&registry));
}

#[test]
fn invalidation_is_idempotent() {
    let mut registry = MonitorRegistry::new();
    let ptr = GLFWmonitor { addr: 0x1000 };
    let a = Monitor::create_from(&mut registry, ptr);
    invalidate_monitor(&mut registry, ptr);
    let snapshot = registry.entries.clone();
    invalidate_monitor(&mut registry, ptr);
    assert_eq!(registry.entries, snapshot);
    invalidate_all_monitors(&mut registry);
    assert_eq!(registry.entries, snapshot);
    assert!(!a.is_valid(&registry));
}

#[test]
fn teardown_invalidation_hits_every_monitor() {
    let mut registry = MonitorRegistry::new();
    let a = Monitor::create_from(&mut registry, GLFWmonitor { addr: 1 });
    let b = Monitor::create_from(&mut registry, GLFWmonitor { addr: 2 });
    invalidate_all_monitors(&mut registry);
    assert!(!a.is_valid(&registry));
    assert!(!b.is_valid(&registry));
}

#[test]
fn reused_address_does_not_revive_an_old_handle() {
    let mut registry = MonitorRegistry::new();
    let ptr = GLFWmonitor { addr: 0x3000 };
    let old_handle = Monitor::create_from(&mut registry, ptr);
    invalidate_monitor(&mut registry, ptr);
    // The native allocator may hand the same address to a new monitor.
    let new_handle = Monitor::create_from(&mut registry, ptr);
    assert!(!old_handle.is_valid(&registry));
    assert!(new_handle.is_valid(&registry));
    assert!(!old_handle.is_same_as(&new_handle, &registry));
    assert_eq!(new_handle.get_ptr(&registry), ptr);
}

#[test]
fn invalid_monitors_compare_same_as_nothing() {
    let mut registry = MonitorRegistry::new();
    let ptr = GLFWmonitor { addr: 7 };
    let a = Monitor::create_from(&mut registry, ptr);
    let b = Monitor::create_from(&mut registry, ptr);
    invalidate_monitor(&mut registry, ptr);
    assert!(!a.is_same_as(&b, &registry));
    assert!(!a.is_same_as(&a, &registry));
}
