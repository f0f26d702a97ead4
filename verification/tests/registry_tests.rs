use sixtyfps_eventloop::registry::{register_window, unregister_window, WindowRegistry};

#[test]
fn register_then_lookup() {
    let mut registry: WindowRegistry<&str> = WindowRegistry::new();
    assert!(registry.window_ids().is_empty());
    register_window(&mut registry, 7, "first");
    register_window(&mut registry, 9, "second");
    assert_eq!(registry.get(7), Some(&"first"));
    assert_eq!(registry.get(9), Some(&"second"));
    assert_eq!(registry.get(8), None);
    assert_eq!(registry.window_ids().len(), 2);
}

#[test]
fn register_replaces() {
    let mut registry: WindowRegistry<u32> = WindowRegistry::new();
    register_window(&mut registry, 1, 10);
    register_window(&mut registry, 1, 20);
    assert_eq!(registry.get(1), Some(&20));
    assert_eq!(registry.window_ids(), vec![1]);
}

#[test]
fn unregister_forgets_only_that_window() {
    let mut registry: WindowRegistry<u32> = WindowRegistry::new();
    register_window(&mut registry, 1, 10);
    register_window(&mut registry, 2, 20);
    unregister_window(&mut registry, 1);
    assert_eq!(registry.get(1), None);
    assert_eq!(registry.get(2), Some(&20));
    unregister_window(&mut registry, 5);
    assert_eq!(registry.window_ids(), vec![2]);
}

#[test]
fn register_unregister_roundtrip() {
    let mut registry: WindowRegistry<u32> = WindowRegistry::new();
    register_window(&mut registry, 3, 30);
    register_window(&mut registry, 4, 40);
    unregister_window(&mut registry, 4);
    let mut ids = registry.window_ids();
    ids.sort();
    assert_eq!(ids, vec![3]);
    assert_eq!(registry.get(3), Some(&30));
}

#[test]
fn window_ids_lists_each_window_once() {
    let mut registry: WindowRegistry<u32> = WindowRegistry::new();
    assert!(registry.window_ids().is_empty());
    for id in [5u64, 1, 9, 1, 5] {
        register_window(&mut registry, id, id as u32);
    }
    let mut ids = registry.window_ids();
    ids.sort();
    assert_eq!(ids, vec![1, 5, 9]);
}
