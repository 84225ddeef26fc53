use naui_core::registry::Registry;

#[test]
fn numbers_are_handed_out_in_turn_from_one() {
    let mut registry: Registry<&str> = Registry::new();
    assert_eq!(registry.next_id(), 1);
    assert_eq!(registry.next_id(), 2);
    assert_eq!(registry.next_id(), 3);
}

#[test]
fn entries_are_found_until_deregistered() {
    let mut registry = Registry::new();
    let a = registry.next_id();
    let b = registry.next_id();
    registry.register(a, "channel");
    registry.register(b, "task");
    assert_eq!(registry.get(a), Some(&"channel"));
    assert_eq!(registry.len(), 2);
    assert_eq!(registry.deregister(a), Some("channel"));
    assert_eq!(registry.get(a), None);
    assert_eq!(registry.get(b), Some(&"task"));
    assert_eq!(registry.deregister(a), None);
}

#[test]
fn take_all_empties_the_register() {
    let mut registry = Registry::new();
    registry.register(7, 70);
    registry.register(8, 80);
    let taken = registry.take_all();
    assert_eq!(taken.len(), 2);
    assert_eq!(taken.get(&7), Some(&70));
    assert_eq!(registry.len(), 0);
    assert_eq!(registry.get(8), None);
    assert_eq!(registry.next_id(), 1);
}

#[test]
fn registering_again_replaces_the_entry() {
    let mut registry = Registry::new();
    registry.register(1, 'a');
    registry.register(1, 'b');
    assert_eq!(registry.get(1), Some(&'b'));
    assert_eq!(registry.len(), 1);
}
