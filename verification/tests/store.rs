use lighthouse_control::power::PowerState;
use lighthouse_control::store::{ErrorState, StateStore};

#[test]
fn new_store_is_empty_and_idle() {
    let store: StateStore<u32> = StateStore::new();
    assert_eq!(store.len(), 0);
    assert!(!store.is_scanning());
    assert!(store.error().is_none());
    let snap = store.snapshot();
    assert!(snap.devices.is_empty());
    assert!(!snap.scanning);
    assert!(snap.error.is_none());
}

#[test]
fn clear_resets_everything() {
    let mut store: StateStore<u32> = StateStore::new();
    store.upsert_device(1, Some("Base1".to_string()), 10);
    store.upsert_device(2, Some("Base2".to_string()), 20);
    store.set_scanning(true);
    store.set_error(Some(ErrorState::StartFailed));
    assert_eq!(store.len(), 2);

    store.clear();

    assert_eq!(store.len(), 0);
    assert!(!store.contains_device(1));
    assert!(!store.contains_device(2));
    assert!(store.get_handle(1).is_none());
    assert!(store.get_handle(2).is_none());
    assert!(!store.is_scanning());
    assert!(store.error().is_none());
    assert!(store.snapshot().devices.is_empty());
}

#[test]
fn upsert_new_device_starts_unknown() {
    let mut store: StateStore<u32> = StateStore::new();
    store.upsert_device(7, Some("Base7".to_string()), 70);
    assert_eq!(store.len(), 1);
    assert!(store.contains_device(7));
    assert_eq!(store.get_power_state(7), Some(PowerState::Unknown));
    assert_eq!(store.get_handle(7), Some(&70));
    let snap = store.snapshot();
    assert_eq!(snap.devices.len(), 1);
    assert_eq!(snap.devices[0].addr, 7);
    assert_eq!(snap.devices[0].name.as_deref(), Some("Base7"));
    assert_eq!(snap.devices[0].power_state, PowerState::Unknown);
}

#[test]
fn upsert_existing_keeps_power_state() {
    let mut store: StateStore<u32> = StateStore::new();
    store.upsert_device(7, Some("Base7".to_string()), 70);
    store.update_power_state(7, PowerState::On);
    assert_eq!(store.get_power_state(7), Some(PowerState::On));

    // Re-discovery refreshes name and handle only.
    store.upsert_device(7, Some("Base7-new".to_string()), 71);

    assert_eq!(store.len(), 1);
    assert_eq!(store.get_power_state(7), Some(PowerState::On));
    assert_eq!(store.get_handle(7), Some(&71));
    let snap = store.snapshot();
    assert_eq!(snap.devices[0].name.as_deref(), Some("Base7-new"));
}

#[test]
fn update_power_state_on_absent_is_noop() {
    let mut store: StateStore<u32> = StateStore::new();
    store.upsert_device(1, None, 10);
    store.update_power_state(99, PowerState::On);
    assert_eq!(store.len(), 1);
    assert!(!store.contains_device(99));
    assert_eq!(store.get_power_state(1), Some(PowerState::Unknown));
}

#[test]
fn update_name_on_absent_is_noop() {
    let mut store: StateStore<u32> = StateStore::new();
    store.update_name(99, Some("ghost".to_string()));
    assert_eq!(store.len(), 0);
    assert!(!store.contains_device(99));
}

#[test]
fn last_power_write_wins() {
    // Two poll results for the same device committing one after the
    // other: the final state is whichever committed last, with the rest
    // of the entry intact.
    let mut store: StateStore<u32> = StateStore::new();
    store.upsert_device(3, Some("Base3".to_string()), 30);

    store.update_power_state(3, PowerState::On);
    store.update_power_state(3, PowerState::Standby);
    assert_eq!(store.get_power_state(3), Some(PowerState::Standby));

    store.update_power_state(3, PowerState::Standby);
    store.update_power_state(3, PowerState::On);
    assert_eq!(store.get_power_state(3), Some(PowerState::On));

    let snap = store.snapshot();
    assert_eq!(snap.devices.len(), 1);
    assert_eq!(snap.devices[0].name.as_deref(), Some("Base3"));
    assert_eq!(store.get_handle(3), Some(&30));
}

#[test]
fn snapshot_lists_devices_in_discovery_order() {
    let mut store: StateStore<u32> = StateStore::new();
    store.upsert_device(5, Some("E".to_string()), 50);
    store.upsert_device(2, Some("B".to_string()), 20);
    store.upsert_device(9, None, 90);
    store.update_power_state(2, PowerState::Sleep);

    assert_eq!(store.addresses(), vec![5, 2, 9]);
    let snap = store.snapshot();
    assert_eq!(snap.devices.len(), 3);
    assert_eq!(snap.devices[0].addr, 5);
    assert_eq!(snap.devices[1].addr, 2);
    assert_eq!(snap.devices[2].addr, 9);
    assert_eq!(snap.devices[1].power_state, PowerState::Sleep);
    assert_eq!(snap.devices[2].name, None);
}

#[test]
fn error_slot_is_overwritten_not_accumulated() {
    let mut store: StateStore<u32> = StateStore::new();
    store.set_error(Some(ErrorState::StartFailed));
    assert_eq!(store.error(), Some(ErrorState::StartFailed));
    store.set_error(None);
    assert_eq!(store.error(), None);
}
