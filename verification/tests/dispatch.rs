use lighthouse_control::command::{power_write_payload, Command, CommandQueue};
use lighthouse_control::power::PowerStateCommand;
use lighthouse_control::store::StateStore;

#[test]
fn drain_yields_enqueue_order() {
    let mut q = CommandQueue::new(16);
    assert!(q.enqueue(Command::RestartScan));
    assert!(q.enqueue(Command::ChangePowerState(1, PowerStateCommand::On)));
    assert!(q.enqueue(Command::ChangePowerState(2, PowerStateCommand::Sleep)));

    let cmds = q.drain();
    assert_eq!(
        cmds,
        vec![
            Command::RestartScan,
            Command::ChangePowerState(1, PowerStateCommand::On),
            Command::ChangePowerState(2, PowerStateCommand::Sleep),
        ]
    );
    assert_eq!(q.len(), 0);
}

#[test]
fn randomized_interleavings_preserve_order() {
    // Pseudo-random interleavings of RestartScan and ChangePowerState
    // commands: however they arrive, draining yields exactly the
    // enqueue order.
    let mut seed: u64 = 0x2545F4914F6CDD1D;
    for round in 0..50 {
        let mut q = CommandQueue::new(64);
        let mut expected: Vec<Command> = Vec::new();
        let n = 1 + (round % 40);
        for _ in 0..n {
            seed = seed.wrapping_mul(6364136223846793005).wrapping_add(1442695040888963407);
            let cmd = match (seed >> 33) % 4 {
                0 => Command::RestartScan,
                1 => Command::ChangePowerState((seed >> 17) % 8, PowerStateCommand::On),
                2 => Command::ChangePowerState((seed >> 17) % 8, PowerStateCommand::Sleep),
                _ => Command::ChangePowerState((seed >> 17) % 8, PowerStateCommand::Standby),
            };
            assert!(q.enqueue(cmd));
            expected.push(cmd);
        }
        assert_eq!(q.drain(), expected);
        assert_eq!(q.len(), 0);
    }
}

#[test]
fn full_queue_drops_silently() {
    let mut q = CommandQueue::new(2);
    assert!(q.enqueue(Command::RestartScan));
    assert!(q.enqueue(Command::ChangePowerState(1, PowerStateCommand::On)));
    // The queue is saturated: the enqueue reports the drop and nothing
    // else changes.
    assert!(!q.enqueue(Command::ChangePowerState(2, PowerStateCommand::Sleep)));
    assert_eq!(q.len(), 2);
    let cmds = q.drain();
    assert_eq!(
        cmds,
        vec![
            Command::RestartScan,
            Command::ChangePowerState(1, PowerStateCommand::On),
        ]
    );
}

#[test]
fn change_power_state_for_known_device_encodes_target() {
    let mut store: StateStore<u32> = StateStore::new();
    store.upsert_device(1, None, 10);
    assert_eq!(power_write_payload(&store, 1, PowerStateCommand::On), Some(0x01));
    assert_eq!(power_write_payload(&store, 1, PowerStateCommand::Sleep), Some(0x00));
    assert_eq!(power_write_payload(&store, 1, PowerStateCommand::Standby), Some(0x02));
}

#[test]
fn change_power_state_for_unseen_device_is_dropped() {
    // Scenario: the device was never seen. The command is dropped
    // silently, nothing panics, and the store is unchanged.
    let mut store: StateStore<u32> = StateStore::new();
    store.upsert_device(1, Some("Base1".to_string()), 10);
    let before = store.snapshot();

    assert_eq!(power_write_payload(&store, 0xDEAD, PowerStateCommand::On), None);

    let after = store.snapshot();
    assert_eq!(before.devices.len(), after.devices.len());
    assert_eq!(before.devices[0].addr, after.devices[0].addr);
    assert_eq!(before.devices[0].name, after.devices[0].name);
    assert_eq!(before.devices[0].power_state, after.devices[0].power_state);
    assert_eq!(before.scanning, after.scanning);
    assert_eq!(before.error, after.error);
}
