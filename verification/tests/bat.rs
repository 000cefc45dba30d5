use vmm_devices::bat::state_document;
use vmm_devices::bat::state_of_document;
use vmm_devices::bat::snapshot_of_document;
use vmm_devices::bat::BatteryData;
use vmm_devices::bat::BatteryError;
use vmm_devices::bat::BatteryStatus;
use vmm_devices::bat::GoldfishBattery;
use vmm_devices::bat::GoldfishBatteryState;
use vmm_devices::bat::PowerData;
use vmm_devices::bat::AC_STATUS_CHANGED;
use vmm_devices::bat::BATTERY_AC_ONLINE;
use vmm_devices::bat::BATTERY_CAPACITY;
use vmm_devices::bat::BATTERY_INT_ENABLE;
use vmm_devices::bat::BATTERY_INT_STATUS;
use vmm_devices::bat::BATTERY_STATUS_CHANGED;
use vmm_devices::bus::BusAccessInfo;
use vmm_devices::bus::BusDevice;
use vmm_devices::process::fork_process;
use vmm_devices::process::Confined;
use vmm_devices::process::Forked;
use vmm_devices::proxy::handle::read_command;
use vmm_devices::proxy::handle::read_response;
use vmm_devices::proxy::handle::write_command;
use vmm_devices::proxy::protocol::Command;
use vmm_devices::proxy::session::child_proc;
use vmm_devices::proxy::session::Received;
use vmm_devices::proxy::session::SandboxedSession;
use vmm_devices::proxy::session::SessionAction;
use vmm_devices::suspendable::Suspendable;
use vmm_devices::vm_control::BatControlCommand;
use vmm_devices::vm_control::BatHealth;
use vmm_devices::vm_control::BatStatus;

/// The stages of a forked process up to the one in which a device is served.
fn confined() -> Confined {
    match fork_process(0) {
        Forked::InChild(child) => child.sandbox_applied().descriptors_closed(&vec![3, 4]),
        _ => unreachable!(),
    }
}

fn battery() -> GoldfishBattery {
    GoldfishBattery::new(0, 0, 5).unwrap()
}

fn at(offset: u32) -> BusAccessInfo {
    BusAccessInfo {
        offset: offset as u64,
        address: 0x1000 + offset as u64,
        id: 0,
    }
}

fn read32(battery: &mut GoldfishBattery, offset: u32) -> u32 {
    let mut data = [0u8; 4];
    battery.read(at(offset), &mut data);
    u32::from_le_bytes(data)
}

fn modify_device(battery: &mut GoldfishBattery) {
    battery.apply_command(BatControlCommand::SetCapacity(70));
}

#[test]
fn test_sleep_idempotent() {
    let unit = &mut battery();
    let res = unit.sleep();
    let res2 = unit.sleep();
    assert_eq!(res, Ok(()));
    assert_eq!(res2, Ok(()));
}

#[test]
fn test_snapshot_restore() {
    let unit = &mut battery();
    let snap = unit.snapshot().unwrap();
    assert_eq!(unit.restore(snap), Ok(()));
}

#[test]
fn test_sleep_snapshot_restore_wake() {
    let unit = &mut battery();
    assert_eq!(unit.sleep(), Ok(()));
    let snap = unit.snapshot().unwrap();
    assert_eq!(unit.restore(snap), Ok(()));
    assert_eq!(unit.wake(), Ok(()));
}

#[test]
fn test_suspend_mod_restore() {
    let unit = &mut battery();
    let snap_result = unit.snapshot().expect("failed to take initial snapshot");
    modify_device(unit);
    unit.restore(snap_result.clone())
        .expect("failed to restore snapshot");
    let snap2_result = unit
        .snapshot()
        .expect("failed to take snapshot after modification");
    assert_eq!(snap_result, snap2_result);
}

#[test]
fn test_suspend_mod() {
    let unit = &mut battery();
    let snap_result = unit.snapshot().expect("failed to take initial snapshot");
    modify_device(unit);
    let snap2_result = unit
        .snapshot()
        .expect("failed to take snapshot after modification");
    assert_ne!(snap_result, snap2_result)
}

#[test]
fn snapshot_document_has_the_known_shape() {
    let mut unit = GoldfishBattery::new(0x3000, 7, 5).unwrap();
    let snap = unit.snapshot().unwrap();
    let text = serde_json::to_string(&snap).unwrap();
    assert_eq!(
        text,
        "{\"activated\":false,\"irq_num\":7,\"mmio_base\":12288,\"state\":{\"ac_online\":1,\"capacity\":50,\"charge_counter\":0,\"charge_full\":0,\"current\":0,\"health\":0,\"int_enable\":0,\"int_status\":0,\"present\":1,\"status\":0,\"voltage\":0}}"
    );
    let read = snapshot_of_document(&snap).unwrap();
    assert_eq!(read.state, GoldfishBatteryState::new());
    assert_eq!((read.mmio_base, read.irq_num, read.activated), (0x3000, 7, false));
}

#[test]
fn restore_refuses_other_documents() {
    let mut unit = battery();
    assert_eq!(
        unit.restore(serde_json::Value::Null),
        Err("failed to deserialize GoldfishBattery".to_owned())
    );
    let mut snap = unit.snapshot().unwrap();
    snap["state"]["capacity"] = serde_json::Value::from(u64::MAX);
    assert!(unit.restore(snap).is_err());
    let mut snap = unit.snapshot().unwrap();
    snap.as_object_mut().unwrap().remove("irq_num");
    assert!(unit.restore(snap).is_err());
    let mut state = state_document(&GoldfishBatteryState::new());
    assert_eq!(state_of_document(&state), Some(GoldfishBatteryState::new()));
    state["health"] = serde_json::Value::from("good");
    assert_eq!(state_of_document(&state), None);
}

#[test]
fn new_battery_needs_32_bit_address() {
    assert!(GoldfishBattery::new(0xffff_f000, 1, 2).is_ok());
    assert_eq!(
        GoldfishBattery::new(0xffff_f001, 1, 2).err(),
        Some(BatteryError::Non32BitMmioAddress)
    );
    assert_eq!(
        GoldfishBattery::new(u64::MAX, 1, 2).err(),
        Some(BatteryError::Non32BitMmioAddress)
    );
}

#[test]
fn registers_read_as_state() {
    let mut unit = battery();
    assert_eq!(read32(&mut unit, BATTERY_CAPACITY), 50);
    assert_eq!(read32(&mut unit, BATTERY_AC_ONLINE), 1);
    // No register there: the buffer stays as it is.
    let mut data = [9u8; 4];
    unit.read(at(0x3c), &mut data);
    assert_eq!(data, [9; 4]);
    // Only reads of four bytes count.
    let mut data = [9u8; 2];
    unit.read(at(BATTERY_CAPACITY), &mut data);
    assert_eq!(data, [9; 2]);
}

#[test]
fn interrupt_is_raised_once_and_cleared_by_read() {
    let mut unit = battery();
    // The guest wants no interrupt yet.
    assert!(!unit.apply_command(BatControlCommand::SetCapacity(70)));
    unit.write(at(BATTERY_INT_ENABLE), &3u32.to_le_bytes());
    assert_eq!(read32(&mut unit, BATTERY_INT_ENABLE), 3);
    assert!(unit.apply_command(BatControlCommand::SetCapacity(80)));
    // Pending already.
    assert!(!unit.apply_command(BatControlCommand::SetCapacity(90)));
    // Nothing changes.
    assert!(!unit.apply_command(BatControlCommand::SetCapacity(90)));
    assert!(unit.apply_command(BatControlCommand::SetACOnline(0)));
    assert!(unit.state().resample());
    assert_eq!(
        read32(&mut unit, BATTERY_INT_STATUS),
        BATTERY_STATUS_CHANGED | AC_STATUS_CHANGED
    );
    assert_eq!(read32(&mut unit, BATTERY_INT_STATUS), 0);
    assert!(!unit.state().resample());
    assert_eq!(read32(&mut unit, BATTERY_CAPACITY), 90);
}

#[test]
fn commands_are_normalized() {
    let mut unit = battery();
    unit.apply_command(BatControlCommand::SetCapacity(250));
    assert_eq!(unit.state().capacity, 100);
    unit.apply_command(BatControlCommand::SetPresent(17));
    assert_eq!(unit.state().present, 1);
    unit.apply_command(BatControlCommand::SetACOnline(0));
    assert_eq!(unit.state().ac_online, 0);
    unit.apply_command(BatControlCommand::SetStatus(BatStatus::Full));
    assert_eq!(unit.state().status, 4);
    unit.apply_command(BatControlCommand::SetHealth(BatHealth::Cold));
    assert_eq!(unit.state().health, 6);
}

#[test]
fn writing_interrupt_enable_starts_monitor() {
    let mut unit = battery();
    assert_eq!(unit.monitor(), None);
    assert_eq!(unit.keep_rds(10, 11), vec![10, 11, 5]);
    // No interrupt asked for: no monitor.
    unit.write(at(BATTERY_INT_ENABLE), &4u32.to_le_bytes());
    assert_eq!(unit.monitor(), None);
    // A write elsewhere does nothing.
    unit.write(at(BATTERY_CAPACITY), &1u32.to_le_bytes());
    assert_eq!(unit.state().capacity, 50);
    unit.write(at(BATTERY_INT_ENABLE), &1u32.to_le_bytes());
    assert_eq!(unit.monitor(), Some(5));
    assert_eq!(unit.keep_rds(10, 11), vec![10, 11]);
    assert_eq!(unit.sleep(), Ok(()));
    assert_eq!(unit.monitor(), None);
}

#[test]
fn power_data_of_host_is_taken_over() {
    let mut state = GoldfishBatteryState::new();
    state.int_enable = 3;
    let interrupt = state.apply_power_data(PowerData {
        ac_online: true,
        battery: Some(BatteryData {
            status: BatteryStatus::Discharging,
            percent: 33,
            voltage: 4000,
            current: 12,
            charge_counter: 5,
            charge_full: 6,
        }),
    });
    assert!(interrupt);
    assert_eq!(
        state,
        GoldfishBatteryState {
            int_status: 1,
            int_enable: 3,
            ac_online: 1,
            status: 2,
            health: 0,
            present: 1,
            capacity: 33,
            voltage: 4000,
            current: 12,
            charge_counter: 5,
            charge_full: 6,
        }
    );
    let mut state = GoldfishBatteryState::new();
    assert!(!state.apply_power_data(PowerData {
        ac_online: false,
        battery: None
    }));
    assert_eq!(state.present, 0);
    assert_eq!(state.ac_online, 0);
}

#[test]
fn battery_behind_proxy_session() {
    let mut session = SandboxedSession::new(battery(), confined());
    child_proc(&mut session, Received::Message(Command::Activate));
    let action = child_proc(
        &mut session,
        Received::Message(write_command(at(BATTERY_INT_ENABLE), &2u32.to_le_bytes())),
    );
    assert!(matches!(action, SessionAction::Continue));
    let action = child_proc(
        &mut session,
        Received::Message(read_command(at(BATTERY_INT_ENABLE), 4)),
    );
    let response = match action {
        SessionAction::Respond(r) => r,
        other => panic!("unexpected action {:?}", other),
    };
    let mut data = [0u8; 4];
    assert_eq!(read_response(Some(response), &mut data), None);
    assert_eq!(u32::from_le_bytes(data), 2);
}

fn numbers(values: &[u64]) -> serde_json::Value {
    serde_json::Value::Array(values.iter().map(|n| serde_json::Value::from(*n)).collect())
}

#[test]
fn a_saved_state_is_also_read_as_a_sequence() {
    let state = numbers(&[1, 2, 3, 4, 5, 6, 7, 8, 9, 10, 11]);
    let read = state_of_document(&state).unwrap();
    assert_eq!((read.int_status, read.int_enable, read.ac_online), (1, 2, 3));
    assert_eq!((read.status, read.health, read.present, read.capacity), (4, 5, 6, 7));
    assert_eq!((read.voltage, read.current, read.charge_counter, read.charge_full), (8, 9, 10, 11));
    // As a sequence, as an object inside a sequence, and the other way round.
    let whole = serde_json::Value::Array(vec![
        state.clone(),
        serde_json::Value::from(0x3000u64),
        serde_json::Value::from(7u64),
        serde_json::Value::from(true),
    ]);
    let snapshot = snapshot_of_document(&whole).unwrap();
    assert_eq!(snapshot.state, read);
    assert_eq!((snapshot.mmio_base, snapshot.irq_num, snapshot.activated), (0x3000, 7, true));
    let mixed = serde_json::Value::Array(vec![
        state_document(&read),
        serde_json::Value::from(0x3000u64),
        serde_json::Value::from(7u64),
        serde_json::Value::from(true),
    ]);
    assert_eq!(snapshot_of_document(&mixed), Some(snapshot));
    let mut unit = battery();
    unit.restore(whole).unwrap();
    assert_eq!(snapshot_of_document(&unit.snapshot().unwrap()), Some(snapshot));
}

#[test]
fn a_sequence_of_another_length_holds_no_state() {
    assert!(state_of_document(&numbers(&[1, 2, 3, 4, 5, 6, 7, 8, 9, 10])).is_none());
    assert!(state_of_document(&numbers(&[1, 2, 3, 4, 5, 6, 7, 8, 9, 10, 11, 12])).is_none());
    assert!(state_of_document(&numbers(&[])).is_none());
    assert!(state_of_document(&numbers(&[1, 2, 3, 4, 5, 6, 7, 8, 9, 10, 1 << 32])).is_none());
    let state = numbers(&[1, 2, 3, 4, 5, 6, 7, 8, 9, 10, 11]);
    let long = serde_json::Value::Array(vec![
        state.clone(),
        serde_json::Value::from(1u64),
        serde_json::Value::from(2u64),
        serde_json::Value::from(true),
        serde_json::Value::from(true),
    ]);
    assert!(snapshot_of_document(&long).is_none());
    let short = serde_json::Value::Array(vec![state, serde_json::Value::from(1u64)]);
    assert!(snapshot_of_document(&short).is_none());
    let mut unit = battery();
    let before = unit.snapshot().unwrap();
    assert_eq!(unit.restore(long), Err("failed to deserialize GoldfishBattery".to_owned()));
    assert_eq!(unit.snapshot().unwrap(), before);
}
