//! The Goldfish battery: a small device with registers that the guest
//! reads to learn about the battery and the mains, and an interrupt that
//! tells it of changes.

use vstd::prelude::*;
use vstd::bytes::spec_u32_from_le_bytes;
use vstd::bytes::spec_u32_to_le_bytes;
use vstd::bytes::u32_from_le_bytes;
use vstd::bytes::u32_to_le_bytes;
use crate::bus::BusAccessInfo;
use crate::bus::BusDevice;
use crate::bus::RawDescriptor;
use crate::json::boolean;
use crate::json::entry_views;
use crate::json::json_boolean;
use crate::json::json_number;
use crate::json::json_object;
use crate::json::last_of_its_name;
use crate::json::names_differ;
use crate::json::field;
use crate::json::field_bool;
use crate::json::field_u32;
use crate::json::fields_fit;
use crate::json::number;
use crate::json::object;
use crate::json::json_member;
use crate::json::spec_field;
use crate::json::spec_field_bool;
use crate::json::spec_field_u32;
use crate::json::spec_fields_fit;
use crate::suspendable::Suspendable;
use crate::vm_control::BatControlCommand;

verus! {

/// Errors of the battery.
#[derive(Clone, Copy, Debug, PartialEq, Eq, Structural)]
pub enum BatteryError {
    /// The registers do not lie below 4 GiB.
    Non32BitMmioAddress,
}

/// The bytes that the registers of the battery take on the bus.
pub const GOLDFISHBAT_MMIO_LEN: u64 = 0x1000;

/// Register: which interrupts are pending. Reading it clears it.
pub const BATTERY_INT_STATUS: u32 = 0;

/// Register: which interrupts the guest wants.
pub const BATTERY_INT_ENABLE: u32 = 0x4;

/// Register: whether the mains are connected.
pub const BATTERY_AC_ONLINE: u32 = 0x8;

/// Register: what the battery is doing.
pub const BATTERY_STATUS: u32 = 0xC;

/// Register: the health of the battery.
pub const BATTERY_HEALTH: u32 = 0x10;

/// Register: whether a battery is there.
pub const BATTERY_PRESENT: u32 = 0x14;

/// Register: the charge in percent.
pub const BATTERY_CAPACITY: u32 = 0x18;

/// Register: the voltage.
pub const BATTERY_VOLTAGE: u32 = 0x1C;

/// Register: the temperature. Always 0.
pub const BATTERY_TEMP: u32 = 0x20;

/// Register: the charge counter.
pub const BATTERY_CHARGE_COUNTER: u32 = 0x24;

/// Register: the highest voltage. Always 0.
pub const BATTERY_VOLTAGE_MAX: u32 = 0x28;

/// Register: the highest current. Always 0.
pub const BATTERY_CURRENT_MAX: u32 = 0x2C;

/// Register: the current.
pub const BATTERY_CURRENT_NOW: u32 = 0x30;

/// Register: the mean current. Always 0.
pub const BATTERY_CURRENT_AVG: u32 = 0x34;

/// Register: the charge of the full battery.
pub const BATTERY_CHARGE_FULL_UAH: u32 = 0x38;

/// Register: the count of cycles. Always 0.
pub const BATTERY_CYCLE_COUNT: u32 = 0x40;

/// Interrupt: something about the battery changed.
pub const BATTERY_STATUS_CHANGED: u32 = 1;

/// Interrupt: the mains came or went.
pub const AC_STATUS_CHANGED: u32 = 2;

/// All interrupts of the battery.
pub const BATTERY_INT_MASK: u32 = 3;

/// Status: unknown.
pub const BATTERY_STATUS_VAL_UNKNOWN: u32 = 0;

/// Status: charging.
pub const BATTERY_STATUS_VAL_CHARGING: u32 = 1;

/// Status: discharging.
pub const BATTERY_STATUS_VAL_DISCHARGING: u32 = 2;

/// Status: not charging.
pub const BATTERY_STATUS_VAL_NOT_CHARGING: u32 = 3;

/// Health: unknown.
pub const BATTERY_HEALTH_VAL_UNKNOWN: u32 = 0;

/// What the guest can read of the battery.
#[derive(Clone, Copy, Debug, PartialEq, Eq, Structural)]
pub struct GoldfishBatteryState {
    pub int_status: u32,
    pub int_enable: u32,
    pub ac_online: u32,
    pub status: u32,
    pub health: u32,
    pub present: u32,
    pub capacity: u32,
    pub voltage: u32,
    pub current: u32,
    pub charge_counter: u32,
    pub charge_full: u32,
}

/// Whether raising the interrupts `mask` changes anything: the guest wants
/// one of them and none of them is pending.
pub open spec fn spec_raises(state: GoldfishBatteryState, mask: u32) -> bool {
    (state.int_enable & mask) != 0 && (state.int_status & mask) == 0
}

/// The state after the interrupts `mask` were raised.
pub open spec fn spec_raised(state: GoldfishBatteryState, mask: u32) -> GoldfishBatteryState {
    if spec_raises(state, mask) {
        GoldfishBatteryState { int_status: state.int_status | mask, ..state }
    } else {
        state
    }
}

/// State and interrupt after a value was set: where it `changed`, the
/// interrupts `mask` are raised in the state `set` that holds the new value.
pub open spec fn spec_after_set(changed: bool, set: GoldfishBatteryState, mask: u32) -> (
    GoldfishBatteryState,
    bool,
) {
    if changed {
        (spec_raised(set, mask), spec_raises(set, mask))
    } else {
        (set, false)
    }
}

impl GoldfishBatteryState {
    /// The state of a battery that is there, half full, with the mains
    /// connected, and of which nothing else is known.
    pub open spec fn spec_new() -> GoldfishBatteryState {
        GoldfishBatteryState {
            capacity: 50,
            health: BATTERY_HEALTH_VAL_UNKNOWN,
            present: 1,
            status: BATTERY_STATUS_VAL_UNKNOWN,
            ac_online: 1,
            int_enable: 0,
            int_status: 0,
            voltage: 0,
            current: 0,
            charge_counter: 0,
            charge_full: 0,
        }
    }

    /// The state of a new battery.
    pub fn new() -> (state: GoldfishBatteryState)
        ensures
            state == Self::spec_new(),
    {
        GoldfishBatteryState {
            capacity: 50,
            health: BATTERY_HEALTH_VAL_UNKNOWN,
            present: 1,
            status: BATTERY_STATUS_VAL_UNKNOWN,
            ac_online: 1,
            int_enable: 0,
            int_status: 0,
            voltage: 0,
            current: 0,
            charge_counter: 0,
            charge_full: 0,
        }
    }

    /// Raises the interrupts `mask`, where the guest wants one of them and
    /// none of them is pending, and says whether it did.
    pub fn set_int_status(&mut self, mask: u32) -> (raised: bool)
        ensures
            raised == spec_raises(*old(self), mask),
            *final(self) == spec_raised(*old(self), mask),
    {
        if ((self.int_enable & mask) != 0) && ((self.int_status & mask) == 0) {
            self.int_status |= mask;
            return true;
        }
        false
    }

    /// The interrupts that are pending.
    pub fn int_status(&self) -> (status: u32)
        ensures
            status == self.int_status,
    {
        self.int_status
    }

    /// State and interrupt after `ac_online` is set to `value`.
    pub open spec fn spec_set_ac_online(self, value: u32) -> (GoldfishBatteryState, bool) {
        spec_after_set(self.ac_online != value, GoldfishBatteryState { ac_online: value, ..self }, AC_STATUS_CHANGED)
    }

    /// Sets whether the mains are connected, and says whether the guest is to be interrupted.
    pub fn set_ac_online(&mut self, value: u32) -> (interrupt: bool)
        ensures
            (*final(self), interrupt) == old(self).spec_set_ac_online(value),
    {
        let old = self.ac_online;
        self.ac_online = value;
        old != self.ac_online && self.set_int_status(AC_STATUS_CHANGED)
    }

    /// State and interrupt after `status` is set to `value`.
    pub open spec fn spec_set_status(self, value: u32) -> (GoldfishBatteryState, bool) {
        spec_after_set(self.status != value, GoldfishBatteryState { status: value, ..self }, BATTERY_STATUS_CHANGED)
    }

    /// Sets what the battery is doing, and says whether the guest is to be interrupted.
    pub fn set_status(&mut self, value: u32) -> (interrupt: bool)
        ensures
            (*final(self), interrupt) == old(self).spec_set_status(value),
    {
        let old = self.status;
        self.status = value;
        old != self.status && self.set_int_status(BATTERY_STATUS_CHANGED)
    }

    /// State and interrupt after `health` is set to `value`.
    pub open spec fn spec_set_health(self, value: u32) -> (GoldfishBatteryState, bool) {
        spec_after_set(self.health != value, GoldfishBatteryState { health: value, ..self }, BATTERY_STATUS_CHANGED)
    }

    /// Sets the health of the battery, and says whether the guest is to be interrupted.
    pub fn set_health(&mut self, value: u32) -> (interrupt: bool)
        ensures
            (*final(self), interrupt) == old(self).spec_set_health(value),
    {
        let old = self.health;
        self.health = value;
        old != self.health && self.set_int_status(BATTERY_STATUS_CHANGED)
    }

    /// State and interrupt after `present` is set to `value`.
    pub open spec fn spec_set_present(self, value: u32) -> (GoldfishBatteryState, bool) {
        spec_after_set(self.present != value, GoldfishBatteryState { present: value, ..self }, BATTERY_STATUS_CHANGED)
    }

    /// Sets whether a battery is there, and says whether the guest is to be interrupted.
    pub fn set_present(&mut self, value: u32) -> (interrupt: bool)
        ensures
            (*final(self), interrupt) == old(self).spec_set_present(value),
    {
        let old = self.present;
        self.present = value;
        old != self.present && self.set_int_status(BATTERY_STATUS_CHANGED)
    }

    /// State and interrupt after `capacity` is set to `value`.
    pub open spec fn spec_set_capacity(self, value: u32) -> (GoldfishBatteryState, bool) {
        spec_after_set(self.capacity != value, GoldfishBatteryState { capacity: value, ..self }, BATTERY_STATUS_CHANGED)
    }

    /// Sets the charge in percent, and says whether the guest is to be interrupted.
    pub fn set_capacity(&mut self, value: u32) -> (interrupt: bool)
        ensures
            (*final(self), interrupt) == old(self).spec_set_capacity(value),
    {
        let old = self.capacity;
        self.capacity = value;
        old != self.capacity && self.set_int_status(BATTERY_STATUS_CHANGED)
    }

    /// State and interrupt after `voltage` is set to `value`.
    pub open spec fn spec_set_voltage(self, value: u32) -> (GoldfishBatteryState, bool) {
        spec_after_set(self.voltage != value, GoldfishBatteryState { voltage: value, ..self }, BATTERY_STATUS_CHANGED)
    }

    /// Sets the voltage, and says whether the guest is to be interrupted.
    pub fn set_voltage(&mut self, value: u32) -> (interrupt: bool)
        ensures
            (*final(self), interrupt) == old(self).spec_set_voltage(value),
    {
        let old = self.voltage;
        self.voltage = value;
        old != self.voltage && self.set_int_status(BATTERY_STATUS_CHANGED)
    }

    /// State and interrupt after `current` is set to `value`.
    pub open spec fn spec_set_current(self, value: u32) -> (GoldfishBatteryState, bool) {
        spec_after_set(self.current != value, GoldfishBatteryState { current: value, ..self }, BATTERY_STATUS_CHANGED)
    }

    /// Sets the current, and says whether the guest is to be interrupted.
    pub fn set_current(&mut self, value: u32) -> (interrupt: bool)
        ensures
            (*final(self), interrupt) == old(self).spec_set_current(value),
    {
        let old = self.current;
        self.current = value;
        old != self.current && self.set_int_status(BATTERY_STATUS_CHANGED)
    }

    /// State and interrupt after `charge_counter` is set to `value`.
    pub open spec fn spec_set_charge_counter(self, value: u32) -> (GoldfishBatteryState, bool) {
        spec_after_set(self.charge_counter != value, GoldfishBatteryState { charge_counter: value, ..self }, BATTERY_STATUS_CHANGED)
    }

    /// Sets the charge counter, and says whether the guest is to be interrupted.
    pub fn set_charge_counter(&mut self, value: u32) -> (interrupt: bool)
        ensures
            (*final(self), interrupt) == old(self).spec_set_charge_counter(value),
    {
        let old = self.charge_counter;
        self.charge_counter = value;
        old != self.charge_counter && self.set_int_status(BATTERY_STATUS_CHANGED)
    }

    /// State and interrupt after `charge_full` is set to `value`.
    pub open spec fn spec_set_charge_full(self, value: u32) -> (GoldfishBatteryState, bool) {
        spec_after_set(self.charge_full != value, GoldfishBatteryState { charge_full: value, ..self }, BATTERY_STATUS_CHANGED)
    }

    /// Sets the charge of the full battery, and says whether the guest is to be interrupted.
    pub fn set_charge_full(&mut self, value: u32) -> (interrupt: bool)
        ensures
            (*final(self), interrupt) == old(self).spec_set_charge_full(value),
    {
        let old = self.charge_full;
        self.charge_full = value;
        old != self.charge_full && self.set_int_status(BATTERY_STATUS_CHANGED)
    }

    /// What the guest reads in the register at `offset`, or `None` where
    /// there is no register.
    pub open spec fn spec_register(self, offset: u32) -> Option<u32> {
        if offset == BATTERY_INT_STATUS {
            Some(self.int_status)
        } else if offset == BATTERY_INT_ENABLE {
            Some(self.int_enable)
        } else if offset == BATTERY_AC_ONLINE {
            Some(self.ac_online)
        } else if offset == BATTERY_STATUS {
            Some(self.status)
        } else if offset == BATTERY_HEALTH {
            Some(self.health)
        } else if offset == BATTERY_PRESENT {
            Some(self.present)
        } else if offset == BATTERY_CAPACITY {
            Some(self.capacity)
        } else if offset == BATTERY_VOLTAGE {
            Some(self.voltage)
        } else if offset == BATTERY_TEMP {
            Some(0)
        } else if offset == BATTERY_CHARGE_COUNTER {
            Some(self.charge_counter)
        } else if offset == BATTERY_VOLTAGE_MAX {
            Some(0)
        } else if offset == BATTERY_CURRENT_MAX {
            Some(0)
        } else if offset == BATTERY_CURRENT_NOW {
            Some(self.current)
        } else if offset == BATTERY_CURRENT_AVG {
            Some(0)
        } else if offset == BATTERY_CHARGE_FULL_UAH {
            Some(self.charge_full)
        } else if offset == BATTERY_CYCLE_COUNT {
            Some(0)
        } else {
            None
        }
    }

    /// Reads the register at `offset`. Reading the pending interrupts
    /// clears them; no other read changes anything.
    pub fn read_register(&mut self, offset: u32) -> (value: Option<u32>)
        ensures
            value == old(self).spec_register(offset),
            *final(self) == if offset == BATTERY_INT_STATUS {
                GoldfishBatteryState { int_status: 0, ..*old(self) }
            } else {
                *old(self)
            },
    {
        match offset {
            BATTERY_INT_STATUS => {
                // read to clear the interrupt status
                let pending = self.int_status;
                self.int_status = 0;
                Some(pending)
            },
            BATTERY_INT_ENABLE => Some(self.int_enable),
            BATTERY_AC_ONLINE => Some(self.ac_online),
            BATTERY_STATUS => Some(self.status),
            BATTERY_HEALTH => Some(self.health),
            BATTERY_PRESENT => Some(self.present),
            BATTERY_CAPACITY => Some(self.capacity),
            BATTERY_VOLTAGE => Some(self.voltage),
            BATTERY_TEMP => Some(0),
            BATTERY_CHARGE_COUNTER => Some(self.charge_counter),
            BATTERY_VOLTAGE_MAX => Some(0),
            BATTERY_CURRENT_MAX => Some(0),
            BATTERY_CURRENT_NOW => Some(self.current),
            BATTERY_CURRENT_AVG => Some(0),
            BATTERY_CHARGE_FULL_UAH => Some(self.charge_full),
            BATTERY_CYCLE_COUNT => Some(0),
            _ => None,
        }
    }

    /// State and interrupt after `command`. A charge is at most 100
    /// percent; presence and mains are 0 or 1.
    pub open spec fn spec_apply_command(self, command: BatControlCommand) -> (
        GoldfishBatteryState,
        bool,
    ) {
        match command {
            BatControlCommand::SetStatus(status) => self.spec_set_status(status.spec_value()),
            BatControlCommand::SetHealth(health) => self.spec_set_health(health.spec_value()),
            BatControlCommand::SetPresent(present) => self.spec_set_present(
                if present != 0 {
                    1
                } else {
                    0
                },
            ),
            BatControlCommand::SetCapacity(capacity) => self.spec_set_capacity(
                if capacity <= 100 {
                    capacity
                } else {
                    100
                },
            ),
            BatControlCommand::SetACOnline(ac_online) => self.spec_set_ac_online(
                if ac_online != 0 {
                    1
                } else {
                    0
                },
            ),
        }
    }

    /// Carries out `command`, and says whether the guest is to be
    /// interrupted.
    pub fn apply_command(&mut self, command: BatControlCommand) -> (interrupt: bool)
        ensures
            (*final(self), interrupt) == old(self).spec_apply_command(command),
    {
        match command {
            BatControlCommand::SetStatus(status) => self.set_status(status.value()),
            BatControlCommand::SetHealth(health) => self.set_health(health.value()),
            BatControlCommand::SetPresent(present) => {
                let v: u32 = if present != 0 {
                    1
                } else {
                    0
                };
                self.set_present(v)
            },
            BatControlCommand::SetCapacity(capacity) => {
                let v = if capacity <= 100 {
                    capacity
                } else {
                    100
                };
                self.set_capacity(v)
            },
            BatControlCommand::SetACOnline(ac_online) => {
                let v: u32 = if ac_online != 0 {
                    1
                } else {
                    0
                };
                self.set_ac_online(v)
            },
        }
    }
}

/// What the host says of its battery.
#[derive(Clone, Copy, Debug, PartialEq, Eq, Structural)]
pub enum BatteryStatus {
    Unknown,
    Charging,
    Discharging,
    NotCharging,
}

/// What the host knows of its battery.
#[derive(Clone, Copy, Debug, PartialEq, Eq, Structural)]
pub struct BatteryData {
    pub status: BatteryStatus,
    pub percent: u32,
    pub voltage: u32,
    pub current: u32,
    pub charge_counter: u32,
    pub charge_full: u32,
}

/// What the host knows of its power: the mains, and the battery if it has
/// one.
#[derive(Clone, Copy, Debug, PartialEq, Eq, Structural)]
pub struct PowerData {
    pub ac_online: bool,
    pub battery: Option<BatteryData>,
}

impl BatteryStatus {
    /// The number that the guest reads for the status.
    pub open spec fn spec_value(self) -> u32 {
        match self {
            BatteryStatus::Unknown => BATTERY_STATUS_VAL_UNKNOWN,
            BatteryStatus::Charging => BATTERY_STATUS_VAL_CHARGING,
            BatteryStatus::Discharging => BATTERY_STATUS_VAL_DISCHARGING,
            BatteryStatus::NotCharging => BATTERY_STATUS_VAL_NOT_CHARGING,
        }
    }

    /// The number that the guest reads for the status.
    pub fn value(self) -> (v: u32)
        ensures
            v == self.spec_value(),
    {
        match self {
            BatteryStatus::Unknown => BATTERY_STATUS_VAL_UNKNOWN,
            BatteryStatus::Charging => BATTERY_STATUS_VAL_CHARGING,
            BatteryStatus::Discharging => BATTERY_STATUS_VAL_DISCHARGING,
            BatteryStatus::NotCharging => BATTERY_STATUS_VAL_NOT_CHARGING,
        }
    }
}

impl GoldfishBatteryState {
    /// State and interrupt after the host reported `data`: each value is
    /// set in turn, and the guest is interrupted if any of them asks for it.
    /// A host without a battery reports that none is present.
    pub open spec fn spec_apply_power_data(self, data: PowerData) -> (GoldfishBatteryState, bool) {
        let a = self.spec_set_ac_online(if data.ac_online { 1 } else { 0 });
        match data.battery {
            Some(battery) => {
                let b = a.0.spec_set_capacity(battery.percent);
                let c = b.0.spec_set_status(battery.status.spec_value());
                let d = c.0.spec_set_voltage(battery.voltage);
                let e = d.0.spec_set_current(battery.current);
                let f = e.0.spec_set_charge_counter(battery.charge_counter);
                let g = f.0.spec_set_charge_full(battery.charge_full);
                (g.0, a.1 || b.1 || c.1 || d.1 || e.1 || f.1 || g.1)
            },
            None => {
                let b = a.0.spec_set_present(0);
                (b.0, a.1 || b.1)
            },
        }
    }

    /// Takes over what the host reported, and says whether the guest is to
    /// be interrupted.
    pub fn apply_power_data(&mut self, data: PowerData) -> (interrupt: bool)
        ensures
            (*final(self), interrupt) == old(self).spec_apply_power_data(data),
    {
        let ac: u32 = if data.ac_online {
            1
        } else {
            0
        };
        let mut inject_irq = self.set_ac_online(ac);
        match data.battery {
            Some(battery_data) => {
                let capacity = self.set_capacity(battery_data.percent);
                inject_irq = inject_irq || capacity;
                let status = self.set_status(battery_data.status.value());
                inject_irq = inject_irq || status;
                let voltage = self.set_voltage(battery_data.voltage);
                inject_irq = inject_irq || voltage;
                let current = self.set_current(battery_data.current);
                inject_irq = inject_irq || current;
                let counter = self.set_charge_counter(battery_data.charge_counter);
                inject_irq = inject_irq || counter;
                let full = self.set_charge_full(battery_data.charge_full);
                inject_irq = inject_irq || full;
            },
            None => {
                let present = self.set_present(0);
                inject_irq = inject_irq || present;
            },
        }
        inject_irq
    }

    /// Whether the interrupt is raised again after the guest acknowledged
    /// it: it is, while any interrupt is pending.
    pub fn resample(&self) -> (interrupt: bool)
        ensures
            interrupt == (self.int_status != 0),
    {
        self.int_status() != 0
    }
}

/// The Goldfish battery.
#[derive(Debug)]
pub struct GoldfishBattery {
    state: GoldfishBatteryState,
    mmio_base: u32,
    irq_num: u32,
    activated: bool,
    /// The channel for commands, until a monitor has taken it.
    tube: Option<RawDescriptor>,
    /// The channel on which the monitor listens, while one runs.
    monitor: Option<RawDescriptor>,
}

/// The state of a [`GoldfishBattery`] as it is saved.
#[derive(Clone, Copy, Debug, PartialEq, Eq, Structural)]
pub struct GoldfishBatterySnapshot {
    pub state: GoldfishBatteryState,
    pub mmio_base: u32,
    pub irq_num: u32,
    pub activated: bool,
}

/// The document that holds `state`: an object with one member for each
/// value, under the name of the value.
pub open spec fn spec_state_document(state: GoldfishBatteryState) -> serde_json::Value {
    json_object(
        seq![
            ("int_status"@, json_number(state.int_status as u64)),
            ("int_enable"@, json_number(state.int_enable as u64)),
            ("ac_online"@, json_number(state.ac_online as u64)),
            ("status"@, json_number(state.status as u64)),
            ("health"@, json_number(state.health as u64)),
            ("present"@, json_number(state.present as u64)),
            ("capacity"@, json_number(state.capacity as u64)),
            ("voltage"@, json_number(state.voltage as u64)),
            ("current"@, json_number(state.current as u64)),
            ("charge_counter"@, json_number(state.charge_counter as u64)),
            ("charge_full"@, json_number(state.charge_full as u64)),
        ],
    )
}

/// The document that holds `snapshot`: an object with the members `state`,
/// `mmio_base`, `irq_num` and `activated`.
pub open spec fn spec_snapshot_document(snapshot: GoldfishBatterySnapshot) -> serde_json::Value {
    json_object(
        seq![
            ("state"@, spec_state_document(snapshot.state)),
            ("mmio_base"@, json_number(snapshot.mmio_base as u64)),
            ("irq_num"@, json_number(snapshot.irq_num as u64)),
            ("activated"@, json_boolean(snapshot.activated)),
        ],
    )
}

/// The state that the document `v` holds, if it holds each value of one:
/// as the members of an object, under the names of the values, or as the
/// elements of a sequence, in the order of the values and no more of them.
pub open spec fn spec_state_of_document(v: serde_json::Value) -> Option<GoldfishBatteryState> {
    if spec_fields_fit(v, 11) && spec_field_u32(v, "int_status"@, 0) is Some && spec_field_u32(v, "int_enable"@, 1) is Some
        && spec_field_u32(v, "ac_online"@, 2) is Some && spec_field_u32(v, "status"@, 3) is Some
        && spec_field_u32(v, "health"@, 4) is Some && spec_field_u32(v, "present"@, 5) is Some
        && spec_field_u32(v, "capacity"@, 6) is Some && spec_field_u32(v, "voltage"@, 7) is Some
        && spec_field_u32(v, "current"@, 8) is Some && spec_field_u32(v, "charge_counter"@, 9) is Some
        && spec_field_u32(v, "charge_full"@, 10) is Some {
        Some(
            GoldfishBatteryState {
                int_status: spec_field_u32(v, "int_status"@, 0)->0,
                int_enable: spec_field_u32(v, "int_enable"@, 1)->0,
                ac_online: spec_field_u32(v, "ac_online"@, 2)->0,
                status: spec_field_u32(v, "status"@, 3)->0,
                health: spec_field_u32(v, "health"@, 4)->0,
                present: spec_field_u32(v, "present"@, 5)->0,
                capacity: spec_field_u32(v, "capacity"@, 6)->0,
                voltage: spec_field_u32(v, "voltage"@, 7)->0,
                current: spec_field_u32(v, "current"@, 8)->0,
                charge_counter: spec_field_u32(v, "charge_counter"@, 9)->0,
                charge_full: spec_field_u32(v, "charge_full"@, 10)->0,
            },
        )
    } else {
        None
    }
}

/// The snapshot that the document `v` holds, if it holds each part of
/// one: as the members of an object, under the names of the parts, or as the
/// elements of a sequence, in the order of the parts and no more of them.
pub open spec fn spec_snapshot_of_document(v: serde_json::Value) -> Option<GoldfishBatterySnapshot> {
    match spec_field(v, "state"@, 0) {
        Some(state) => if spec_fields_fit(v, 4) && spec_state_of_document(state) is Some && spec_field_u32(v, "mmio_base"@, 1)
            is Some && spec_field_u32(v, "irq_num"@, 2) is Some && spec_field_bool(v, "activated"@, 3)
            is Some {
            Some(
                GoldfishBatterySnapshot {
                    state: spec_state_of_document(state)->0,
                    mmio_base: spec_field_u32(v, "mmio_base"@, 1)->0,
                    irq_num: spec_field_u32(v, "irq_num"@, 2)->0,
                    activated: spec_field_bool(v, "activated"@, 3)->0,
                },
            )
        } else {
            None
        },
        None => None,
    }
}

/// The text of the failure to read a saved state.
pub open spec fn spec_restore_failure() -> Seq<char> {
    "failed to deserialize GoldfishBattery"@
}

/// The document that holds `state`. It reads back as `state`.
pub fn state_document(state: &GoldfishBatteryState) -> (v: serde_json::Value)
    ensures
        v == spec_state_document(*state),
        spec_state_of_document(v) == Some(*state),
{
    let mut entries: Vec<(String, serde_json::Value)> = Vec::new();
    entries.push(("int_status".to_owned(), number(state.int_status as u64)));
    entries.push(("int_enable".to_owned(), number(state.int_enable as u64)));
    entries.push(("ac_online".to_owned(), number(state.ac_online as u64)));
    entries.push(("status".to_owned(), number(state.status as u64)));
    entries.push(("health".to_owned(), number(state.health as u64)));
    entries.push(("present".to_owned(), number(state.present as u64)));
    entries.push(("capacity".to_owned(), number(state.capacity as u64)));
    entries.push(("voltage".to_owned(), number(state.voltage as u64)));
    entries.push(("current".to_owned(), number(state.current as u64)));
    entries.push(("charge_counter".to_owned(), number(state.charge_counter as u64)));
    entries.push(("charge_full".to_owned(), number(state.charge_full as u64)));
    let ghost listed = entry_views(entries@);
    proof {
        reveal_strlit("int_status");
        reveal_strlit("int_enable");
        reveal_strlit("ac_online");
        reveal_strlit("status");
        reveal_strlit("health");
        reveal_strlit("present");
        reveal_strlit("capacity");
        reveal_strlit("voltage");
        reveal_strlit("current");
        reveal_strlit("charge_counter");
        reveal_strlit("charge_full");
        assert(listed =~= seq![
            ("int_status"@, json_number(state.int_status as u64)),
            ("int_enable"@, json_number(state.int_enable as u64)),
            ("ac_online"@, json_number(state.ac_online as u64)),
            ("status"@, json_number(state.status as u64)),
            ("health"@, json_number(state.health as u64)),
            ("present"@, json_number(state.present as u64)),
            ("capacity"@, json_number(state.capacity as u64)),
            ("voltage"@, json_number(state.voltage as u64)),
            ("current"@, json_number(state.current as u64)),
            ("charge_counter"@, json_number(state.charge_counter as u64)),
            ("charge_full"@, json_number(state.charge_full as u64)),
        ]);
        lemma_state_names_differ();
        assert forall|i: int| 0 <= i < listed.len() implies last_of_its_name(listed, i) by {
            assert forall|j: int| i < j < listed.len() implies (#[trigger] listed[j]).0
                != listed[i].0 by {
                assert(listed[i].0 == state_names()[i]);
                assert(listed[j].0 == state_names()[j]);
            }
        }
    }
    assert(names_differ(listed));
    let v = object(entries);
    proof {
        assert(json_member(v, entries@[0].0@) == Some(entries@[0].1));
        assert(json_member(v, entries@[1].0@) == Some(entries@[1].1));
        assert(json_member(v, entries@[2].0@) == Some(entries@[2].1));
        assert(json_member(v, entries@[3].0@) == Some(entries@[3].1));
        assert(json_member(v, entries@[4].0@) == Some(entries@[4].1));
        assert(json_member(v, entries@[5].0@) == Some(entries@[5].1));
        assert(json_member(v, entries@[6].0@) == Some(entries@[6].1));
        assert(json_member(v, entries@[7].0@) == Some(entries@[7].1));
        assert(json_member(v, entries@[8].0@) == Some(entries@[8].1));
        assert(json_member(v, entries@[9].0@) == Some(entries@[9].1));
        assert(json_member(v, entries@[10].0@) == Some(entries@[10].1));
    }
    v
}

/// The names of the values of a state, in the order in which they are
/// written.
pub open spec fn state_names() -> Seq<Seq<char>> {
    seq![
        "int_status"@,
        "int_enable"@,
        "ac_online"@,
        "status"@,
        "health"@,
        "present"@,
        "capacity"@,
        "voltage"@,
        "current"@,
        "charge_counter"@,
        "charge_full"@,
    ]
}

/// No two values of a state have one name.
pub proof fn lemma_state_names_differ()
    ensures
        forall|i: int, j: int|
            0 <= i < j < state_names().len() ==> state_names()[i] != state_names()[j],
{
    reveal_strlit("int_status");
    reveal_strlit("int_enable");
    reveal_strlit("ac_online");
    reveal_strlit("status");
    reveal_strlit("health");
    reveal_strlit("present");
    reveal_strlit("capacity");
    reveal_strlit("voltage");
    reveal_strlit("current");
    reveal_strlit("charge_counter");
    reveal_strlit("charge_full");
    let names = state_names();
    // Each name is told from the others by its length and two letters.
    assert forall|i: int, j: int| 0 <= i < j < names.len() implies names[i] != names[j] by {
        let a = names[i];
        let b = names[j];
        if a.len() == b.len() {
            assert(a[0] != b[0] || a[4] != b[4]);
        }
    }
}

/// The state that the document `v` holds, if it holds each value of one.
pub fn state_of_document(v: &serde_json::Value) -> (state: Option<GoldfishBatteryState>)
    ensures
        state == spec_state_of_document(*v),
{
    if !fields_fit(v, 11) {
        return None;
    }
    let int_status = field_u32(v, "int_status", 0);
    let int_enable = field_u32(v, "int_enable", 1);
    let ac_online = field_u32(v, "ac_online", 2);
    let status = field_u32(v, "status", 3);
    let health = field_u32(v, "health", 4);
    let present = field_u32(v, "present", 5);
    let capacity = field_u32(v, "capacity", 6);
    let voltage = field_u32(v, "voltage", 7);
    let current = field_u32(v, "current", 8);
    let charge_counter = field_u32(v, "charge_counter", 9);
    let charge_full = field_u32(v, "charge_full", 10);
    match (
        int_status,
        int_enable,
        ac_online,
        status,
        health,
        present,
        capacity,
        voltage,
        current,
        charge_counter,
        charge_full,
    ) {
        (
            Some(int_status),
            Some(int_enable),
            Some(ac_online),
            Some(status),
            Some(health),
            Some(present),
            Some(capacity),
            Some(voltage),
            Some(current),
            Some(charge_counter),
            Some(charge_full),
        ) => Some(
            GoldfishBatteryState {
                int_status,
                int_enable,
                ac_online,
                status,
                health,
                present,
                capacity,
                voltage,
                current,
                charge_counter,
                charge_full,
            },
        ),
        _ => None,
    }
}

/// The document that holds `snapshot`. It reads back as `snapshot`.
pub fn snapshot_document(snapshot: &GoldfishBatterySnapshot) -> (v: serde_json::Value)
    ensures
        v == spec_snapshot_document(*snapshot),
        spec_snapshot_of_document(v) == Some(*snapshot),
{
    let mut entries: Vec<(String, serde_json::Value)> = Vec::new();
    entries.push(("state".to_owned(), state_document(&snapshot.state)));
    entries.push(("mmio_base".to_owned(), number(snapshot.mmio_base as u64)));
    entries.push(("irq_num".to_owned(), number(snapshot.irq_num as u64)));
    entries.push(("activated".to_owned(), boolean(snapshot.activated)));
    let ghost listed = entry_views(entries@);
    proof {
        reveal_strlit("state");
        reveal_strlit("mmio_base");
        reveal_strlit("irq_num");
        reveal_strlit("activated");
        assert(listed =~= seq![
            ("state"@, spec_state_document(snapshot.state)),
            ("mmio_base"@, json_number(snapshot.mmio_base as u64)),
            ("irq_num"@, json_number(snapshot.irq_num as u64)),
            ("activated"@, json_boolean(snapshot.activated)),
        ]);
        assert forall|i: int| 0 <= i < listed.len() implies last_of_its_name(listed, i) by {
            assert forall|j: int| i < j < listed.len() implies (#[trigger] listed[j]).0
                != listed[i].0 by {
                assert(listed[i].0.len() != listed[j].0.len() || listed[i].0[0] != listed[j].0[0]);
            }
        }
    }
    assert(names_differ(listed));
    let v = object(entries);
    proof {
        assert(json_member(v, entries@[0].0@) == Some(entries@[0].1));
        assert(json_member(v, entries@[1].0@) == Some(entries@[1].1));
        assert(json_member(v, entries@[2].0@) == Some(entries@[2].1));
        assert(json_member(v, entries@[3].0@) == Some(entries@[3].1));
    }
    v
}

/// The snapshot that the document `v` holds, if it holds each part of one.
pub fn snapshot_of_document(v: &serde_json::Value) -> (snapshot: Option<GoldfishBatterySnapshot>)
    ensures
        snapshot == spec_snapshot_of_document(*v),
{
    let state = match field(v, "state", 0) {
        Some(document) => state_of_document(document),
        None => {
            return None;
        },
    };
    if !fields_fit(v, 4) {
        return None;
    }
    let mmio_base = field_u32(v, "mmio_base", 1);
    let irq_num = field_u32(v, "irq_num", 2);
    let activated = field_bool(v, "activated", 3);
    match (state, mmio_base, irq_num, activated) {
        (Some(state), Some(mmio_base), Some(irq_num), Some(activated)) => Some(
            GoldfishBatterySnapshot { state, mmio_base, irq_num, activated },
        ),
        _ => None,
    }
}

impl GoldfishBattery {
    /// What the guest can read.
    pub closed spec fn spec_state(&self) -> GoldfishBatteryState {
        self.state
    }

    /// What is saved of the device.
    pub closed spec fn spec_snapshot(&self) -> GoldfishBatterySnapshot {
        GoldfishBatterySnapshot {
            state: self.state,
            mmio_base: self.mmio_base,
            irq_num: self.irq_num,
            activated: self.activated,
        }
    }

    /// The channel for commands, until a monitor has taken it.
    pub closed spec fn spec_tube(&self) -> Option<RawDescriptor> {
        self.tube
    }

    /// The channel on which the monitor listens, while one runs.
    pub closed spec fn spec_monitor(&self) -> Option<RawDescriptor> {
        self.monitor
    }

    /// A battery whose registers start at `mmio_base`, with the interrupt
    /// `irq_num`, that takes its commands from `tube`. The registers must lie
    /// below 4 GiB.
    pub fn new(mmio_base: u64, irq_num: u32, tube: RawDescriptor) -> (r: Result<Self, BatteryError>)
        ensures
            match r {
                Ok(battery) => {
                    &&& mmio_base + GOLDFISHBAT_MMIO_LEN - 1 <= u32::MAX
                    &&& battery.spec_snapshot() == (GoldfishBatterySnapshot {
                        state: GoldfishBatteryState::spec_new(),
                        mmio_base: mmio_base as u32,
                        irq_num,
                        activated: false,
                    })
                    &&& battery.spec_tube() == Some(tube)
                    &&& battery.spec_monitor() is None
                },
                Err(e) => e == BatteryError::Non32BitMmioAddress && mmio_base + GOLDFISHBAT_MMIO_LEN
                    - 1 > u32::MAX,
            },
    {
        if mmio_base > u32::MAX as u64 - (GOLDFISHBAT_MMIO_LEN - 1) {
            return Err(BatteryError::Non32BitMmioAddress);
        }
        Ok(
            GoldfishBattery {
                state: GoldfishBatteryState::new(),
                mmio_base: mmio_base as u32,
                irq_num,
                activated: false,
                tube: Some(tube),
                monitor: None,
            },
        )
    }

    /// What the guest can read.
    pub fn state(&self) -> (state: GoldfishBatteryState)
        ensures
            state == self.spec_state(),
    {
        self.state
    }

    /// The channel on which the monitor listens, while one runs. Whoever
    /// runs the device starts or stops the monitor to match.
    pub fn monitor(&self) -> (monitor: Option<RawDescriptor>)
        ensures
            monitor == self.spec_monitor(),
    {
        self.monitor
    }

    /// The descriptors that the process of the battery keeps: the two of
    /// its interrupt, and its channel while no monitor has taken it.
    pub fn keep_rds(&self, irq_trigger: RawDescriptor, irq_resample: RawDescriptor) -> (rds: Vec<
        RawDescriptor,
    >)
        ensures
            rds@ == seq![irq_trigger, irq_resample] + match self.spec_tube() {
                Some(tube) => seq![tube],
                None => Seq::empty(),
            },
    {
        let mut rds: Vec<RawDescriptor> = Vec::new();
        rds.push(irq_trigger);
        rds.push(irq_resample);
        if let Some(tube) = self.tube {
            rds.push(tube);
        }
        assert(rds@ =~= seq![irq_trigger, irq_resample] + match self.spec_tube() {
            Some(tube) => seq![tube],
            None => Seq::empty(),
        });
        rds
    }

    /// What starting the monitor does to the device: a device that is not
    /// activated and still has its channel hands the channel to the monitor
    /// and is activated; any other stays as it is.
    pub open spec fn spec_start_monitor(
        activated: bool,
        tube: Option<RawDescriptor>,
        monitor: Option<RawDescriptor>,
    ) -> (bool, Option<RawDescriptor>, Option<RawDescriptor>) {
        if !activated && tube is Some {
            (true, None, tube)
        } else {
            (activated, tube, monitor)
        }
    }

    /// Starts the monitor that listens for commands and for news of the
    /// host, unless the device is activated already or has no channel left.
    pub fn start_monitor(&mut self)
        ensures
            (final(self).spec_snapshot().activated, final(self).spec_tube(), final(self).spec_monitor()) == Self::spec_start_monitor(
                old(self).spec_snapshot().activated,
                old(self).spec_tube(),
                old(self).spec_monitor(),
            ),
            final(self).spec_state() == old(self).spec_state(),
            final(self).spec_snapshot().mmio_base == old(self).spec_snapshot().mmio_base,
            final(self).spec_snapshot().irq_num == old(self).spec_snapshot().irq_num,
    {
        if self.activated {
            return ;
        }
        if let Some(tube) = self.tube {
            self.tube = None;
            self.monitor = Some(tube);
            self.activated = true;
        }
    }

    /// Carries out a command, and says whether the guest is to be
    /// interrupted.
    pub fn apply_command(&mut self, command: BatControlCommand) -> (interrupt: bool)
        ensures
            (final(self).spec_state(), interrupt) == old(self).spec_state().spec_apply_command(
                command,
            ),
            final(self).spec_tube() == old(self).spec_tube(),
            final(self).spec_monitor() == old(self).spec_monitor(),
            final(self).spec_snapshot().mmio_base == old(self).spec_snapshot().mmio_base,
            final(self).spec_snapshot().irq_num == old(self).spec_snapshot().irq_num,
            final(self).spec_snapshot().activated == old(self).spec_snapshot().activated,
    {
        self.state.apply_command(command)
    }

    /// Takes over what the host reported, and says whether the guest is to
    /// be interrupted.
    pub fn apply_power_data(&mut self, data: PowerData) -> (interrupt: bool)
        ensures
            (final(self).spec_state(), interrupt) == old(self).spec_state().spec_apply_power_data(
                data,
            ),
            final(self).spec_tube() == old(self).spec_tube(),
            final(self).spec_monitor() == old(self).spec_monitor(),
            final(self).spec_snapshot().mmio_base == old(self).spec_snapshot().mmio_base,
            final(self).spec_snapshot().irq_num == old(self).spec_snapshot().irq_num,
            final(self).spec_snapshot().activated == old(self).spec_snapshot().activated,
    {
        self.state.apply_power_data(data)
    }
}

/// What the guest reads with `len` bytes at `offset`: the four bytes of the
/// register, the lowest first; or nothing where there is no register or the
/// read is not one of four bytes.
pub open spec fn spec_battery_read(state: GoldfishBatteryState, offset: u64, len: nat) -> Option<
    Seq<u8>,
> {
    if len != 4 {
        None
    } else {
        match state.spec_register(offset as u32) {
            Some(value) => Some(spec_u32_to_le_bytes(value)),
            None => None,
        }
    }
}

impl BusDevice for GoldfishBattery {
    fn debug_label(&self) -> (label: String)
        ensures
            label@ == "GoldfishBattery"@,
    {
        "GoldfishBattery".to_owned()
    }

    /// Reads a register. A read that is not one of four bytes, or hits no
    /// register, leaves `data` as it is.
    fn read(&mut self, info: BusAccessInfo, data: &mut [u8])
        ensures
            final(data)@ == match spec_battery_read(
                old(self).spec_state(),
                info.offset,
                old(data)@.len(),
            ) {
                Some(bytes) => bytes,
                None => old(data)@,
            },
            final(self).spec_state() == if old(data)@.len() == 4 && info.offset as u32
                == BATTERY_INT_STATUS {
                GoldfishBatteryState { int_status: 0, ..old(self).spec_state() }
            } else {
                old(self).spec_state()
            },
            final(self).spec_tube() == old(self).spec_tube(),
            final(self).spec_monitor() == old(self).spec_monitor(),
            final(self).spec_snapshot().mmio_base == old(self).spec_snapshot().mmio_base,
            final(self).spec_snapshot().irq_num == old(self).spec_snapshot().irq_num,
            final(self).spec_snapshot().activated == old(self).spec_snapshot().activated,
    {
        if data.len() != 4 {
            return ;
        }
        let val = match self.state.read_register(info.offset as u32) {
            Some(val) => val,
            None => {
                return ;
            },
        };
        let val_arr = u32_to_le_bytes(val);
        proof {
            vstd::bytes::lemma_auto_spec_u32_to_from_le_bytes();
        }
        let mut i: usize = 0;
        while i < 4
            invariant
                i <= 4,
                data@.len() == 4,
                val_arr@.len() == 4,
                forall|j: int| 0 <= j < i ==> data@[j] == val_arr@[j],
            decreases 4 - i,
        {
            data[i] = val_arr[i];
            i += 1;
        }
        assert(data@ =~= val_arr@);
    }

    /// Writes a register. Only which interrupts the guest wants can be
    /// written; asking for one starts the monitor. A write that is not one of
    /// four bytes, or to another register, changes nothing.
    fn write(&mut self, info: BusAccessInfo, data: &[u8])
        ensures
            if data@.len() == 4 && info.offset as u32 == BATTERY_INT_ENABLE {
                let val = spec_u32_from_le_bytes(data@);
                &&& final(self).spec_state() == (GoldfishBatteryState {
                    int_enable: val,
                    ..old(self).spec_state()
                })
                &&& (final(self).spec_snapshot().activated, final(self).spec_tube(), final(self).spec_monitor()) == if (val & BATTERY_INT_MASK) != 0 {
                    Self::spec_start_monitor(
                        old(self).spec_snapshot().activated,
                        old(self).spec_tube(),
                        old(self).spec_monitor(),
                    )
                } else {
                    (old(self).spec_snapshot().activated, old(self).spec_tube(), old(self).spec_monitor())
                }
            } else {
                &&& final(self).spec_state() == old(self).spec_state()
                &&& final(self).spec_snapshot().activated == old(self).spec_snapshot().activated
                &&& final(self).spec_tube() == old(self).spec_tube()
                &&& final(self).spec_monitor() == old(self).spec_monitor()
            },
            final(self).spec_snapshot().mmio_base == old(self).spec_snapshot().mmio_base,
            final(self).spec_snapshot().irq_num == old(self).spec_snapshot().irq_num,
    {
        if data.len() != 4 {
            return ;
        }
        let val = u32_from_le_bytes(data);
        match info.offset as u32 {
            BATTERY_INT_ENABLE => {
                self.state.int_enable = val;
                if (val & BATTERY_INT_MASK) != 0 && !self.activated {
                    self.start_monitor();
                }
            },
            _ => {},
        };
    }
}

impl Suspendable for GoldfishBattery {
    /// Stops the monitor.
    fn sleep(&mut self) -> (r: Result<(), String>)
        ensures
            r is Ok,
            final(self).spec_monitor() is None,
            final(self).spec_snapshot() == old(self).spec_snapshot(),
            final(self).spec_tube() == old(self).spec_tube(),
    {
        self.monitor = None;
        Ok(())
    }

    /// Starts the monitor again, where the device was activated and still
    /// has its channel.
    fn wake(&mut self) -> (r: Result<(), String>)
        ensures
            r is Ok,
            final(self).spec_state() == old(self).spec_state(),
            (final(self).spec_snapshot().activated, final(self).spec_tube(), final(self).spec_monitor()) == if old(self).spec_snapshot().activated {
                Self::spec_start_monitor(false, old(self).spec_tube(), old(self).spec_monitor())
            } else {
                (false, old(self).spec_tube(), old(self).spec_monitor())
            },
    {
        if self.activated {
            // Not activated, so that the monitor can be started again.
            self.activated = false;
            self.start_monitor();
        }
        Ok(())
    }

    /// Saves the state of the device in a document that reads back as that
    /// state.
    fn snapshot(&mut self) -> (r: Result<serde_json::Value, String>)
        ensures
            r == Ok::<serde_json::Value, String>(spec_snapshot_document(old(self).spec_snapshot())),
            spec_snapshot_of_document(r->Ok_0) == Some(old(self).spec_snapshot()),
            final(self).spec_snapshot() == old(self).spec_snapshot(),
            final(self).spec_tube() == old(self).spec_tube(),
            final(self).spec_monitor() == old(self).spec_monitor(),
    {
        let snapshot = GoldfishBatterySnapshot {
            state: self.state,
            mmio_base: self.mmio_base,
            irq_num: self.irq_num,
            activated: self.activated,
        };
        Ok(snapshot_document(&snapshot))
    }

    /// Loads the state that `data` holds. A document that holds no state
    /// leaves the device as it is.
    fn restore(&mut self, data: serde_json::Value) -> (r: Result<(), String>)
        ensures
            match spec_snapshot_of_document(data) {
                Some(snapshot) => r is Ok && final(self).spec_snapshot() == snapshot,
                None => (r matches Err(e) && e@ == spec_restore_failure()) && final(self).spec_snapshot() == old(self).spec_snapshot(),
            },
            final(self).spec_tube() == old(self).spec_tube(),
            final(self).spec_monitor() == old(self).spec_monitor(),
    {
        match snapshot_of_document(&data) {
            Some(deser) => {
                self.state = deser.state;
                self.mmio_base = deser.mmio_base;
                self.irq_num = deser.irq_num;
                self.activated = deser.activated;
                Ok(())
            },
            None => Err("failed to deserialize GoldfishBattery".to_owned()),
        }
    }
}

} // verus!
