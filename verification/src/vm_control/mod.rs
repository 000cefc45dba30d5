//! The messages by which a virtual machine is controlled while it runs:
//! requests to the main process and to its devices, and their responses.
//!
//! Descriptors travel in these messages by their number, paths as text.

pub mod execute;
pub mod irq;
pub mod memory;
pub mod request;
pub mod suspend;

use vstd::prelude::*;
use crate::bus::RawDescriptor;
use crate::errno::Error;
use crate::text::decimal;
use crate::text::hex_digit;
use crate::text::spec_hex_digit;
use crate::text::parse_u32;
use crate::text::spec_decimal;
use crate::text::spec_parse_u32;
use crate::text::str_eq;

verus! {

/// The most devices that one list of USB devices names.
pub const USB_CONTROL_MAX_PORTS: usize = 16;

/// The number of a memory slot of the hypervisor.
pub type MemSlot = u32;

/// How the processors of the machine run.
#[derive(Clone, Copy, Debug, PartialEq, Eq, Structural)]
pub enum VmRunMode {
    /// The processors run. This is where a machine starts.
    Running,
    /// The processors stop until they are told to run.
    Suspending,
    /// The machine is leaving.
    Exiting,
    /// The machine stands at a breakpoint and waits for the debugger.
    Breakpoint,
}

impl Default for VmRunMode {
    fn default() -> (mode: VmRunMode)
        ensures
            mode == VmRunMode::Running,
    {
        VmRunMode::Running
    }
}

impl VmRunMode {
    /// The name of the mode.
    pub open spec fn spec_to_string(self) -> Seq<char> {
        match self {
            VmRunMode::Running => "running"@,
            VmRunMode::Suspending => "suspending"@,
            VmRunMode::Exiting => "exiting"@,
            VmRunMode::Breakpoint => "breakpoint"@,
        }
    }

    /// The name of the mode.
    pub fn to_string(&self) -> (s: String)
        ensures
            s@ == self.spec_to_string(),
    {
        match self {
            VmRunMode::Running => "running".to_owned(),
            VmRunMode::Suspending => "suspending".to_owned(),
            VmRunMode::Exiting => "exiting".to_owned(),
            VmRunMode::Breakpoint => "breakpoint".to_owned(),
        }
    }
}

/// A device that is told when its general-purpose event fires.
pub trait GpeNotify {
    /// The event fired.
    fn notify(&mut self);
}

/// A device that is told of power-management events on PCI.
pub trait PmeNotify {
    /// The function `requester_id` raised an event.
    fn notify(&mut self, requester_id: u16);
}

/// What manages the power of the machine. Whatever it does not offer does
/// nothing.
pub trait PmResource {
    /// The power button was pressed.
    fn pwrbtn_evt(&mut self) {
    }

    /// The sleep button was pressed.
    fn slpbtn_evt(&mut self) {
    }

    /// The clock raised its interrupt.
    fn rtc_evt(&mut self) {
    }

    /// The general-purpose event `gpe` fired.
    fn gpe_evt(&mut self, _gpe: u32) {
    }

    /// The function `requester_id` of PCI raised a power-management event.
    fn pme_evt(&mut self, _requester_id: u16) {
    }

    /// From now on `notify_dev` is told when the general-purpose event
    /// `gpe` fires.
    fn register_gpe_notify_dev<N: GpeNotify>(&mut self, _gpe: u32, _notify_dev: N) {
    }

    /// From now on `notify_dev` is told of power-management events on the
    /// bus `bus`.
    fn register_pme_notify_dev<N: PmeNotify>(&mut self, _bus: u8, _notify_dev: N) {
    }
}

/// A command to a disk.
#[derive(Debug)]
pub enum DiskControlCommand {
    /// Resize the disk to `new_size` bytes.
    Resize { new_size: u64 },
}

impl DiskControlCommand {
    /// The command in words.
    pub open spec fn spec_to_string(self) -> Seq<char> {
        match self {
            DiskControlCommand::Resize { new_size } => "disk_resize "@ + spec_decimal(new_size as nat),
        }
    }

    /// The command in words.
    pub fn to_string(&self) -> (s: String)
        ensures
            s@ == self.spec_to_string(),
    {
        match self {
            DiskControlCommand::Resize { new_size } => {
                let mut s = "disk_resize ".to_owned();
                s.push_str(decimal(*new_size).as_str());
                s
            },
        }
    }
}

/// What a disk answers to a command.
#[derive(Clone, Copy, Debug, PartialEq, Eq, Structural)]
pub enum DiskControlResult {
    Done,
    Failed(Error),
}

/// A command that adds or removes a tap device.
#[derive(Debug)]
pub enum NetControlCommand {
    AddTap(String),
    RemoveTap(u8),
}

/// A command to the USB controller.
#[derive(Debug)]
pub enum UsbControlCommand {
    AttachDevice { file: RawDescriptor },
    DetachDevice { port: u8 },
    ListDevice { ports: [u8; 16] },
}

/// One USB device that is attached to the machine.
#[derive(Clone, Copy, Debug, PartialEq, Eq, Structural)]
pub struct UsbControlAttachedDevice {
    pub port: u8,
    pub vendor_id: u16,
    pub product_id: u16,
}

impl Default for UsbControlAttachedDevice {
    fn default() -> (d: UsbControlAttachedDevice)
        ensures
            d == (UsbControlAttachedDevice { port: 0, vendor_id: 0, product_id: 0 }),
    {
        UsbControlAttachedDevice { port: 0, vendor_id: 0, product_id: 0 }
    }
}

impl UsbControlAttachedDevice {
    /// Whether the entry names a device: port 0 marks an empty entry.
    pub fn valid(self) -> (b: bool)
        ensures
            b == (self.port != 0),
    {
        self.port != 0
    }
}

/// What came of plugging a PCI device in or out.
#[derive(Debug)]
#[must_use]
pub enum PciControlResult {
    AddOk { bus: u8 },
    ErrString(String),
    RemoveOk,
}

impl PciControlResult {
    /// The result in words.
    pub open spec fn spec_to_string(self) -> Seq<char> {
        match self {
            PciControlResult::AddOk { bus } => "add_ok "@ + spec_decimal(bus as nat),
            PciControlResult::ErrString(e) => "error: "@ + e@,
            PciControlResult::RemoveOk => "remove_ok"@,
        }
    }

    /// The result in words.
    pub fn to_string(&self) -> (s: String)
        ensures
            s@ == self.spec_to_string(),
    {
        match self {
            PciControlResult::AddOk { bus } => {
                let mut s = "add_ok ".to_owned();
                s.push_str(decimal(*bus as u64).as_str());
                s
            },
            PciControlResult::ErrString(e) => {
                let mut s = "error: ".to_owned();
                s.push_str(e.as_str());
                s
            },
            PciControlResult::RemoveOk => "remove_ok".to_owned(),
        }
    }
}

/// What the USB controller answers to a command.
#[derive(Debug)]
pub enum UsbControlResult {
    Done { port: u8 },
    NoAvailablePort,
    NoSuchDevice,
    NoSuchPort,
    FailedToOpenDevice,
    Devices([UsbControlAttachedDevice; 16]),
    FailedToInitHostDevice,
}

/// `v` in four hexadecimal digits, in lower case.
pub open spec fn spec_hex4(v: u16) -> Seq<char> {
    seq![
        spec_hex_digit((v / 4096) as nat),
        spec_hex_digit(((v / 256) % 16) as nat),
        spec_hex_digit(((v / 16) % 16) as nat),
        spec_hex_digit((v % 16) as nat),
    ]
}

/// Writes `v` in four hexadecimal digits at the end of `s`.
pub fn push_hex4(s: &mut String, v: u16)
    ensures
        final(s)@ == old(s)@ + spec_hex4(v),
{
    s.push(hex_digit((v / 4096) as u64));
    s.push(hex_digit(((v / 256) % 16) as u64));
    s.push(hex_digit(((v / 16) % 16) as u64));
    s.push(hex_digit((v % 16) as u64));
    assert(s@ =~= old(s)@ + spec_hex4(v));
}

/// The text of one device in a list: a blank, its port, and its two
/// identifiers in four hexadecimal digits each.
pub open spec fn spec_device_text(d: UsbControlAttachedDevice) -> Seq<char> {
    " "@ + spec_decimal(d.port as nat) + " "@ + spec_hex4(d.vendor_id) + " "@ + spec_hex4(
        d.product_id,
    )
}

/// The texts of the devices of `devices` that are valid, one after the
/// other.
pub open spec fn spec_devices_text(devices: Seq<UsbControlAttachedDevice>) -> Seq<char>
    decreases devices.len(),
{
    if devices.len() == 0 {
        Seq::empty()
    } else {
        spec_devices_text(devices.drop_last()) + if devices.last().port != 0 {
            spec_device_text(devices.last())
        } else {
            Seq::empty()
        }
    }
}

impl UsbControlResult {
    /// The result in words. A list of devices names those of its entries
    /// that are valid.
    pub open spec fn spec_to_string(self) -> Seq<char> {
        match self {
            UsbControlResult::Done { port } => "ok "@ + spec_decimal(port as nat),
            UsbControlResult::NoAvailablePort => "no_available_port"@,
            UsbControlResult::NoSuchDevice => "no_such_device"@,
            UsbControlResult::NoSuchPort => "no_such_port"@,
            UsbControlResult::FailedToOpenDevice => "failed_to_open_device"@,
            UsbControlResult::Devices(devices) => "devices"@ + spec_devices_text(devices@),
            UsbControlResult::FailedToInitHostDevice => "failed_to_init_host_device"@,
        }
    }

    /// The result in words.
    pub fn to_string(&self) -> (s: String)
        ensures
            s@ == self.spec_to_string(),
    {
        match self {
            UsbControlResult::Done { port } => {
                let mut s = "ok ".to_owned();
                s.push_str(decimal(*port as u64).as_str());
                s
            },
            UsbControlResult::NoAvailablePort => "no_available_port".to_owned(),
            UsbControlResult::NoSuchDevice => "no_such_device".to_owned(),
            UsbControlResult::NoSuchPort => "no_such_port".to_owned(),
            UsbControlResult::FailedToOpenDevice => "failed_to_open_device".to_owned(),
            UsbControlResult::Devices(devices) => {
                let mut s = "devices".to_owned();
                let mut i: usize = 0;
                assert(devices@.subrange(0, 0) =~= Seq::<UsbControlAttachedDevice>::empty());
                assert(s@ =~= "devices"@ + spec_devices_text(devices@.subrange(0, 0)));
                while i < 16
                    invariant
                        i <= 16,
                        devices@.len() == 16,
                        s@ == "devices"@ + spec_devices_text(devices@.subrange(0, i as int)),
                    decreases 16 - i,
                {
                    let d = devices[i];
                    let ghost before = s@;
                    assert(devices@.subrange(0, i + 1).drop_last() =~= devices@.subrange(
                        0,
                        i as int,
                    ));
                    if d.valid() {
                        s.push_str(" ");
                        s.push_str(decimal(d.port as u64).as_str());
                        s.push_str(" ");
                        push_hex4(&mut s, d.vendor_id);
                        s.push_str(" ");
                        push_hex4(&mut s, d.product_id);
                        assert(s@ =~= before + spec_device_text(d));
                    }
                    assert(s@ =~= "devices"@ + spec_devices_text(devices@.subrange(0, i + 1)));
                    i += 1;
                }
                assert(devices@.subrange(0, 16) =~= devices@);
                s
            },
            UsbControlResult::FailedToInitHostDevice => "failed_to_init_host_device".to_owned(),
        }
    }
}

/// A command to the snapshot of the machine.
#[derive(Debug)]
pub enum SnapshotCommand {
    Take { snapshot_path: String },
}

/// A command to restore the machine.
#[derive(Debug)]
pub enum RestoreCommand {
    Apply { restore_path: String },
}

/// A command to the devices and to the thread that controls them.
#[derive(Debug)]
pub enum DeviceControlCommand {
    SleepDevices,
    WakeDevices,
    SnapshotDevices { snapshot_path: String },
    RestoreDevices { restore_path: String },
    GetDevicesState,
    Exit,
}

/// A command to the thread that handles interrupts.
#[derive(Debug)]
pub enum IrqHandlerRequest {
    /// More channels to listen on. Nothing is answered.
    AddIrqControlTubes(Vec<RawDescriptor>),
    /// The events of the interrupt chip changed: take them anew.
    RefreshIrqEventTokens,
    /// Run once and say how much was served.
    WakeAndNotifyIteration,
    /// Leave. Nothing is answered.
    Exit,
}

/// What the thread that handles interrupts answers.
#[derive(Clone, Copy, Debug, PartialEq, Eq, Structural)]
pub enum IrqHandlerResponse {
    /// The events were taken anew.
    IrqEventTokenRefreshComplete,
    /// So many events were served in the round that was asked for.
    HandlerIterationComplete(usize),
}

/// Where the memory of a mapping comes from.
#[derive(Debug)]
pub enum VmMemorySource {
    /// Shared memory of `size` bytes.
    SharedMemory { descriptor: RawDescriptor, size: u64 },
    /// `size` bytes of a file, from `offset` on.
    Descriptor { descriptor: RawDescriptor, offset: u64, size: u64 },
    /// Memory that the graphics driver mapped.
    Vulkan {
        descriptor: RawDescriptor,
        handle_type: u32,
        memory_idx: u32,
        device_uuid: [u8; 16],
        driver_uuid: [u8; 16],
        size: u64,
    },
    /// A mapping that exists already.
    ExternalMapping { ptr: u64, size: u64 },
}

impl VmMemorySource {
    /// How many bytes the source holds.
    pub fn size(&self) -> (size: u64)
        ensures
            size == match *self {
                VmMemorySource::SharedMemory { size, .. } => size,
                VmMemorySource::Descriptor { size, .. } => size,
                VmMemorySource::Vulkan { size, .. } => size,
                VmMemorySource::ExternalMapping { size, .. } => size,
            },
    {
        match self {
            VmMemorySource::SharedMemory { size, .. } => *size,
            VmMemorySource::Descriptor { size, .. } => *size,
            VmMemorySource::Vulkan { size, .. } => *size,
            VmMemorySource::ExternalMapping { size, .. } => *size,
        }
    }
}

/// The name of a registered region of memory: the number of its first page.
#[derive(Clone, Copy, Debug, PartialEq, Eq, Structural)]
pub struct VmMemoryRegionId(pub u64);

/// The bits of an address inside a page.
pub const PAGE_SHIFT: u64 = 12;

impl VmMemoryRegionId {
    /// The name of the region that starts at `guest_address`.
    pub fn from_guest_address(guest_address: u64) -> (id: VmMemoryRegionId)
        ensures
            id.0 == guest_address / 4096,
    {
        assert(guest_address >> 12 == guest_address / 4096) by (bit_vector);
        VmMemoryRegionId(guest_address >> 12)
    }
}

/// What a request about memory is answered with.
#[derive(Clone, Copy, Debug, PartialEq, Eq, Structural)]
pub enum VmMemoryResponse {
    /// The memory was registered under this name.
    RegisterMemory(VmMemoryRegionId),
    Done,
    Failed(Error),
}

/// A request about interrupts.
#[derive(Debug)]
pub enum VmIrqRequest {
    /// Take a free interrupt number and tie it to `irqfd`.
    AllocateOneMsi { irqfd: RawDescriptor, device_id: u32, queue_id: usize, device_name: String },
    /// Tie the number `gsi`, which is known to be free, to `irqfd`.
    AllocateOneMsiAtGsi {
        irqfd: RawDescriptor,
        gsi: u32,
        device_id: u32,
        queue_id: usize,
        device_name: String,
    },
    /// Add a route to the interrupt chip.
    AddMsiRoute { gsi: u32, msi_address: u64, msi_data: u32 },
    /// Untie `irqfd` and give the number back.
    ReleaseOneIrq { gsi: u32, irqfd: RawDescriptor },
}

/// What a request about interrupts is answered with.
#[derive(Clone, Copy, Debug, PartialEq, Eq, Structural)]
pub enum VmIrqResponse {
    AllocateOneMsi { gsi: u32 },
    Done,
    Failed(Error),
}

/// Whether the devices sleep or are awake.
#[derive(Clone, Copy, Debug, PartialEq, Eq, Structural)]
pub enum DevicesState {
    Sleep,
    Wake,
}

/// What a command to the battery is answered with.
#[derive(Clone, Copy, Debug, PartialEq, Eq, Structural)]
pub enum BatControlResult {
    Done,
    NoBatDevice,
    NoSuchHealth,
    NoSuchProperty,
    NoSuchStatus,
    NoSuchBatType,
    StringParseIntErr,
}

impl BatControlResult {
    /// The result in words.
    pub open spec fn spec_to_string(self) -> Seq<char> {
        match self {
            BatControlResult::Done => "Setting battery property successfully"@,
            BatControlResult::NoBatDevice => "No battery device created"@,
            BatControlResult::NoSuchHealth => "Invalid Battery health setting. Only support: unknown/good/overheat/dead/overvoltage/unexpectedfailure/cold/watchdogtimerexpire/safetytimerexpire/overcurrent"@,
            BatControlResult::NoSuchProperty => "Battery doesn't have such property. Only support: status/health/present/capacity/aconline"@,
            BatControlResult::NoSuchStatus => "Invalid Battery status setting. Only support: unknown/charging/discharging/notcharging/full"@,
            BatControlResult::NoSuchBatType => "Invalid Battery type setting. Only support: goldfish"@,
            BatControlResult::StringParseIntErr => "Battery property target ParseInt error"@,
        }
    }

    /// The result in words.
    pub fn to_string(&self) -> (s: String)
        ensures
            s@ == self.spec_to_string(),
    {
        match self {
            BatControlResult::Done => "Setting battery property successfully".to_owned(),
            BatControlResult::NoBatDevice => "No battery device created".to_owned(),
            BatControlResult::NoSuchHealth => "Invalid Battery health setting. Only support: unknown/good/overheat/dead/overvoltage/unexpectedfailure/cold/watchdogtimerexpire/safetytimerexpire/overcurrent".to_owned(),
            BatControlResult::NoSuchProperty => "Battery doesn't have such property. Only support: status/health/present/capacity/aconline".to_owned(),
            BatControlResult::NoSuchStatus => "Invalid Battery status setting. Only support: unknown/charging/discharging/notcharging/full".to_owned(),
            BatControlResult::NoSuchBatType => "Invalid Battery type setting. Only support: goldfish".to_owned(),
            BatControlResult::StringParseIntErr => "Battery property target ParseInt error".to_owned(),
        }
    }
}

/// The kind of a battery.
#[derive(Clone, Copy, Debug, PartialEq, Eq, Structural)]
pub enum BatteryType {
    Goldfish,
}

impl Default for BatteryType {
    fn default() -> (t: BatteryType)
        ensures
            t == BatteryType::Goldfish,
    {
        BatteryType::Goldfish
    }
}

impl BatteryType {
    /// The kind of battery that `s` names.
    pub open spec fn spec_parse(s: Seq<char>) -> Result<BatteryType, BatControlResult> {
        if s == "goldfish"@ {
            Ok(BatteryType::Goldfish)
        } else {
            Err(BatControlResult::NoSuchBatType)
        }
    }

    /// The kind of battery that `s` names.
    pub fn parse(s: &str) -> (r: Result<BatteryType, BatControlResult>)
        ensures
            r == Self::spec_parse(s@),
    {
        if str_eq(s, "goldfish") {
            Ok(BatteryType::Goldfish)
        } else {
            Err(BatControlResult::NoSuchBatType)
        }
    }
}

/// A property of the battery that can be set.
#[derive(Clone, Copy, Debug, PartialEq, Eq, Structural)]
pub enum BatProperty {
    Status,
    Health,
    Present,
    Capacity,
    ACOnline,
}

impl BatProperty {
    /// The property that `s` names.
    pub open spec fn spec_parse(s: Seq<char>) -> Result<BatProperty, BatControlResult> {
        if s == "status"@ {
            Ok(BatProperty::Status)
        } else if s == "health"@ {
            Ok(BatProperty::Health)
        } else if s == "present"@ {
            Ok(BatProperty::Present)
        } else if s == "capacity"@ {
            Ok(BatProperty::Capacity)
        } else if s == "aconline"@ {
            Ok(BatProperty::ACOnline)
        } else {
            Err(BatControlResult::NoSuchProperty)
        }
    }

    /// The property that `s` names.
    pub fn parse(s: &str) -> (r: Result<BatProperty, BatControlResult>)
        ensures
            r == Self::spec_parse(s@),
    {
        if str_eq(s, "status") {
            Ok(BatProperty::Status)
        } else if str_eq(s, "health") {
            Ok(BatProperty::Health)
        } else if str_eq(s, "present") {
            Ok(BatProperty::Present)
        } else if str_eq(s, "capacity") {
            Ok(BatProperty::Capacity)
        } else if str_eq(s, "aconline") {
            Ok(BatProperty::ACOnline)
        } else {
            Err(BatControlResult::NoSuchProperty)
        }
    }
}

/// What the battery is doing.
#[derive(Clone, Copy, Debug, PartialEq, Eq, Structural)]
pub enum BatStatus {
    Unknown,
    Charging,
    DisCharging,
    NotCharging,
    Full,
}

impl BatStatus {
    /// The status that `s` names.
    pub open spec fn spec_parse(s: Seq<char>) -> Result<BatStatus, BatControlResult> {
        if s == "unknown"@ {
            Ok(BatStatus::Unknown)
        } else if s == "charging"@ {
            Ok(BatStatus::Charging)
        } else if s == "discharging"@ {
            Ok(BatStatus::DisCharging)
        } else if s == "notcharging"@ {
            Ok(BatStatus::NotCharging)
        } else if s == "full"@ {
            Ok(BatStatus::Full)
        } else {
            Err(BatControlResult::NoSuchStatus)
        }
    }

    /// The number that the guest reads for the status.
    pub open spec fn spec_value(self) -> u32 {
        match self {
            BatStatus::Unknown => 0,
            BatStatus::Charging => 1,
            BatStatus::DisCharging => 2,
            BatStatus::NotCharging => 3,
            BatStatus::Full => 4,
        }
    }

    /// The status that `status` names.
    pub fn new(status: String) -> (r: Result<BatStatus, BatControlResult>)
        ensures
            r == Self::spec_parse(status@),
    {
        Self::parse(status.as_str())
    }

    /// The status that `s` names.
    pub fn parse(s: &str) -> (r: Result<BatStatus, BatControlResult>)
        ensures
            r == Self::spec_parse(s@),
    {
        if str_eq(s, "unknown") {
            Ok(BatStatus::Unknown)
        } else if str_eq(s, "charging") {
            Ok(BatStatus::Charging)
        } else if str_eq(s, "discharging") {
            Ok(BatStatus::DisCharging)
        } else if str_eq(s, "notcharging") {
            Ok(BatStatus::NotCharging)
        } else if str_eq(s, "full") {
            Ok(BatStatus::Full)
        } else {
            Err(BatControlResult::NoSuchStatus)
        }
    }

    /// The number that the guest reads for the status.
    pub fn value(self) -> (v: u32)
        ensures
            v == self.spec_value(),
    {
        match self {
            BatStatus::Unknown => 0,
            BatStatus::Charging => 1,
            BatStatus::DisCharging => 2,
            BatStatus::NotCharging => 3,
            BatStatus::Full => 4,
        }
    }
}

/// The health of the battery.
#[derive(Clone, Copy, Debug, PartialEq, Eq, Structural)]
pub enum BatHealth {
    Unknown,
    Good,
    Overheat,
    Dead,
    OverVoltage,
    UnexpectedFailure,
    Cold,
    WatchdogTimerExpire,
    SafetyTimerExpire,
    OverCurrent,
}

impl BatHealth {
    /// The health that `s` names.
    pub open spec fn spec_parse(s: Seq<char>) -> Result<BatHealth, BatControlResult> {
        if s == "unknown"@ {
            Ok(BatHealth::Unknown)
        } else if s == "good"@ {
            Ok(BatHealth::Good)
        } else if s == "overheat"@ {
            Ok(BatHealth::Overheat)
        } else if s == "dead"@ {
            Ok(BatHealth::Dead)
        } else if s == "overvoltage"@ {
            Ok(BatHealth::OverVoltage)
        } else if s == "unexpectedfailure"@ {
            Ok(BatHealth::UnexpectedFailure)
        } else if s == "cold"@ {
            Ok(BatHealth::Cold)
        } else if s == "watchdogtimerexpire"@ {
            Ok(BatHealth::WatchdogTimerExpire)
        } else if s == "safetytimerexpire"@ {
            Ok(BatHealth::SafetyTimerExpire)
        } else if s == "overcurrent"@ {
            Ok(BatHealth::OverCurrent)
        } else {
            Err(BatControlResult::NoSuchHealth)
        }
    }

    /// The number that the guest reads for the health.
    pub open spec fn spec_value(self) -> u32 {
        match self {
            BatHealth::Unknown => 0,
            BatHealth::Good => 1,
            BatHealth::Overheat => 2,
            BatHealth::Dead => 3,
            BatHealth::OverVoltage => 4,
            BatHealth::UnexpectedFailure => 5,
            BatHealth::Cold => 6,
            BatHealth::WatchdogTimerExpire => 7,
            BatHealth::SafetyTimerExpire => 8,
            BatHealth::OverCurrent => 9,
        }
    }

    /// The health that `s` names.
    pub fn parse(s: &str) -> (r: Result<BatHealth, BatControlResult>)
        ensures
            r == Self::spec_parse(s@),
    {
        if str_eq(s, "unknown") {
            Ok(BatHealth::Unknown)
        } else if str_eq(s, "good") {
            Ok(BatHealth::Good)
        } else if str_eq(s, "overheat") {
            Ok(BatHealth::Overheat)
        } else if str_eq(s, "dead") {
            Ok(BatHealth::Dead)
        } else if str_eq(s, "overvoltage") {
            Ok(BatHealth::OverVoltage)
        } else if str_eq(s, "unexpectedfailure") {
            Ok(BatHealth::UnexpectedFailure)
        } else if str_eq(s, "cold") {
            Ok(BatHealth::Cold)
        } else if str_eq(s, "watchdogtimerexpire") {
            Ok(BatHealth::WatchdogTimerExpire)
        } else if str_eq(s, "safetytimerexpire") {
            Ok(BatHealth::SafetyTimerExpire)
        } else if str_eq(s, "overcurrent") {
            Ok(BatHealth::OverCurrent)
        } else {
            Err(BatControlResult::NoSuchHealth)
        }
    }

    /// The number that the guest reads for the health.
    pub fn value(self) -> (v: u32)
        ensures
            v == self.spec_value(),
    {
        match self {
            BatHealth::Unknown => 0,
            BatHealth::Good => 1,
            BatHealth::Overheat => 2,
            BatHealth::Dead => 3,
            BatHealth::OverVoltage => 4,
            BatHealth::UnexpectedFailure => 5,
            BatHealth::Cold => 6,
            BatHealth::WatchdogTimerExpire => 7,
            BatHealth::SafetyTimerExpire => 8,
            BatHealth::OverCurrent => 9,
        }
    }
}

/// A command that sets one property of the battery.
#[derive(Clone, Copy, Debug, PartialEq, Eq, Structural)]
pub enum BatControlCommand {
    SetStatus(BatStatus),
    SetHealth(BatHealth),
    SetPresent(u32),
    SetCapacity(u32),
    SetACOnline(u32),
}

/// The number that `target` writes, or the error of a target that writes
/// none.
pub open spec fn spec_parse_target(target: Seq<char>) -> Result<u32, BatControlResult> {
    match spec_parse_u32(target) {
        Some(v) => Ok(v),
        None => Err(BatControlResult::StringParseIntErr),
    }
}

impl BatControlCommand {
    /// The command that sets the property named `property` to what `target`
    /// names: a status, a health, or a number.
    pub open spec fn spec_new(property: Seq<char>, target: Seq<char>) -> Result<
        BatControlCommand,
        BatControlResult,
    > {
        match BatProperty::spec_parse(property) {
            Err(e) => Err(e),
            Ok(BatProperty::Status) => match BatStatus::spec_parse(target) {
                Ok(status) => Ok(BatControlCommand::SetStatus(status)),
                Err(e) => Err(e),
            },
            Ok(BatProperty::Health) => match BatHealth::spec_parse(target) {
                Ok(health) => Ok(BatControlCommand::SetHealth(health)),
                Err(e) => Err(e),
            },
            Ok(BatProperty::Present) => match spec_parse_target(target) {
                Ok(v) => Ok(BatControlCommand::SetPresent(v)),
                Err(e) => Err(e),
            },
            Ok(BatProperty::Capacity) => match spec_parse_target(target) {
                Ok(v) => Ok(BatControlCommand::SetCapacity(v)),
                Err(e) => Err(e),
            },
            Ok(BatProperty::ACOnline) => match spec_parse_target(target) {
                Ok(v) => Ok(BatControlCommand::SetACOnline(v)),
                Err(e) => Err(e),
            },
        }
    }

    /// The command that sets the property named `property` to what `target`
    /// names.
    pub fn new(property: String, target: String) -> (r: Result<BatControlCommand, BatControlResult>)
        ensures
            r == Self::spec_new(property@, target@),
    {
        let cmd = match BatProperty::parse(property.as_str()) {
            Ok(cmd) => cmd,
            Err(e) => {
                return Err(e);
            },
        };
        match cmd {
            BatProperty::Status => match BatStatus::parse(target.as_str()) {
                Ok(status) => Ok(BatControlCommand::SetStatus(status)),
                Err(e) => Err(e),
            },
            BatProperty::Health => match BatHealth::parse(target.as_str()) {
                Ok(health) => Ok(BatControlCommand::SetHealth(health)),
                Err(e) => Err(e),
            },
            BatProperty::Present => match parse_u32(target.as_str()) {
                Some(v) => Ok(BatControlCommand::SetPresent(v)),
                None => Err(BatControlResult::StringParseIntErr),
            },
            BatProperty::Capacity => match parse_u32(target.as_str()) {
                Some(v) => Ok(BatControlCommand::SetCapacity(v)),
                None => Err(BatControlResult::StringParseIntErr),
            },
            BatProperty::ACOnline => match parse_u32(target.as_str()) {
                Some(v) => Ok(BatControlCommand::SetACOnline(v)),
                None => Err(BatControlResult::StringParseIntErr),
            },
        }
    }
}

/// The way to the battery of the machine.
#[derive(Debug)]
pub struct BatControl {
    pub type_: BatteryType,
    pub control_tube: RawDescriptor,
}

/// What kind of PCI device is plugged in.
#[derive(Clone, Copy, Debug, PartialEq, Eq, Structural)]
pub enum HotPlugDeviceType {
    UpstreamPort,
    DownstreamPort,
    EndPoint,
}

/// A PCI device that is plugged in or out.
#[derive(Debug)]
pub struct HotPlugDeviceInfo {
    pub device_type: HotPlugDeviceType,
    pub path: String,
    pub hp_interrupt: bool,
}

/// Tells the paravirtual clock that the machine is suspended or resumed.
#[derive(Clone, Copy, Debug, PartialEq, Eq, Structural)]
pub enum PvClockCommand {
    Suspend,
    Resume,
}

/// What the paravirtual clock answers.
#[derive(Clone, Copy, Debug, PartialEq, Eq, Structural)]
pub enum PvClockCommandResponse {
    Done,
    Failed(Error),
}

/// A command to the swapping of guest memory.
#[derive(Clone, Copy, Debug, PartialEq, Eq, Structural)]
pub enum SwapCommand {
    Enable,
    Trim,
    SwapOut,
    Disable { slow_file_cleanup: bool },
    Status,
}

/// An event that a listener can register for.
#[derive(Clone, Copy, Debug, PartialEq, Eq, Hash, Structural)]
pub enum RegisteredEvent {
    VirtioBalloonWsReport,
    VirtioBalloonResize,
    VirtioBalloonOOMDeflation,
}

/// One bucket of a working-set report: how much memory has been idle for
/// how long.
#[derive(Clone, Copy, Debug, PartialEq, Eq)]
pub struct WSBucket {
    /// Idle time in milliseconds.
    pub age: u64,
    /// Bytes of file memory and of anonymous memory.
    pub bytes: [u64; 2],
}

/// A working-set report of the balloon.
#[derive(Debug)]
pub struct BalloonWS {
    pub ws: Vec<WSBucket>,
}

/// An event with what it carries.
#[derive(Debug)]
pub enum RegisteredEventWithData {
    VirtioBalloonWsReport { ws_buckets: Vec<WSBucket>, balloon_actual: u64 },
    VirtioBalloonResize,
    VirtioBalloonOOMDeflation,
}

impl RegisteredEventWithData {
    /// The event, without what it carries.
    pub fn into_event(&self) -> (event: RegisteredEvent)
        ensures
            event == match *self {
                RegisteredEventWithData::VirtioBalloonWsReport {
                    ..
                } => RegisteredEvent::VirtioBalloonWsReport,
                RegisteredEventWithData::VirtioBalloonResize => RegisteredEvent::VirtioBalloonResize,
                RegisteredEventWithData::VirtioBalloonOOMDeflation => RegisteredEvent::VirtioBalloonOOMDeflation,
            },
    {
        match self {
            RegisteredEventWithData::VirtioBalloonWsReport { .. } => RegisteredEvent::VirtioBalloonWsReport,
            RegisteredEventWithData::VirtioBalloonResize => RegisteredEvent::VirtioBalloonResize,
            RegisteredEventWithData::VirtioBalloonOOMDeflation => RegisteredEvent::VirtioBalloonOOMDeflation,
        }
    }

    /// The event that reports the working set `ws` at a balloon of
    /// `balloon_actual` bytes.
    pub fn from_ws(ws: &BalloonWS, balloon_actual: u64) -> (event: RegisteredEventWithData)
        ensures
            event matches RegisteredEventWithData::VirtioBalloonWsReport {
                ws_buckets,
                balloon_actual: actual,
            } && ws_buckets@ == ws.ws@ && actual == balloon_actual,
    {
        let mut ws_buckets: Vec<WSBucket> = Vec::new();
        let mut i: usize = 0;
        while i < ws.ws.len()
            invariant
                i <= ws.ws@.len(),
                ws_buckets@ == ws.ws@.subrange(0, i as int),
            decreases ws.ws@.len() - i,
        {
            let bucket = ws.ws[i];
            ws_buckets.push(bucket);
            assert(ws_buckets@ =~= ws.ws@.subrange(0, i + 1));
            i += 1;
        }
        assert(ws.ws@.subrange(0, i as int) =~= ws.ws@);
        RegisteredEventWithData::VirtioBalloonWsReport { ws_buckets, balloon_actual }
    }
}

/// Asks a thread that waits on descriptors to wait on one more.
#[derive(Clone, Copy, Debug, PartialEq, Eq, Structural)]
pub enum ModifyWaitContext {
    Add(RawDescriptor),
}

/// What a command about a passed-through device is answered with.
#[derive(Clone, Copy, Debug, PartialEq, Eq, Structural)]
pub enum VirtioIOMMUVfioResult {
    Done,
    NotInPCIRanges,
    NoAvailableContainer,
    NoSuchDevice,
    NoSuchMappedDmabuf,
    InvalidParam,
}

impl VirtioIOMMUVfioResult {
    /// The result in words.
    pub open spec fn spec_to_string(self) -> Seq<char> {
        match self {
            VirtioIOMMUVfioResult::Done => "successfully"@,
            VirtioIOMMUVfioResult::NotInPCIRanges => "not in the pci ranges of virtio-iommu"@,
            VirtioIOMMUVfioResult::NoAvailableContainer => "no available vfio container"@,
            VirtioIOMMUVfioResult::NoSuchDevice => "no such a vfio device"@,
            VirtioIOMMUVfioResult::NoSuchMappedDmabuf => "no such a mapped dmabuf"@,
            VirtioIOMMUVfioResult::InvalidParam => "invalid parameters"@,
        }
    }

    /// The result in words.
    pub fn to_string(&self) -> (s: String)
        ensures
            s@ == self.spec_to_string(),
    {
        match self {
            VirtioIOMMUVfioResult::Done => "successfully".to_owned(),
            VirtioIOMMUVfioResult::NotInPCIRanges => "not in the pci ranges of virtio-iommu".to_owned(),
            VirtioIOMMUVfioResult::NoAvailableContainer => "no available vfio container".to_owned(),
            VirtioIOMMUVfioResult::NoSuchDevice => "no such a vfio device".to_owned(),
            VirtioIOMMUVfioResult::NoSuchMappedDmabuf => "no such a mapped dmabuf".to_owned(),
            VirtioIOMMUVfioResult::InvalidParam => "invalid parameters".to_owned(),
        }
    }
}

/// A command about a device that is passed through to the guest.
#[derive(Debug)]
pub enum VirtioIOMMUVfioCommand {
    VfioDeviceAdd { endpoint_addr: u32, wrapper_id: u32, container: RawDescriptor },
    VfioDeviceDel { endpoint_addr: u32 },
    VfioDmabufMap { mem_slot: MemSlot, gfn: u64, size: u64, dma_buf: RawDescriptor },
    VfioDmabufUnmap(MemSlot),
}

/// A request to the process of the virtual IOMMU.
#[derive(Debug)]
pub enum VirtioIOMMURequest {
    VfioCommand(VirtioIOMMUVfioCommand),
}

/// What the process of the virtual IOMMU answers.
#[derive(Clone, Copy, Debug, PartialEq, Eq, Structural)]
pub enum VirtioIOMMUResponse {
    Done,
    Failed(Error),
    VfioResponse(VirtioIOMMUVfioResult),
}

/// The way to the process of the virtual IOMMU. Where a message does not
/// pass, the error is the one that the host reports.
pub trait IommuTube {
    /// Sends a request.
    fn send(&self, request: &VirtioIOMMURequest) -> Result<(), Error>;

    /// Waits for a response.
    fn recv(&self) -> Result<VirtioIOMMUResponse, Error>;
}

/// What sending a request gave, as a response: success, or the error of
/// the host.
pub fn virtio_iommu_sent(sent: Result<(), Error>) -> (response: VirtioIOMMUResponse)
    ensures
        response == match sent {
            Ok(_) => VirtioIOMMUResponse::Done,
            Err(e) => VirtioIOMMUResponse::Failed(e),
        },
{
    match sent {
        Ok(_) => VirtioIOMMUResponse::Done,
        Err(e) => VirtioIOMMUResponse::Failed(e),
    }
}

/// What receiving a response gave, as a response: the response, or the
/// error of the host.
pub fn virtio_iommu_received(received: Result<VirtioIOMMUResponse, Error>) -> (response:
    VirtioIOMMUResponse)
    ensures
        response == match received {
            Ok(r) => r,
            Err(e) => VirtioIOMMUResponse::Failed(e),
        },
{
    match received {
        Ok(r) => r,
        Err(e) => VirtioIOMMUResponse::Failed(e),
    }
}

/// Sends a request to the virtual IOMMU without waiting for the response.
/// The result says whether the request could be sent.
pub fn virtio_iommu_request_async<T: IommuTube>(
    iommu_control_tube: &T,
    req: &VirtioIOMMURequest,
) -> (response: VirtioIOMMUResponse)
    ensures
        response is Done || response is Failed,
{
    virtio_iommu_sent(iommu_control_tube.send(req))
}

/// What one exchange with the virtual IOMMU gives, from what sending the
/// request and receiving the response gave: the error of the host where
/// the request could not be sent or no response arrived, and else the
/// response.
pub open spec fn spec_virtio_iommu_exchange(
    sent: Result<(), Error>,
    received: Result<VirtioIOMMUResponse, Error>,
) -> VirtioIOMMUResponse {
    match sent {
        Err(e) => VirtioIOMMUResponse::Failed(e),
        Ok(_) => match received {
            Ok(r) => r,
            Err(e) => VirtioIOMMUResponse::Failed(e),
        },
    }
}

/// Sends a request to the virtual IOMMU and waits for the response. A
/// request that cannot be sent, and a response that does not arrive, is
/// answered with the error of the host; nothing else fails.
pub fn virtio_iommu_request<T: IommuTube>(iommu_control_tube: &T, req: &VirtioIOMMURequest) -> (result:
    Result<VirtioIOMMUResponse, ()>)
    ensures
        exists|sent: Result<(), Error>, received: Result<VirtioIOMMUResponse, Error>|
            result == Ok::<VirtioIOMMUResponse, ()>(
                #[trigger] spec_virtio_iommu_exchange(sent, received),
            ),
{
    let sent = iommu_control_tube.send(req);
    let response = match virtio_iommu_sent(sent) {
        VirtioIOMMUResponse::Done => {
            let received = iommu_control_tube.recv();
            assert(spec_virtio_iommu_exchange(sent, received) == match received {
                Ok(r) => r,
                Err(e) => VirtioIOMMUResponse::Failed(e),
            });
            virtio_iommu_received(received)
        },
        resp => {
            let ghost received: Result<VirtioIOMMUResponse, Error> = arbitrary();
            assert(spec_virtio_iommu_exchange(sent, received) == resp);
            resp
        },
    };
    Ok(response)
}

/// What went wrong with a command about a passed-through device.
#[derive(Debug)]
pub enum VirtioIOMMUVfioError {
    SocketFailed,
    UnexpectedResponse(VirtioIOMMUResponse),
    UnknownCommand(String),
    VfioControl(VirtioIOMMUVfioResult),
}

} // verus!
