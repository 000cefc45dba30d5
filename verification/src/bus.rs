//! What a bus access looks like to a device model, and the interface that
//! every device model offers to the bus.

use vstd::prelude::*;

verus! {

/// A descriptor of the host, by its number.
pub type RawDescriptor = i32;

/// The most bytes that one access on a bus moves.
pub const MAX_ACCESS_LEN: usize = 8;

/// The most bytes that one access to a configuration register moves.
pub const MAX_CONFIG_ACCESS_LEN: usize = 4;

/// One access on a bus: where it lands inside the device, where on the bus,
/// and which access it is. The isolation layer forwards it untouched.
#[derive(Clone, Copy, Debug, PartialEq, Eq, Structural)]
pub struct BusAccessInfo {
    /// Offset from the start of the device's range.
    pub offset: u64,
    /// Absolute address on the bus.
    pub address: u64,
    /// Identifier of the access.
    pub id: u32,
}

/// Which of the two buses a range lies on.
#[derive(Clone, Copy, Debug, PartialEq, Eq, Structural)]
pub enum BusType {
    Mmio,
    Io,
}

/// A range of bus addresses that a device occupies.
#[derive(Clone, Copy, Debug, PartialEq, Eq, Structural)]
pub struct BusRange {
    pub base: u64,
    pub len: u64,
}

impl BusRange {
    /// Whether `addr` lies inside the range.
    pub open spec fn spec_contains(&self, addr: u64) -> bool {
        self.base <= addr && addr - self.base < self.len
    }

    /// Whether `addr` lies inside the range.
    pub fn contains(&self, addr: u64) -> (b: bool)
        ensures
            b == self.spec_contains(addr),
    {
        self.base <= addr && addr - self.base < self.len
    }
}

/// The place of a PCI function: bus, device and function number.
#[derive(Clone, Copy, Debug, PartialEq, Eq, Structural)]
pub struct PciAddress {
    pub bus: u8,
    pub dev: u8,
    pub func: u8,
}

/// What a write to configuration space did to the ranges that the device
/// occupies: a write may move or resize them.
#[derive(Debug)]
pub struct ConfigWriteResult {
    /// Memory-mapped ranges that the device gave up.
    pub mmio_remove: Vec<BusRange>,
    /// Memory-mapped ranges that the device newly occupies.
    pub mmio_add: Vec<BusRange>,
    /// Port ranges that the device gave up.
    pub io_remove: Vec<BusRange>,
    /// Port ranges that the device newly occupies.
    pub io_add: Vec<BusRange>,
    /// Devices that left the bus with this write.
    pub removed_pci_devices: Vec<PciAddress>,
}

/// The five lists of a [`ConfigWriteResult`] as sequences.
pub struct ConfigWriteResultView {
    pub mmio_remove: Seq<BusRange>,
    pub mmio_add: Seq<BusRange>,
    pub io_remove: Seq<BusRange>,
    pub io_add: Seq<BusRange>,
    pub removed_pci_devices: Seq<PciAddress>,
}

impl ConfigWriteResultView {
    /// The result of a write that changed no range.
    pub open spec fn empty() -> ConfigWriteResultView {
        ConfigWriteResultView {
            mmio_remove: Seq::empty(),
            mmio_add: Seq::empty(),
            io_remove: Seq::empty(),
            io_add: Seq::empty(),
            removed_pci_devices: Seq::empty(),
        }
    }
}

impl View for ConfigWriteResult {
    type V = ConfigWriteResultView;

    open spec fn view(&self) -> ConfigWriteResultView {
        ConfigWriteResultView {
            mmio_remove: self.mmio_remove@,
            mmio_add: self.mmio_add@,
            io_remove: self.io_remove@,
            io_add: self.io_add@,
            removed_pci_devices: self.removed_pci_devices@,
        }
    }
}

impl Default for ConfigWriteResult {
    fn default() -> (r: ConfigWriteResult)
        ensures
            r@ == ConfigWriteResultView::empty(),
    {
        ConfigWriteResult {
            mmio_remove: Vec::new(),
            mmio_add: Vec::new(),
            io_remove: Vec::new(),
            io_add: Vec::new(),
            removed_pci_devices: Vec::new(),
        }
    }
}

/// The interface of a device model: it answers the reads and writes that the
/// bus routes to it. Nothing is promised of what a model does with a call:
/// the isolation layer works for every implementation. A device that does not
/// say what it does with a call ignores it, and reads as zero.
pub trait BusDevice {
    /// A label for messages about this device.
    fn debug_label(&self) -> String;

    /// Reads `data.len()` bytes at `info` into `data`. One access moves 1
    /// to 8 bytes. (That `data` keeps its length is no promise of the device:
    /// nothing can change the length of a slice.)
    fn read(&mut self, info: BusAccessInfo, data: &mut [u8])
        requires
            1 <= old(data)@.len() <= MAX_ACCESS_LEN,
        ensures
            final(data)@.len() == old(data)@.len(),
    {
    }

    /// Writes `data` at `info`. One access moves at most 8 bytes.
    fn write(&mut self, info: BusAccessInfo, data: &[u8])
        requires
            data@.len() <= MAX_ACCESS_LEN,
    {
    }

    /// Writes `data` into the configuration register `reg_idx`, `offset`
    /// bytes into it, and says how the device's ranges changed. A register
    /// holds 4 bytes.
    fn config_register_write(&mut self, reg_idx: usize, offset: u64, data: &[u8]) -> (result:
        ConfigWriteResult)
        requires
            data@.len() <= MAX_CONFIG_ACCESS_LEN,
        default_ensures
            result@ == ConfigWriteResultView::empty(),
    {
        ConfigWriteResult::default()
    }

    /// Reads the configuration register `reg_idx`.
    fn config_register_read(&self, reg_idx: usize) -> (value: u32)
        default_ensures
            value == 0,
    {
        0
    }

    /// Offers the device a shared mapping of its configuration space; the
    /// result says whether the device took it.
    fn init_pci_config_mapping(&mut self, shmem: RawDescriptor, base: usize, len: usize) -> (taken:
        bool)
        default_ensures
            !taken,
    {
        false
    }

    /// Writes the software-only register `reg_idx`.
    fn virtual_config_register_write(&mut self, reg_idx: usize, value: u32) {
    }

    /// Reads the software-only register `reg_idx`.
    fn virtual_config_register_read(&self, reg_idx: usize) -> (value: u32)
        default_ensures
            value == 0,
    {
        0
    }

    /// Called once, inside the sandbox, before the first access.
    fn on_sandboxed(&mut self) {
    }

    /// The ranges that the device occupies.
    fn get_ranges(&self) -> (ranges: Vec<(BusRange, BusType)>)
        default_ensures
            ranges@.len() == 0,
    {
        Vec::new()
    }

    /// Tells the device that the guest removed it.
    fn destroy_device(&mut self) {
    }
}

} // verus!
