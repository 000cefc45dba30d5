//! Requests to the main process of the machine, and what they are answered
//! with.

use vstd::prelude::*;
use crate::errno::Error;
use crate::errno::EINVAL;
use crate::vm_control::BatControlCommand;
use crate::vm_control::BatControlResult;
use crate::vm_control::BatteryType;
use crate::vm_control::DevicesState;
use crate::vm_control::DiskControlCommand;
use crate::vm_control::DiskControlResult;
use crate::vm_control::HotPlugDeviceInfo;
use crate::vm_control::NetControlCommand;
use crate::vm_control::RegisteredEvent;
use crate::vm_control::RestoreCommand;
use crate::vm_control::SnapshotCommand;
use crate::vm_control::SwapCommand;
use crate::vm_control::UsbControlCommand;
use crate::vm_control::UsbControlResult;

verus! {

/// A request to the main process to do something with the machine.
#[derive(Debug)]
pub enum VmRequest {
    /// Leave the loop of the machine and exit.
    Exit,
    /// Press the power button of the guest.
    Powerbtn,
    /// Press the sleep button of the guest.
    Sleepbtn,
    /// Raise the interrupt of the clock of the guest.
    Rtc,
    /// Stop the processors until they are resumed.
    SuspendVcpus,
    /// Swap the memory of the guest.
    Swap(SwapCommand),
    /// Resume the processors.
    ResumeVcpus,
    /// Raise a general-purpose event.
    Gpe(u32),
    /// Raise a power-management event of PCI.
    PciPme(u16),
    /// Make the real-time processor real-time.
    MakeRT,
    /// A command to the disk with the index `disk_index`.
    DiskCommand { disk_index: usize, command: DiskControlCommand },
    /// A command to the USB controller.
    UsbCommand(UsbControlCommand),
    /// A command to the battery.
    BatCommand(BatteryType, BatControlCommand),
    /// Plug a device of the host in or out.
    HotPlugVfioCommand { device: HotPlugDeviceInfo, add: bool },
    /// Plug a network device in or out.
    HotPlugNetCommand(NetControlCommand),
    /// Take a snapshot.
    Snapshot(SnapshotCommand),
    /// Restore a snapshot.
    Restore(RestoreCommand),
    /// Tell the listener at `socket_addr` of `event`.
    RegisterListener { socket_addr: String, event: RegisteredEvent },
    /// Stop telling the listener at `socket_addr` of `event`.
    UnregisterListener { socket_addr: String, event: RegisteredEvent },
    /// Stop telling the listener at `socket_addr` of anything.
    Unregister { socket_addr: String },
    /// Stop processors and devices until they are resumed.
    SuspendVm,
    /// Resume processors and devices.
    ResumeVm,
}

/// What a request is answered with.
#[derive(Debug)]
#[must_use]
pub enum VmResponse {
    /// The request was carried out.
    Done,
    /// The request failed.
    Failed(Error),
    /// The request failed, in words.
    ErrString(String),
    /// Memory was registered at the page `pfn` in the slot `slot`.
    RegisterMemory { pfn: u64, slot: u32 },
    /// A device was plugged into the bus `bus`.
    PciHotPlugResponse { bus: u8 },
    /// What the USB controller answered.
    UsbResponse(UsbControlResult),
    /// What the battery answered.
    BatResponse(BatControlResult),
    /// The state of the swapping, as text.
    SwapStatus(String),
    /// Whether the devices sleep.
    DevicesState(DevicesState),
}

/// What a command to a disk is answered with: `sent` says whether the
/// command reached the disk, `received` is what the disk answered, if
/// anything came back. A command that is lost on either way is an invalid
/// one.
pub fn handle_disk_command(sent: bool, received: Option<DiskControlResult>) -> (response: VmResponse)
    ensures
        match (sent, received) {
            (true, Some(DiskControlResult::Done)) => response is Done,
            (true, Some(DiskControlResult::Failed(e))) => response matches VmResponse::Failed(cause)
                && cause == e,
            _ => response matches VmResponse::Failed(cause) && cause.spec_errno() == EINVAL,
        },
{
    if !sent {
        return VmResponse::Failed(Error::new(EINVAL));
    }
    match received {
        Some(DiskControlResult::Done) => VmResponse::Done,
        Some(DiskControlResult::Failed(e)) => VmResponse::Failed(e),
        None => VmResponse::Failed(Error::new(EINVAL)),
    }
}

} // verus!
