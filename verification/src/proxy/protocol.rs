//! The messages that cross the boundary between the parent and the process
//! of the device.

use vstd::prelude::*;
use crate::bus::BusAccessInfo;
use crate::bus::BusRange;
use crate::bus::BusType;
use crate::bus::ConfigWriteResultView;
use crate::bus::MAX_ACCESS_LEN;
use crate::bus::MAX_CONFIG_ACCESS_LEN;
use crate::bus::PciAddress;
use crate::bus::RawDescriptor;

verus! {

/// The most bytes that one read or write carries.
pub const MAX_DATA_LEN: usize = MAX_ACCESS_LEN;

/// The most bytes that one write to configuration space carries.
pub const MAX_CONFIG_DATA_LEN: usize = MAX_CONFIG_ACCESS_LEN;

/// A request to the process of the device.
#[derive(Debug)]
#[allow(inconsistent_fields)]
pub enum Command {
    /// The handshake. It is the first message, and comes once.
    Activate,
    /// Read `len` bytes at `info`.
    Read { len: u32, info: BusAccessInfo },
    /// Write the first `len` bytes of `data` at `info`.
    Write { len: u32, info: BusAccessInfo, data: [u8; 8] },
    /// Read a configuration register.
    ReadConfig(u32),
    /// Write the first `len` bytes of `data` into a configuration register.
    WriteConfig { reg_idx: u32, offset: u32, len: u32, data: [u8; 4] },
    /// Hand the device a shared mapping of its configuration space.
    InitPciConfigMapping { shmem: RawDescriptor, base: usize, len: usize },
    /// Read a software-only register.
    ReadVirtualConfig(u32),
    /// Write a software-only register.
    WriteVirtualConfig { reg_idx: u32, value: u32 },
    /// The guest removed the device.
    DestroyDevice,
    /// End the session.
    Shutdown,
    /// Ask for the ranges that the device occupies.
    GetRanges,
    /// Save the state of the device.
    Snapshot,
    /// Load a saved state.
    Restore { data: serde_json::Value },
    /// Put the device to sleep.
    Sleep,
    /// Wake the device.
    Wake,
}

/// A response from the process of the device.
#[derive(Debug)]
pub enum CommandResult {
    /// The request was carried out and has nothing to report.
    Done,
    /// The bytes read; those past the requested length are zero.
    ReadResult([u8; 8]),
    /// The value of the configuration register.
    ReadConfigResult(u32),
    /// How the write to configuration space changed the device's ranges.
    WriteConfigResult {
        mmio_remove: Vec<BusRange>,
        mmio_add: Vec<BusRange>,
        io_remove: Vec<BusRange>,
        io_add: Vec<BusRange>,
        removed_pci_devices: Vec<PciAddress>,
    },
    /// Whether the device took the mapping.
    InitPciConfigMappingResult(bool),
    /// The value of the software-only register.
    ReadVirtualConfigResult(u32),
    /// The ranges that the device occupies.
    GetRangesResult(Vec<(BusRange, BusType)>),
    /// The saved state, or why it could not be saved.
    SnapshotResult(Result<serde_json::Value, String>),
    /// Whether the state was loaded.
    RestoreResult(Result<(), String>),
    /// Whether the device went to sleep.
    SleepResult(Result<(), String>),
    /// Whether the device woke.
    WakeResult(Result<(), String>),
}

/// A [`Command`] with its buffers as sequences.
#[allow(inconsistent_fields)]
pub enum CommandView {
    Activate,
    Read { len: u32, info: BusAccessInfo },
    Write { len: u32, info: BusAccessInfo, data: Seq<u8> },
    ReadConfig(u32),
    WriteConfig { reg_idx: u32, offset: u32, len: u32, data: Seq<u8> },
    InitPciConfigMapping { shmem: RawDescriptor, base: usize, len: usize },
    ReadVirtualConfig(u32),
    WriteVirtualConfig { reg_idx: u32, value: u32 },
    DestroyDevice,
    Shutdown,
    GetRanges,
    Snapshot,
    Restore { data: serde_json::Value },
    Sleep,
    Wake,
}

/// A [`CommandResult`] with its lists and texts as sequences.
pub enum CommandResultView {
    Done,
    ReadResult(Seq<u8>),
    ReadConfigResult(u32),
    WriteConfigResult(ConfigWriteResultView),
    InitPciConfigMappingResult(bool),
    ReadVirtualConfigResult(u32),
    GetRangesResult(Seq<(BusRange, BusType)>),
    SnapshotResult(Result<serde_json::Value, Seq<char>>),
    RestoreResult(Result<(), Seq<char>>),
    SleepResult(Result<(), Seq<char>>),
    WakeResult(Result<(), Seq<char>>),
}

/// The outcome of an operation that reports failure in words, with the words
/// as a sequence.
pub open spec fn outcome_view<T>(r: Result<T, String>) -> Result<T, Seq<char>> {
    match r {
        Ok(t) => Ok(t),
        Err(e) => Err(e@),
    }
}

/// `bytes`, cut or filled with zeros to exactly `n` bytes.
pub open spec fn padded(bytes: Seq<u8>, n: nat) -> Seq<u8> {
    Seq::new(n, |i: int| if i < bytes.len() { bytes[i] } else { 0u8 })
}

impl View for Command {
    type V = CommandView;

    open spec fn view(&self) -> CommandView {
        match *self {
            Command::Activate => CommandView::Activate,
            Command::Read { len, info } => CommandView::Read { len, info },
            Command::Write { len, info, data } => CommandView::Write { len, info, data: data@ },
            Command::ReadConfig(idx) => CommandView::ReadConfig(idx),
            Command::WriteConfig { reg_idx, offset, len, data } => CommandView::WriteConfig {
                reg_idx,
                offset,
                len,
                data: data@,
            },
            Command::InitPciConfigMapping { shmem, base, len } => CommandView::InitPciConfigMapping {
                shmem,
                base,
                len,
            },
            Command::ReadVirtualConfig(idx) => CommandView::ReadVirtualConfig(idx),
            Command::WriteVirtualConfig { reg_idx, value } => CommandView::WriteVirtualConfig {
                reg_idx,
                value,
            },
            Command::DestroyDevice => CommandView::DestroyDevice,
            Command::Shutdown => CommandView::Shutdown,
            Command::GetRanges => CommandView::GetRanges,
            Command::Snapshot => CommandView::Snapshot,
            Command::Restore { data } => CommandView::Restore { data },
            Command::Sleep => CommandView::Sleep,
            Command::Wake => CommandView::Wake,
        }
    }
}

impl View for CommandResult {
    type V = CommandResultView;

    open spec fn view(&self) -> CommandResultView {
        match *self {
            CommandResult::Done => CommandResultView::Done,
            CommandResult::ReadResult(data) => CommandResultView::ReadResult(data@),
            CommandResult::ReadConfigResult(v) => CommandResultView::ReadConfigResult(v),
            CommandResult::WriteConfigResult {
                mmio_remove,
                mmio_add,
                io_remove,
                io_add,
                removed_pci_devices,
            } => CommandResultView::WriteConfigResult(
                ConfigWriteResultView {
                    mmio_remove: mmio_remove@,
                    mmio_add: mmio_add@,
                    io_remove: io_remove@,
                    io_add: io_add@,
                    removed_pci_devices: removed_pci_devices@,
                },
            ),
            CommandResult::InitPciConfigMappingResult(b) => CommandResultView::InitPciConfigMappingResult(b),
            CommandResult::ReadVirtualConfigResult(v) => CommandResultView::ReadVirtualConfigResult(v),
            CommandResult::GetRangesResult(ranges) => CommandResultView::GetRangesResult(ranges@),
            CommandResult::SnapshotResult(r) => CommandResultView::SnapshotResult(outcome_view(r)),
            CommandResult::RestoreResult(r) => CommandResultView::RestoreResult(outcome_view(r)),
            CommandResult::SleepResult(r) => CommandResultView::SleepResult(outcome_view(r)),
            CommandResult::WakeResult(r) => CommandResultView::WakeResult(outcome_view(r)),
        }
    }
}

impl CommandView {
    /// Whether the lengths that the message states fit its buffers: a read
    /// asks for 1 to 8 bytes, a write carries at most 8, a write to
    /// configuration space at most 4.
    pub open spec fn well_formed(self) -> bool {
        match self {
            CommandView::Read { len, .. } => 1 <= len <= MAX_DATA_LEN,
            CommandView::Write { len, data, .. } => len <= MAX_DATA_LEN && data.len() == MAX_DATA_LEN,
            CommandView::WriteConfig { len, data, .. } => len <= MAX_CONFIG_DATA_LEN && data.len()
                == MAX_CONFIG_DATA_LEN,
            _ => true,
        }
    }

    /// Whether the process of the device answers this request. A write and
    /// the removal of the device are sent without waiting for anything.
    pub open spec fn expects_response(self) -> bool {
        !(self is Write) && !(self is DestroyDevice)
    }
}

impl Command {
    /// Whether the lengths that the message states fit its buffers.
    pub fn is_well_formed(&self) -> (b: bool)
        ensures
            b == self@.well_formed(),
    {
        match self {
            Command::Read { len, .. } => 1 <= *len && *len <= 8,
            Command::Write { len, .. } => *len <= 8,
            Command::WriteConfig { len, .. } => *len <= 4,
            _ => true,
        }
    }

    /// Whether the process of the device answers this request.
    pub fn expects_response(&self) -> (b: bool)
        ensures
            b == self@.expects_response(),
    {
        match self {
            Command::Write { .. } => false,
            Command::DestroyDevice => false,
            _ => true,
        }
    }
}

/// The kinds of responses.
#[derive(Clone, Copy, Debug, PartialEq, Eq, Structural)]
pub enum ResponseKind {
    Done,
    ReadResult,
    ReadConfigResult,
    WriteConfigResult,
    InitPciConfigMappingResult,
    ReadVirtualConfigResult,
    GetRangesResult,
    SnapshotResult,
    RestoreResult,
    SleepResult,
    WakeResult,
}

impl CommandResultView {
    /// The kind of the response.
    pub open spec fn kind(self) -> ResponseKind {
        match self {
            CommandResultView::Done => ResponseKind::Done,
            CommandResultView::ReadResult(_) => ResponseKind::ReadResult,
            CommandResultView::ReadConfigResult(_) => ResponseKind::ReadConfigResult,
            CommandResultView::WriteConfigResult(_) => ResponseKind::WriteConfigResult,
            CommandResultView::InitPciConfigMappingResult(_) => ResponseKind::InitPciConfigMappingResult,
            CommandResultView::ReadVirtualConfigResult(_) => ResponseKind::ReadVirtualConfigResult,
            CommandResultView::GetRangesResult(_) => ResponseKind::GetRangesResult,
            CommandResultView::SnapshotResult(_) => ResponseKind::SnapshotResult,
            CommandResultView::RestoreResult(_) => ResponseKind::RestoreResult,
            CommandResultView::SleepResult(_) => ResponseKind::SleepResult,
            CommandResultView::WakeResult(_) => ResponseKind::WakeResult,
        }
    }
}

impl CommandView {
    /// The kind of response that answers this request: each request that
    /// is answered has exactly one.
    pub open spec fn expected_response(self) -> Option<ResponseKind> {
        match self {
            CommandView::Activate => Some(ResponseKind::Done),
            CommandView::Read { .. } => Some(ResponseKind::ReadResult),
            CommandView::Write { .. } => None,
            CommandView::ReadConfig(_) => Some(ResponseKind::ReadConfigResult),
            CommandView::WriteConfig { .. } => Some(ResponseKind::WriteConfigResult),
            CommandView::InitPciConfigMapping { .. } => Some(ResponseKind::InitPciConfigMappingResult),
            CommandView::ReadVirtualConfig(_) => Some(ResponseKind::ReadVirtualConfigResult),
            CommandView::WriteVirtualConfig { .. } => Some(ResponseKind::Done),
            CommandView::DestroyDevice => None,
            CommandView::Shutdown => Some(ResponseKind::Done),
            CommandView::GetRanges => Some(ResponseKind::GetRangesResult),
            CommandView::Snapshot => Some(ResponseKind::SnapshotResult),
            CommandView::Restore { .. } => Some(ResponseKind::RestoreResult),
            CommandView::Sleep => Some(ResponseKind::SleepResult),
            CommandView::Wake => Some(ResponseKind::WakeResult),
        }
    }
}

impl CommandResult {
    /// The kind of the response.
    pub fn kind(&self) -> (kind: ResponseKind)
        ensures
            kind == self@.kind(),
    {
        match self {
            CommandResult::Done => ResponseKind::Done,
            CommandResult::ReadResult(_) => ResponseKind::ReadResult,
            CommandResult::ReadConfigResult(_) => ResponseKind::ReadConfigResult,
            CommandResult::WriteConfigResult { .. } => ResponseKind::WriteConfigResult,
            CommandResult::InitPciConfigMappingResult(_) => ResponseKind::InitPciConfigMappingResult,
            CommandResult::ReadVirtualConfigResult(_) => ResponseKind::ReadVirtualConfigResult,
            CommandResult::GetRangesResult(_) => ResponseKind::GetRangesResult,
            CommandResult::SnapshotResult(_) => ResponseKind::SnapshotResult,
            CommandResult::RestoreResult(_) => ResponseKind::RestoreResult,
            CommandResult::SleepResult(_) => ResponseKind::SleepResult,
            CommandResult::WakeResult(_) => ResponseKind::WakeResult,
        }
    }
}

impl Command {
    /// The kind of response that answers this request, if it is answered.
    pub fn expected_response(&self) -> (kind: Option<ResponseKind>)
        ensures
            kind == self@.expected_response(),
            kind is Some == self@.expects_response(),
    {
        match self {
            Command::Activate => Some(ResponseKind::Done),
            Command::Read { .. } => Some(ResponseKind::ReadResult),
            Command::Write { .. } => None,
            Command::ReadConfig(_) => Some(ResponseKind::ReadConfigResult),
            Command::WriteConfig { .. } => Some(ResponseKind::WriteConfigResult),
            Command::InitPciConfigMapping { .. } => Some(ResponseKind::InitPciConfigMappingResult),
            Command::ReadVirtualConfig(_) => Some(ResponseKind::ReadVirtualConfigResult),
            Command::WriteVirtualConfig { .. } => Some(ResponseKind::Done),
            Command::DestroyDevice => None,
            Command::Shutdown => Some(ResponseKind::Done),
            Command::GetRanges => Some(ResponseKind::GetRangesResult),
            Command::Snapshot => Some(ResponseKind::SnapshotResult),
            Command::Restore { .. } => Some(ResponseKind::RestoreResult),
            Command::Sleep => Some(ResponseKind::SleepResult),
            Command::Wake => Some(ResponseKind::WakeResult),
        }
    }
}

} // verus!
