//! The parent's side: every call on the device becomes one request, and the
//! response, if one is owed, becomes the result of the call.
//!
//! When the response is missing or of the wrong kind the call still returns:
//! a read gives zeros, a write is dropped, and an operation on the state of
//! the device reports a failure. The process of one device must not take the
//! machine down with it.

use vstd::prelude::*;
use crate::bus::BusAccessInfo;
use crate::bus::BusRange;
use crate::bus::BusType;
use crate::bus::ConfigWriteResult;
use crate::bus::ConfigWriteResultView;
use crate::bus::RawDescriptor;
use crate::proxy::protocol::outcome_view;
use crate::proxy::protocol::padded;
use crate::proxy::protocol::Command;
use crate::proxy::protocol::CommandResult;
use crate::proxy::protocol::CommandResultView;
use crate::proxy::protocol::CommandView;
use crate::proxy::protocol::ResponseKind;
use crate::proxy::protocol::MAX_CONFIG_DATA_LEN;
use crate::proxy::protocol::MAX_DATA_LEN;

verus! {

/// Why a call on the proxy did not get the result of the device.
#[derive(Clone, Copy, Debug, PartialEq, Eq, Structural)]
pub enum ProxyFailure {
    /// The request could not be sent.
    SendFailed,
    /// No response arrived: the channel is gone.
    NoResponse,
    /// A response arrived that answers another kind of request.
    UnexpectedResponse,
}

/// `n` zero bytes.
pub open spec fn zeros(n: nat) -> Seq<u8> {
    Seq::new(n, |i: int| 0u8)
}

/// A response, if one arrived, with its lists and texts as sequences.
pub open spec fn response_view(response: Option<CommandResult>) -> Option<CommandResultView> {
    match response {
        Some(r) => Some(r@),
        None => None,
    }
}

/// The report that goes with a response, where `expected` says whether the
/// response is of the kind that the request asked for.
pub open spec fn spec_report(response: Option<CommandResultView>, expected: bool) -> Option<
    ProxyFailure,
> {
    match response {
        None => Some(ProxyFailure::NoResponse),
        Some(_) => if expected {
            None
        } else {
            Some(ProxyFailure::UnexpectedResponse)
        },
    }
}

/// The failure to report for what came back to a request that is answered
/// by a response of the kind `expected`: none where such a response came.
pub open spec fn spec_response_failure(
    expected: ResponseKind,
    response: Option<CommandResultView>,
) -> Option<ProxyFailure> {
    spec_report(response, response matches Some(r) && r.kind() == expected)
}

/// The failure to report for what came back to a request that is answered
/// by a response of the kind `expected`.
pub fn response_failure(expected: ResponseKind, response: &Option<CommandResult>) -> (failure: Option<
    ProxyFailure,
>)
    ensures
        failure == spec_response_failure(expected, response_view(*response)),
{
    match response {
        None => Some(ProxyFailure::NoResponse),
        Some(r) => if r.kind() == expected {
            None
        } else {
            Some(ProxyFailure::UnexpectedResponse)
        },
    }
}

/// The request that reads `len` bytes at `info`.
pub open spec fn spec_read_command(info: BusAccessInfo, len: nat) -> CommandView {
    CommandView::Read { len: len as u32, info }
}

/// What a read of `len` bytes returns, given the response to it.
pub open spec fn spec_read_response(response: Option<CommandResultView>, len: nat) -> Seq<u8> {
    match response {
        Some(CommandResultView::ReadResult(buffer)) => buffer.subrange(0, len as int),
        _ => zeros(len),
    }
}

/// The request that writes `data` at `info`.
pub open spec fn spec_write_command(info: BusAccessInfo, data: Seq<u8>) -> CommandView {
    CommandView::Write { len: data.len() as u32, info, data: padded(data, MAX_DATA_LEN as nat) }
}

/// The request that writes `data` into a configuration register.
pub open spec fn spec_config_register_write_command(
    reg_idx: usize,
    offset: u64,
    data: Seq<u8>,
) -> CommandView {
    CommandView::WriteConfig {
        reg_idx: reg_idx as u32,
        offset: offset as u32,
        len: data.len() as u32,
        data: padded(data, MAX_CONFIG_DATA_LEN as nat),
    }
}

/// What a write to configuration space returns, given the response to it.
pub open spec fn spec_config_register_write_response(
    response: Option<CommandResultView>,
) -> ConfigWriteResultView {
    match response {
        Some(CommandResultView::WriteConfigResult(result)) => result,
        _ => ConfigWriteResultView::empty(),
    }
}

/// What a read of a configuration register returns, given the response.
pub open spec fn spec_config_register_read_response(response: Option<CommandResultView>) -> u32 {
    match response {
        Some(CommandResultView::ReadConfigResult(value)) => value,
        _ => 0,
    }
}

/// What a read of a software-only register returns, given the response.
pub open spec fn spec_virtual_config_register_read_response(
    response: Option<CommandResultView>,
) -> u32 {
    match response {
        Some(CommandResultView::ReadVirtualConfigResult(value)) => value,
        _ => 0,
    }
}

/// What the offer of a mapping returns, given the response.
pub open spec fn spec_init_pci_config_mapping_response(response: Option<CommandResultView>) -> bool {
    response == Some(CommandResultView::InitPciConfigMappingResult(true))
}

/// What the question for the ranges returns, given the response.
pub open spec fn spec_get_ranges_response(response: Option<CommandResultView>) -> Seq<
    (BusRange, BusType),
> {
    match response {
        Some(CommandResultView::GetRangesResult(ranges)) => ranges,
        _ => Seq::empty(),
    }
}

/// The request that reads `len` bytes at `info`.
pub fn read_command(info: BusAccessInfo, len: usize) -> (cmd: Command)
    requires
        1 <= len <= MAX_DATA_LEN,
    ensures
        cmd@ == spec_read_command(info, len as nat),
        cmd@.well_formed(),
{
    Command::Read { len: len as u32, info }
}

/// Completes a read: fills `data` from the response. Where the response is
/// missing or is no answer to a read, `data` is filled with zeros and the
/// failure is returned for the caller to report.
pub fn read_response(response: Option<CommandResult>, data: &mut [u8]) -> (report: Option<
    ProxyFailure,
>)
    requires
        old(data)@.len() <= MAX_DATA_LEN,
    ensures
        final(data)@.len() == old(data)@.len(),
        final(data)@ == spec_read_response(response_view(response), old(data)@.len()),
        report == spec_response_failure(ResponseKind::ReadResult, response_view(response)),
{
    let n = data.len();
    match response {
        Some(CommandResult::ReadResult(buffer)) => {
            let mut i: usize = 0;
            while i < n
                invariant
                    n == data@.len(),
                    n <= 8,
                    i <= n,
                    forall|j: int| 0 <= j < i ==> data@[j] == buffer@[j],
                decreases n - i,
            {
                data[i] = buffer[i];
                i += 1;
            }
            assert(data@ =~= buffer@.subrange(0, n as int));
            None
        },
        Some(_) => {
            fill_zeros(data);
            Some(ProxyFailure::UnexpectedResponse)
        },
        None => {
            fill_zeros(data);
            Some(ProxyFailure::NoResponse)
        },
    }
}

/// Overwrites `data` with zeros.
fn fill_zeros(data: &mut [u8])
    ensures
        final(data)@ == zeros(old(data)@.len()),
{
    let n = data.len();
    let mut i: usize = 0;
    while i < n
        invariant
            n == data@.len(),
            i <= n,
            forall|j: int| 0 <= j < i ==> data@[j] == 0u8,
        decreases n - i,
    {
        data[i] = 0;
        i += 1;
    }
    assert(data@ =~= zeros(n as nat));
}

/// The request that writes `data` at `info`. No response is owed to it.
pub fn write_command(info: BusAccessInfo, data: &[u8]) -> (cmd: Command)
    requires
        data@.len() <= MAX_DATA_LEN,
    ensures
        cmd@ == spec_write_command(info, data@),
        cmd@.well_formed(),
        !cmd@.expects_response(),
{
    let n = data.len();
    let mut buffer = [0u8;8];
    let mut i: usize = 0;
    while i < n
        invariant
            n == data@.len(),
            n <= 8,
            i <= n,
            forall|j: int| 0 <= j < i ==> buffer@[j] == data@[j],
            forall|j: int| i <= j < 8 ==> buffer@[j] == 0u8,
        decreases n - i,
    {
        buffer[i] = data[i];
        i += 1;
    }
    assert(buffer@ =~= padded(data@, 8));
    Command::Write { len: n as u32, info, data: buffer }
}

/// The request that writes `data` into the configuration register
/// `reg_idx`, `offset` bytes into it. Index and offset travel as 32 bits.
pub fn config_register_write_command(reg_idx: usize, offset: u64, data: &[u8]) -> (cmd: Command)
    requires
        data@.len() <= MAX_CONFIG_DATA_LEN,
    ensures
        cmd@ == spec_config_register_write_command(reg_idx, offset, data@),
        cmd@.well_formed(),
{
    let n = data.len();
    let mut buffer = [0u8;4];
    let mut i: usize = 0;
    while i < n
        invariant
            n == data@.len(),
            n <= 4,
            i <= n,
            forall|j: int| 0 <= j < i ==> buffer@[j] == data@[j],
            forall|j: int| i <= j < 4 ==> buffer@[j] == 0u8,
        decreases n - i,
    {
        buffer[i] = data[i];
        i += 1;
    }
    assert(buffer@ =~= padded(data@, 4));
    Command::WriteConfig { reg_idx: reg_idx as u32, offset: offset as u32, len: n as u32, data: buffer }
}

/// Completes a write to configuration space: the changes that the device
/// reported, or none where the response is missing or of another kind.
pub fn config_register_write_response(response: Option<CommandResult>) -> (result: ConfigWriteResult)
    ensures
        result@ == spec_config_register_write_response(response_view(response)),
{
    match response {
        Some(
            CommandResult::WriteConfigResult {
                mmio_remove,
                mmio_add,
                io_remove,
                io_add,
                removed_pci_devices,
            },
        ) => ConfigWriteResult { mmio_remove, mmio_add, io_remove, io_add, removed_pci_devices },
        _ => ConfigWriteResult::default(),
    }
}

/// The request that reads the configuration register `reg_idx`.
pub fn config_register_read_command(reg_idx: usize) -> (cmd: Command)
    ensures
        cmd@ == CommandView::ReadConfig(reg_idx as u32),
{
    Command::ReadConfig(reg_idx as u32)
}

/// Completes a read of a configuration register: the value that the device
/// reported, or 0 where the response is missing or of another kind.
pub fn config_register_read_response(response: Option<CommandResult>) -> (value: u32)
    ensures
        value == spec_config_register_read_response(response_view(response)),
{
    match response {
        Some(CommandResult::ReadConfigResult(value)) => value,
        _ => 0,
    }
}

/// The request that offers the device a mapping of its configuration space.
pub fn init_pci_config_mapping_command(shmem: RawDescriptor, base: usize, len: usize) -> (cmd:
    Command)
    ensures
        cmd@ == (CommandView::InitPciConfigMapping { shmem, base, len }),
{
    Command::InitPciConfigMapping { shmem, base, len }
}

/// Completes the offer of a mapping: whether the device said that it took
/// it.
pub fn init_pci_config_mapping_response(response: Option<CommandResult>) -> (taken: bool)
    ensures
        taken == spec_init_pci_config_mapping_response(response_view(response)),
{
    match response {
        Some(CommandResult::InitPciConfigMappingResult(true)) => true,
        _ => false,
    }
}

/// The request that writes the software-only register `reg_idx`. The
/// response to it carries nothing.
pub fn virtual_config_register_write_command(reg_idx: usize, value: u32) -> (cmd: Command)
    ensures
        cmd@ == (CommandView::WriteVirtualConfig { reg_idx: reg_idx as u32, value }),
{
    Command::WriteVirtualConfig { reg_idx: reg_idx as u32, value }
}

/// The request that reads the software-only register `reg_idx`.
pub fn virtual_config_register_read_command(reg_idx: usize) -> (cmd: Command)
    ensures
        cmd@ == CommandView::ReadVirtualConfig(reg_idx as u32),
{
    Command::ReadVirtualConfig(reg_idx as u32)
}

/// Completes a read of a software-only register: the value that the device
/// reported, or 0 where the response is missing or of another kind.
pub fn virtual_config_register_read_response(response: Option<CommandResult>) -> (value: u32)
    ensures
        value == spec_virtual_config_register_read_response(response_view(response)),
{
    match response {
        Some(CommandResult::ReadVirtualConfigResult(value)) => value,
        _ => 0,
    }
}

/// Completes the question for the ranges: the ranges that the device
/// reported, or none where the response is missing or of another kind.
pub fn get_ranges_response(response: Option<CommandResult>) -> (ranges: Vec<(BusRange, BusType)>)
    ensures
        ranges@ == spec_get_ranges_response(response_view(response)),
{
    match response {
        Some(CommandResult::GetRangesResult(ranges)) => ranges,
        _ => Vec::new(),
    }
}

/// The text that reports that the device failed at `operation`.
pub open spec fn spec_failure_text(operation: Seq<char>, label: Seq<char>, reason: Seq<char>) -> Seq<
    char,
> {
    "failed to "@ + operation + " "@ + label + ": "@ + reason
}

/// The text that reports that no response to `operation` came, or one of
/// another kind.
pub open spec fn spec_unexpected_text(operation: Seq<char>) -> Seq<char> {
    "unexpected "@ + operation + " result"@
}

/// What an operation on the state of the device returns: `answer` is what
/// the device said of it, or `None` where the response is missing or of
/// another kind.
pub open spec fn spec_lifecycle_response<T>(
    answer: Option<Result<T, Seq<char>>>,
    operation: Seq<char>,
    label: Seq<char>,
) -> Result<T, Seq<char>> {
    match answer {
        Some(Ok(t)) => Ok(t),
        Some(Err(reason)) => Err(spec_failure_text(operation, label, reason)),
        None => Err(spec_unexpected_text(operation)),
    }
}

/// What the device said of a snapshot, if the response speaks of one.
pub open spec fn snapshot_answer(response: Option<CommandResultView>) -> Option<
    Result<serde_json::Value, Seq<char>>,
> {
    match response {
        Some(CommandResultView::SnapshotResult(r)) => Some(r),
        _ => None,
    }
}

/// What the device said of a restore, if the response speaks of one.
pub open spec fn restore_answer(response: Option<CommandResultView>) -> Option<
    Result<(), Seq<char>>,
> {
    match response {
        Some(CommandResultView::RestoreResult(r)) => Some(r),
        _ => None,
    }
}

/// What the device said of going to sleep, if the response speaks of it.
pub open spec fn sleep_answer(response: Option<CommandResultView>) -> Option<Result<(), Seq<char>>> {
    match response {
        Some(CommandResultView::SleepResult(r)) => Some(r),
        _ => None,
    }
}

/// What the device said of waking, if the response speaks of it.
pub open spec fn wake_answer(response: Option<CommandResultView>) -> Option<Result<(), Seq<char>>> {
    match response {
        Some(CommandResultView::WakeResult(r)) => Some(r),
        _ => None,
    }
}

/// The text that reports that the device `label` failed at `operation`.
pub fn failure_text(operation: &str, label: &str, reason: &str) -> (text: String)
    ensures
        text@ == spec_failure_text(operation@, label@, reason@),
{
    let mut text = String::new();
    text.push_str("failed to ");
    text.push_str(operation);
    text.push_str(" ");
    text.push_str(label);
    text.push_str(": ");
    text.push_str(reason);
    assert(text@ =~= spec_failure_text(operation@, label@, reason@));
    text
}

/// The text that reports that no response to `operation` came, or one of
/// another kind.
pub fn unexpected_text(operation: &str) -> (text: String)
    ensures
        text@ == spec_unexpected_text(operation@),
{
    let mut text = String::new();
    text.push_str("unexpected ");
    text.push_str(operation);
    text.push_str(" result");
    assert(text@ =~= spec_unexpected_text(operation@));
    text
}

/// Completes a snapshot: the state that the device saved; the device's own
/// words where it failed, with `debug_label` in front; or a failure where the
/// response is missing or of another kind.
pub fn snapshot_response(response: Option<CommandResult>, debug_label: &str) -> (result: Result<
    serde_json::Value,
    String,
>)
    ensures
        outcome_view(result) == spec_lifecycle_response(
            snapshot_answer(response_view(response)),
            "snapshot"@,
            debug_label@,
        ),
{
    match response {
        Some(CommandResult::SnapshotResult(Ok(snap))) => Ok(snap),
        Some(CommandResult::SnapshotResult(Err(e))) => Err(
            failure_text("snapshot", debug_label, e.as_str()),
        ),
        _ => Err(unexpected_text("snapshot")),
    }
}

/// Completes a restore: success, the device's own words where it failed,
/// or a failure where the response is missing or of another kind.
pub fn restore_response(response: Option<CommandResult>, debug_label: &str) -> (result: Result<
    (),
    String,
>)
    ensures
        outcome_view(result) == spec_lifecycle_response(
            restore_answer(response_view(response)),
            "restore"@,
            debug_label@,
        ),
{
    match response {
        Some(CommandResult::RestoreResult(Ok(()))) => Ok(()),
        Some(CommandResult::RestoreResult(Err(e))) => Err(
            failure_text("restore", debug_label, e.as_str()),
        ),
        _ => Err(unexpected_text("restore")),
    }
}

/// Completes a sleep: success, the device's own words where it failed, or
/// a failure where the response is missing or of another kind.
pub fn sleep_response(response: Option<CommandResult>, debug_label: &str) -> (result: Result<
    (),
    String,
>)
    ensures
        outcome_view(result) == spec_lifecycle_response(
            sleep_answer(response_view(response)),
            "sleep"@,
            debug_label@,
        ),
{
    match response {
        Some(CommandResult::SleepResult(Ok(()))) => Ok(()),
        Some(CommandResult::SleepResult(Err(e))) => Err(
            failure_text("sleep", debug_label, e.as_str()),
        ),
        _ => Err(unexpected_text("sleep")),
    }
}

/// Completes a wake: success, the device's own words where it failed, or a
/// failure where the response is missing or of another kind.
pub fn wake_response(response: Option<CommandResult>, debug_label: &str) -> (result: Result<
    (),
    String,
>)
    ensures
        outcome_view(result) == spec_lifecycle_response(
            wake_answer(response_view(response)),
            "wake"@,
            debug_label@,
        ),
{
    match response {
        Some(CommandResult::WakeResult(Ok(()))) => Ok(()),
        Some(CommandResult::WakeResult(Err(e))) => Err(failure_text("wake", debug_label, e.as_str())),
        _ => Err(unexpected_text("wake")),
    }
}

} // verus!
