//! The child's side: the session that runs inside the sandbox, around the
//! real device model.
//!
//! A session waits for the handshake, then serves one request after the
//! other until it is told to shut down or the channel is gone. The caller
//! receives the messages and sends what the session hands back.

use vstd::prelude::*;
use crate::bus::BusAccessInfo;
use crate::bus::BusDevice;
use crate::bus::BusRange;
use crate::bus::BusType;
use crate::bus::ConfigWriteResult;
use crate::bus::ConfigWriteResultView;
use crate::bus::RawDescriptor;
use crate::proxy::protocol::outcome_view;
use crate::proxy::protocol::padded;
use crate::proxy::protocol::Command;
use crate::proxy::protocol::CommandResult;
use crate::proxy::protocol::CommandResultView;
use crate::proxy::protocol::CommandView;
use crate::proxy::protocol::MAX_CONFIG_DATA_LEN;
use crate::proxy::protocol::MAX_DATA_LEN;
use crate::process::Confined;
use crate::suspendable::Suspendable;

verus! {

/// Where a session stands. It only ever moves forward: from waiting for the
/// handshake to serving requests, and from either to the end.
#[derive(Clone, Copy, Debug, PartialEq, Eq, Structural)]
pub enum SessionState {
    /// Only the handshake is legal.
    AwaitingActivation,
    /// Requests are served.
    Active,
    /// Nothing is served any more.
    Terminated,
}

/// A message that shows that the descriptor of the session was misused.
#[derive(Clone, Copy, Debug, PartialEq, Eq, Structural)]
pub enum ProtocolViolation {
    /// A request came before the handshake.
    CommandBeforeActivation,
    /// The handshake came a second time.
    DuplicateActivation,
}

/// What one receive on the channel gave.
#[derive(Debug)]
pub enum Received {
    /// A request.
    Message(Command),
    /// Nothing: the other end is gone.
    Disconnected,
}

/// What the caller does after the session took a message.
#[derive(Debug)]
pub enum SessionAction {
    /// The handshake succeeded: send the acknowledgement. If it cannot be
    /// sent, the session is over.
    Activated(CommandResult),
    /// Send the response and receive the next request. A response that
    /// cannot be sent is reported, and the session goes on.
    Respond(CommandResult),
    /// Nothing is owed: receive the next request.
    Continue,
    /// The device is gone: send the acknowledgement, whether or not it
    /// arrives, and leave.
    Farewell(CommandResult),
    /// Leave without a word.
    Exit,
    /// The descriptor of the session was misused: end the process at once.
    Abort(ProtocolViolation),
}

/// One call on the device model, as the session makes it.
#[derive(Debug)]
#[allow(inconsistent_fields)]
pub enum DeviceRequest {
    Read { info: BusAccessInfo, len: usize },
    Write { info: BusAccessInfo, data: Vec<u8> },
    ReadConfig { reg_idx: usize },
    WriteConfig { reg_idx: usize, offset: u64, data: Vec<u8> },
    InitPciConfigMapping { shmem: RawDescriptor, base: usize, len: usize },
    ReadVirtualConfig { reg_idx: usize },
    WriteVirtualConfig { reg_idx: usize, value: u32 },
    DestroyDevice,
    GetRanges,
    Snapshot,
    Restore { data: serde_json::Value },
    Sleep,
    Wake,
}

/// What a call on the device model gave back.
#[derive(Debug)]
pub enum DeviceAnswer {
    /// The buffer after the read.
    Read(Vec<u8>),
    Written,
    ConfigRead(u32),
    ConfigWritten(ConfigWriteResult),
    MappingInitialized(bool),
    VirtualConfigRead(u32),
    VirtualConfigWritten,
    Destroyed,
    Ranges(Vec<(BusRange, BusType)>),
    Snapshot(Result<serde_json::Value, String>),
    Restored(Result<(), String>),
    Slept(Result<(), String>),
    Woken(Result<(), String>),
}

/// A [`DeviceRequest`] with its buffers as sequences.
#[allow(inconsistent_fields)]
pub enum DeviceRequestView {
    Read { info: BusAccessInfo, len: usize },
    Write { info: BusAccessInfo, data: Seq<u8> },
    ReadConfig { reg_idx: usize },
    WriteConfig { reg_idx: usize, offset: u64, data: Seq<u8> },
    InitPciConfigMapping { shmem: RawDescriptor, base: usize, len: usize },
    ReadVirtualConfig { reg_idx: usize },
    WriteVirtualConfig { reg_idx: usize, value: u32 },
    DestroyDevice,
    GetRanges,
    Snapshot,
    Restore { data: serde_json::Value },
    Sleep,
    Wake,
}

/// A [`DeviceAnswer`] with its lists and texts as sequences.
pub enum DeviceAnswerView {
    Read(Seq<u8>),
    Written,
    ConfigRead(u32),
    ConfigWritten(ConfigWriteResultView),
    MappingInitialized(bool),
    VirtualConfigRead(u32),
    VirtualConfigWritten,
    Destroyed,
    Ranges(Seq<(BusRange, BusType)>),
    Snapshot(Result<serde_json::Value, Seq<char>>),
    Restored(Result<(), Seq<char>>),
    Slept(Result<(), Seq<char>>),
    Woken(Result<(), Seq<char>>),
}

impl View for DeviceRequest {
    type V = DeviceRequestView;

    open spec fn view(&self) -> DeviceRequestView {
        match *self {
            DeviceRequest::Read { info, len } => DeviceRequestView::Read { info, len },
            DeviceRequest::Write { info, data } => DeviceRequestView::Write { info, data: data@ },
            DeviceRequest::ReadConfig { reg_idx } => DeviceRequestView::ReadConfig { reg_idx },
            DeviceRequest::WriteConfig { reg_idx, offset, data } => DeviceRequestView::WriteConfig {
                reg_idx,
                offset,
                data: data@,
            },
            DeviceRequest::InitPciConfigMapping {
                shmem,
                base,
                len,
            } => DeviceRequestView::InitPciConfigMapping { shmem, base, len },
            DeviceRequest::ReadVirtualConfig { reg_idx } => DeviceRequestView::ReadVirtualConfig {
                reg_idx,
            },
            DeviceRequest::WriteVirtualConfig {
                reg_idx,
                value,
            } => DeviceRequestView::WriteVirtualConfig { reg_idx, value },
            DeviceRequest::DestroyDevice => DeviceRequestView::DestroyDevice,
            DeviceRequest::GetRanges => DeviceRequestView::GetRanges,
            DeviceRequest::Snapshot => DeviceRequestView::Snapshot,
            DeviceRequest::Restore { data } => DeviceRequestView::Restore { data },
            DeviceRequest::Sleep => DeviceRequestView::Sleep,
            DeviceRequest::Wake => DeviceRequestView::Wake,
        }
    }
}

impl View for DeviceAnswer {
    type V = DeviceAnswerView;

    open spec fn view(&self) -> DeviceAnswerView {
        match *self {
            DeviceAnswer::Read(data) => DeviceAnswerView::Read(data@),
            DeviceAnswer::Written => DeviceAnswerView::Written,
            DeviceAnswer::ConfigRead(v) => DeviceAnswerView::ConfigRead(v),
            DeviceAnswer::ConfigWritten(r) => DeviceAnswerView::ConfigWritten(r@),
            DeviceAnswer::MappingInitialized(b) => DeviceAnswerView::MappingInitialized(b),
            DeviceAnswer::VirtualConfigRead(v) => DeviceAnswerView::VirtualConfigRead(v),
            DeviceAnswer::VirtualConfigWritten => DeviceAnswerView::VirtualConfigWritten,
            DeviceAnswer::Destroyed => DeviceAnswerView::Destroyed,
            DeviceAnswer::Ranges(r) => DeviceAnswerView::Ranges(r@),
            DeviceAnswer::Snapshot(r) => DeviceAnswerView::Snapshot(outcome_view(r)),
            DeviceAnswer::Restored(r) => DeviceAnswerView::Restored(outcome_view(r)),
            DeviceAnswer::Slept(r) => DeviceAnswerView::Slept(outcome_view(r)),
            DeviceAnswer::Woken(r) => DeviceAnswerView::Woken(outcome_view(r)),
        }
    }
}

impl CommandView {
    /// Whether the request is one for the device model: every request but
    /// the handshake and the shutdown, which the session answers itself.
    pub open spec fn for_device(self) -> bool {
        !(self is Activate) && !(self is Shutdown)
    }
}

impl DeviceRequestView {
    /// Whether the lengths of the call are ones that a device accepts.
    pub open spec fn well_formed(self) -> bool {
        match self {
            DeviceRequestView::Read { len, .. } => 1 <= len <= MAX_DATA_LEN,
            DeviceRequestView::Write { data, .. } => data.len() <= MAX_DATA_LEN,
            DeviceRequestView::WriteConfig { data, .. } => data.len() <= MAX_CONFIG_DATA_LEN,
            _ => true,
        }
    }

    /// Whether `answer` is of the kind that this call gives back, and of its
    /// length.
    pub open spec fn answered_by(self, answer: DeviceAnswerView) -> bool {
        match self {
            DeviceRequestView::Read { len, .. } => answer matches DeviceAnswerView::Read(data)
                && data.len() == len,
            DeviceRequestView::Write { .. } => answer is Written,
            DeviceRequestView::ReadConfig { .. } => answer is ConfigRead,
            DeviceRequestView::WriteConfig { .. } => answer is ConfigWritten,
            DeviceRequestView::InitPciConfigMapping { .. } => answer is MappingInitialized,
            DeviceRequestView::ReadVirtualConfig { .. } => answer is VirtualConfigRead,
            DeviceRequestView::WriteVirtualConfig { .. } => answer is VirtualConfigWritten,
            DeviceRequestView::DestroyDevice => answer is Destroyed,
            DeviceRequestView::GetRanges => answer is Ranges,
            DeviceRequestView::Snapshot => answer is Snapshot,
            DeviceRequestView::Restore { .. } => answer is Restored,
            DeviceRequestView::Sleep => answer is Slept,
            DeviceRequestView::Wake => answer is Woken,
        }
    }
}

/// The call on the device model that a request stands for: the same
/// arguments that the parent's caller gave, the buffers cut to their stated
/// length.
pub open spec fn spec_device_request(cmd: CommandView) -> DeviceRequestView
    recommends
        cmd.for_device(),
{
    match cmd {
        CommandView::Read { len, info } => DeviceRequestView::Read { info, len: len as usize },
        CommandView::Write { len, info, data } => DeviceRequestView::Write {
            info,
            data: data.subrange(0, len as int),
        },
        CommandView::ReadConfig(idx) => DeviceRequestView::ReadConfig { reg_idx: idx as usize },
        CommandView::WriteConfig { reg_idx, offset, len, data } => DeviceRequestView::WriteConfig {
            reg_idx: reg_idx as usize,
            offset: offset as u64,
            data: data.subrange(0, len as int),
        },
        CommandView::InitPciConfigMapping {
            shmem,
            base,
            len,
        } => DeviceRequestView::InitPciConfigMapping { shmem, base, len },
        CommandView::ReadVirtualConfig(idx) => DeviceRequestView::ReadVirtualConfig {
            reg_idx: idx as usize,
        },
        CommandView::WriteVirtualConfig { reg_idx, value } => DeviceRequestView::WriteVirtualConfig {
            reg_idx: reg_idx as usize,
            value,
        },
        CommandView::DestroyDevice => DeviceRequestView::DestroyDevice,
        CommandView::GetRanges => DeviceRequestView::GetRanges,
        CommandView::Snapshot => DeviceRequestView::Snapshot,
        CommandView::Restore { data } => DeviceRequestView::Restore { data },
        CommandView::Sleep => DeviceRequestView::Sleep,
        CommandView::Wake => DeviceRequestView::Wake,
        // The session answers these two itself.
        CommandView::Activate => DeviceRequestView::GetRanges,
        CommandView::Shutdown => DeviceRequestView::GetRanges,
    }
}

/// The response that carries what the device gave back, or `None` for the
/// two calls to which no response is owed.
pub open spec fn spec_command_result(answer: DeviceAnswerView) -> Option<CommandResultView> {
    match answer {
        DeviceAnswerView::Read(data) => Some(
            CommandResultView::ReadResult(padded(data, MAX_DATA_LEN as nat)),
        ),
        DeviceAnswerView::Written => None,
        DeviceAnswerView::ConfigRead(v) => Some(CommandResultView::ReadConfigResult(v)),
        DeviceAnswerView::ConfigWritten(r) => Some(CommandResultView::WriteConfigResult(r)),
        DeviceAnswerView::MappingInitialized(b) => Some(
            CommandResultView::InitPciConfigMappingResult(b),
        ),
        DeviceAnswerView::VirtualConfigRead(v) => Some(CommandResultView::ReadVirtualConfigResult(v)),
        DeviceAnswerView::VirtualConfigWritten => Some(CommandResultView::Done),
        DeviceAnswerView::Destroyed => None,
        DeviceAnswerView::Ranges(r) => Some(CommandResultView::GetRangesResult(r)),
        DeviceAnswerView::Snapshot(r) => Some(CommandResultView::SnapshotResult(r)),
        DeviceAnswerView::Restored(r) => Some(CommandResultView::RestoreResult(r)),
        DeviceAnswerView::Slept(r) => Some(CommandResultView::SleepResult(r)),
        DeviceAnswerView::Woken(r) => Some(CommandResultView::WakeResult(r)),
    }
}

/// The first `len` bytes of `data`.
fn prefix(data: &[u8], len: usize) -> (out: Vec<u8>)
    requires
        len <= data@.len(),
    ensures
        out@ == data@.subrange(0, len as int),
{
    let mut out: Vec<u8> = Vec::new();
    let mut i: usize = 0;
    while i < len
        invariant
            i <= len <= data@.len(),
            out@ == data@.subrange(0, i as int),
        decreases len - i,
    {
        out.push(data[i]);
        assert(out@ =~= data@.subrange(0, i + 1));
        i += 1;
    }
    out
}

/// The call on the device model that a request stands for.
pub fn device_request(cmd: Command) -> (request: DeviceRequest)
    requires
        cmd@.for_device(),
        cmd@.well_formed(),
    ensures
        request@ == spec_device_request(cmd@),
        request@.well_formed(),
{
    match cmd {
        Command::Read { len, info } => DeviceRequest::Read { info, len: len as usize },
        Command::Write { len, info, data } => DeviceRequest::Write {
            info,
            data: prefix(data.as_slice(), len as usize),
        },
        Command::ReadConfig(idx) => DeviceRequest::ReadConfig { reg_idx: idx as usize },
        Command::WriteConfig { reg_idx, offset, len, data } => DeviceRequest::WriteConfig {
            reg_idx: reg_idx as usize,
            offset: offset as u64,
            data: prefix(data.as_slice(), len as usize),
        },
        Command::InitPciConfigMapping { shmem, base, len } => DeviceRequest::InitPciConfigMapping {
            shmem,
            base,
            len,
        },
        Command::ReadVirtualConfig(idx) => DeviceRequest::ReadVirtualConfig { reg_idx: idx as usize },
        Command::WriteVirtualConfig { reg_idx, value } => DeviceRequest::WriteVirtualConfig {
            reg_idx: reg_idx as usize,
            value,
        },
        Command::DestroyDevice => DeviceRequest::DestroyDevice,
        Command::GetRanges => DeviceRequest::GetRanges,
        Command::Snapshot => DeviceRequest::Snapshot,
        Command::Restore { data } => DeviceRequest::Restore { data },
        Command::Sleep => DeviceRequest::Sleep,
        Command::Wake => DeviceRequest::Wake,
        Command::Activate => DeviceRequest::GetRanges,
        Command::Shutdown => DeviceRequest::GetRanges,
    }
}

/// The response that carries what the device gave back, or `None` for the
/// two calls to which no response is owed.
pub fn command_result(answer: DeviceAnswer) -> (result: Option<CommandResult>)
    requires
        answer matches DeviceAnswer::Read(data) ==> data@.len() <= MAX_DATA_LEN,
    ensures
        crate::proxy::handle::response_view(result) == spec_command_result(answer@),
{
    match answer {
        DeviceAnswer::Read(data) => {
            let n = data.len();
            let mut buffer = [0u8;8];
            let mut i: usize = 0;
            while i < n
                invariant
                    n == data@.len(),
                    n <= 8,
                    i <= n,
                    forall|j: int| 0 <= j < i ==> buffer@[j] == data@[j],
                    forall|j: int| i <= j < 8 ==> buffer@[j] == 0u8,
                decreases n - i,
            {
                buffer[i] = data[i];
                i += 1;
            }
            assert(buffer@ =~= padded(data@, 8));
            Some(CommandResult::ReadResult(buffer))
        },
        DeviceAnswer::Written => None,
        DeviceAnswer::ConfigRead(v) => Some(CommandResult::ReadConfigResult(v)),
        DeviceAnswer::ConfigWritten(r) => Some(
            CommandResult::WriteConfigResult {
                mmio_remove: r.mmio_remove,
                mmio_add: r.mmio_add,
                io_remove: r.io_remove,
                io_add: r.io_add,
                removed_pci_devices: r.removed_pci_devices,
            },
        ),
        DeviceAnswer::MappingInitialized(b) => Some(CommandResult::InitPciConfigMappingResult(b)),
        DeviceAnswer::VirtualConfigRead(v) => Some(CommandResult::ReadVirtualConfigResult(v)),
        DeviceAnswer::VirtualConfigWritten => Some(CommandResult::Done),
        DeviceAnswer::Destroyed => None,
        DeviceAnswer::Ranges(r) => Some(CommandResult::GetRangesResult(r)),
        DeviceAnswer::Snapshot(r) => Some(CommandResult::SnapshotResult(r)),
        DeviceAnswer::Restored(r) => Some(CommandResult::RestoreResult(r)),
        DeviceAnswer::Slept(r) => Some(CommandResult::SleepResult(r)),
        DeviceAnswer::Woken(r) => Some(CommandResult::WakeResult(r)),
    }
}

/// Makes one call on the device model and hands back what it gave. A read
/// starts from a buffer of zeros.
pub fn perform<D: BusDevice + Suspendable>(device: &mut D, request: DeviceRequest) -> (answer:
    DeviceAnswer)
    requires
        request@.well_formed(),
    ensures
        request@.answered_by(answer@),
{
    match request {
        DeviceRequest::Read { info, len } => {
            let mut buffer: Vec<u8> = vec![0u8; len];
            device.read(info, buffer.as_mut_slice());
            DeviceAnswer::Read(buffer)
        },
        DeviceRequest::Write { info, data } => {
            device.write(info, data.as_slice());
            DeviceAnswer::Written
        },
        DeviceRequest::ReadConfig { reg_idx } => DeviceAnswer::ConfigRead(
            device.config_register_read(reg_idx),
        ),
        DeviceRequest::WriteConfig { reg_idx, offset, data } => DeviceAnswer::ConfigWritten(
            device.config_register_write(reg_idx, offset, data.as_slice()),
        ),
        DeviceRequest::InitPciConfigMapping { shmem, base, len } => DeviceAnswer::MappingInitialized(
            device.init_pci_config_mapping(shmem, base, len),
        ),
        DeviceRequest::ReadVirtualConfig { reg_idx } => DeviceAnswer::VirtualConfigRead(
            device.virtual_config_register_read(reg_idx),
        ),
        DeviceRequest::WriteVirtualConfig { reg_idx, value } => {
            device.virtual_config_register_write(reg_idx, value);
            DeviceAnswer::VirtualConfigWritten
        },
        DeviceRequest::DestroyDevice => {
            device.destroy_device();
            DeviceAnswer::Destroyed
        },
        DeviceRequest::GetRanges => DeviceAnswer::Ranges(device.get_ranges()),
        DeviceRequest::Snapshot => DeviceAnswer::Snapshot(device.snapshot()),
        DeviceRequest::Restore { data } => DeviceAnswer::Restored(device.restore(data)),
        DeviceRequest::Sleep => DeviceAnswer::Slept(device.sleep()),
        DeviceRequest::Wake => DeviceAnswer::Woken(device.wake()),
    }
}

/// What a session does with what it received, before the device is asked.
#[derive(Clone, Copy, Debug, PartialEq, Eq, Structural)]
pub enum Step {
    /// Acknowledge the handshake and start serving.
    Activate,
    /// Hand the request to the device.
    Forward,
    /// Destroy the device, acknowledge, and end.
    Shutdown,
    /// End without a word.
    Leave,
    /// End the process: the descriptor of the session was misused.
    Abort(ProtocolViolation),
}

/// The step that a session in `state` takes on a request, or on the loss of
/// the channel (`None`).
pub open spec fn spec_step(state: SessionState, received: Option<CommandView>) -> Step {
    match state {
        SessionState::Terminated => Step::Leave,
        SessionState::AwaitingActivation => match received {
            None => Step::Leave,
            Some(CommandView::Activate) => Step::Activate,
            Some(_) => Step::Abort(ProtocolViolation::CommandBeforeActivation),
        },
        SessionState::Active => match received {
            None => Step::Leave,
            Some(CommandView::Activate) => Step::Abort(ProtocolViolation::DuplicateActivation),
            Some(CommandView::Shutdown) => Step::Shutdown,
            Some(_) => Step::Forward,
        },
    }
}

/// The state of a session after `step`.
pub open spec fn spec_next_state(state: SessionState, step: Step) -> SessionState {
    match step {
        Step::Activate => SessionState::Active,
        Step::Forward => state,
        Step::Shutdown => SessionState::Terminated,
        Step::Leave => SessionState::Terminated,
        Step::Abort(_) => SessionState::Terminated,
    }
}

/// What was received, as the request it holds, if any.
pub open spec fn received_view(received: Received) -> Option<CommandView> {
    match received {
        Received::Message(cmd) => Some(cmd@),
        Received::Disconnected => None,
    }
}

impl SessionAction {
    /// The response that the action asks the caller to send, if any.
    pub open spec fn response(self) -> Option<CommandResultView> {
        match self {
            SessionAction::Activated(r) => Some(r@),
            SessionAction::Respond(r) => Some(r@),
            SessionAction::Farewell(r) => Some(r@),
            _ => None,
        }
    }
}

/// The step that a session in `state` takes on the request `cmd`.
pub fn step_on_command(state: SessionState, cmd: &Command) -> (s: Step)
    ensures
        s == spec_step(state, Some(cmd@)),
{
    match state {
        SessionState::Terminated => Step::Leave,
        SessionState::AwaitingActivation => match cmd {
            Command::Activate => Step::Activate,
            _ => Step::Abort(ProtocolViolation::CommandBeforeActivation),
        },
        SessionState::Active => match cmd {
            Command::Activate => Step::Abort(ProtocolViolation::DuplicateActivation),
            Command::Shutdown => Step::Shutdown,
            _ => Step::Forward,
        },
    }
}

/// The step that a session in `state` takes on what it received.
pub fn step(state: SessionState, received: &Received) -> (s: Step)
    ensures
        s == spec_step(state, received_view(*received)),
{
    match received {
        Received::Disconnected => Step::Leave,
        Received::Message(cmd) => step_on_command(state, cmd),
    }
}

/// A session: the device model that it owns, and where it stands.
///
/// The device lives exactly as long as the session has not ended.
pub struct SandboxedSession<D> {
    state: SessionState,
    device: Option<D>,
}

impl<D: BusDevice + Suspendable> SandboxedSession<D> {
    /// Where the session stands.
    pub closed spec fn spec_state(&self) -> SessionState {
        self.state
    }

    /// Whether the session still owns its device.
    pub closed spec fn has_device(&self) -> bool {
        self.device is Some
    }

    /// The device is there exactly while the session has not ended.
    pub closed spec fn well_formed(&self) -> bool {
        (self.state is Terminated) == (self.device is None)
    }

    /// A session around `device` in a process that is confined: the
    /// sandbox is applied and the descriptors that are not kept are closed
    /// before the device can be reached. The device is told that it is inside
    /// the sandbox, and the session waits for the handshake.
    pub fn new(device: D, confined: Confined) -> (session: Self)
        ensures
            session.well_formed(),
            session.spec_state() == SessionState::AwaitingActivation,
            session.has_device(),
    {
        let mut device = device;
        device.on_sandboxed();
        SandboxedSession { state: SessionState::AwaitingActivation, device: Some(device) }
    }

    /// Where the session stands.
    pub fn state(&self) -> (state: SessionState)
        ensures
            state == self.spec_state(),
    {
        self.state
    }

    /// Ends the session and destroys the device. Called where the
    /// acknowledgement of the handshake could not be sent.
    pub fn terminate(&mut self)
        ensures
            final(self).well_formed(),
            final(self).spec_state() == SessionState::Terminated,
            !final(self).has_device(),
    {
        self.device = None;
        self.state = SessionState::Terminated;
    }
}

/// Takes what one receive on the channel gave, and says what to do next.
///
/// Before the handshake only the handshake is legal; any other request
/// aborts. After it, each request but a second handshake goes to the device,
/// and what the device gave comes back as the response; the device's own
/// failures travel as text and never end the session. On shutdown the device
/// is destroyed before the acknowledgement is handed out. Once the session
/// has ended nothing is served.
pub fn child_proc<D: BusDevice + Suspendable>(
    session: &mut SandboxedSession<D>,
    received: Received,
) -> (action: SessionAction)
    requires
        old(session).well_formed(),
        received matches Received::Message(cmd) ==> cmd@.well_formed(),
    ensures
        final(session).well_formed(),
        final(session).spec_state() == spec_next_state(
            old(session).spec_state(),
            spec_step(old(session).spec_state(), received_view(received)),
        ),
        final(session).has_device() == !(final(session).spec_state() is Terminated),
        match spec_step(old(session).spec_state(), received_view(received)) {
            Step::Activate => action matches SessionAction::Activated(r) && r@
                == CommandResultView::Done,
            Step::Forward => exists|answer: DeviceAnswerView|
                {
                    &&& spec_device_request(received_view(received)->0).answered_by(answer)
                    &&& action.response() == #[trigger] spec_command_result(answer)
                    &&& (action is Respond || action is Continue)
                },
            Step::Shutdown => action matches SessionAction::Farewell(r) && r@
                == CommandResultView::Done && !final(session).has_device(),
            Step::Leave => action is Exit,
            Step::Abort(violation) => action == SessionAction::Abort(violation),
        },
{
    let cmd = match received {
        Received::Message(cmd) => cmd,
        Received::Disconnected => {
            session.device = None;
            session.state = SessionState::Terminated;
            return SessionAction::Exit;
        },
    };
    match step_on_command(session.state, &cmd) {
        Step::Activate => {
            session.state = SessionState::Active;
            SessionAction::Activated(CommandResult::Done)
        },
        Step::Forward => {
            let request = device_request(cmd);
            match &mut session.device {
                Some(device) => {
                    let answer = perform(device, request);
                    match command_result(answer) {
                        Some(result) => SessionAction::Respond(result),
                        None => SessionAction::Continue,
                    }
                },
                None => unreached(),
            }
        },
        Step::Shutdown => {
            // The device goes first, so that its teardown has run when the
            // parent sees the acknowledgement.
            session.device = None;
            session.state = SessionState::Terminated;
            SessionAction::Farewell(CommandResult::Done)
        },
        Step::Leave => {
            session.device = None;
            session.state = SessionState::Terminated;
            SessionAction::Exit
        },
        Step::Abort(violation) => {
            session.device = None;
            session.state = SessionState::Terminated;
            SessionAction::Abort(violation)
        },
    }
}

} // verus!
