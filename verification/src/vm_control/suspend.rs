//! Holding the machine still: stopping its processors and putting its
//! devices to sleep for as long as something is done that must not be
//! disturbed, and undoing exactly that afterwards.
//!
//! Messages to processors and devices are sent by the caller; what is
//! decided here is what to send and what the answers mean.

use vstd::prelude::*;
use crate::vm_control::request::VmResponse;
use crate::vm_control::DeviceControlCommand;
use crate::vm_control::DevicesState;
use crate::vm_control::IrqHandlerResponse;
use crate::text::push_decimal;
use crate::text::spec_decimal;
use crate::vm_control::VmRunMode;

verus! {

/// Why the state of the processors is not known.
#[derive(Clone, Copy, Debug, PartialEq, Eq, Structural)]
pub enum VcpuStateError {
    /// The machine has no processor.
    NoVcpus,
    /// A processor did not report its state.
    NoReport,
    /// The processors are not all in one state: some may be on their way
    /// from one to another.
    DifferentStates,
    /// The machine is leaving.
    Exiting,
}

impl VcpuStateError {
    /// The error in words.
    pub open spec fn spec_to_string(self) -> Seq<char> {
        match self {
            VcpuStateError::NoVcpus => "vcpu_num is zero"@,
            VcpuStateError::NoReport => "Failed to get vCPU state"@,
            VcpuStateError::DifferentStates => "Unknown VM state: vCPUs hold different states."@,
            VcpuStateError::Exiting => "Attempt to snapshot while exiting."@,
        }
    }

    /// The error in words.
    pub fn to_string(&self) -> (s: String)
        ensures
            s@ == self.spec_to_string(),
    {
        match self {
            VcpuStateError::NoVcpus => "vcpu_num is zero".to_owned(),
            VcpuStateError::NoReport => "Failed to get vCPU state".to_owned(),
            VcpuStateError::DifferentStates => "Unknown VM state: vCPUs hold different states.".to_owned(),
            VcpuStateError::Exiting => "Attempt to snapshot while exiting.".to_owned(),
        }
    }
}

/// The state of the processors of a machine with `vcpu_num` processors, of
/// which `reported` are the states that came in, in the order in which they
/// came.
pub open spec fn spec_get_vcpu_state(reported: Seq<VmRunMode>, vcpu_num: nat) -> Result<
    VmRunMode,
    VcpuStateError,
> {
    if vcpu_num == 0 {
        Err(VcpuStateError::NoVcpus)
    } else if reported.len() < vcpu_num {
        Err(VcpuStateError::NoReport)
    } else if exists|i: int| 0 <= i < vcpu_num && #[trigger] reported[i] != reported[0] {
        Err(VcpuStateError::DifferentStates)
    } else {
        Ok(reported[0])
    }
}

/// The state that all processors are in. `reported` holds the states that
/// the processors reported, one for each of the `vcpu_num` processors unless
/// a report was lost. A machine that is leaving is not asked for its state.
pub fn get_vcpu_state(reported: &Vec<VmRunMode>, vcpu_num: usize) -> (r: Result<
    VmRunMode,
    VcpuStateError,
>)
    requires
        reported@.len() >= vcpu_num > 0 ==> reported@[0] != VmRunMode::Exiting,
    ensures
        r == spec_get_vcpu_state(reported@, vcpu_num as nat),
{
    if vcpu_num == 0 {
        return Err(VcpuStateError::NoVcpus);
    }
    if reported.len() < vcpu_num {
        return Err(VcpuStateError::NoReport);
    }
    let first_state = reported[0];
    let mut i: usize = 1;
    while i < vcpu_num
        invariant
            1 <= i <= vcpu_num <= reported@.len(),
            first_state == reported@[0],
            forall|k: int| 0 <= k < i ==> reported@[k] == first_state,
        decreases vcpu_num - i,
    {
        if reported[i] != first_state {
            // The processors may be on their way from one state to another.
            return Err(VcpuStateError::DifferentStates);
        }
        i += 1;
    }
    Ok(first_state)
}

/// Why the processors could not be held still.
#[derive(Clone, Copy, Debug, PartialEq, Eq, Structural)]
pub enum VcpuSuspendError {
    /// The state of the processors is not known.
    State(VcpuStateError),
    /// The processors were told to stop and did not all do so; they were
    /// told to go back to the state given here.
    FailedToSuspend(VmRunMode),
    /// The processors neither run nor are stopped, but are in the state
    /// given here.
    NotRunning(VmRunMode),
}

/// What is done first to hold the processors still.
#[derive(Clone, Copy, Debug, PartialEq, Eq, Structural)]
pub enum SuspendStep {
    /// Tell the processors to stop, then ask for their state again.
    Suspend,
    /// Nothing: the processors are stopped already.
    Keep,
}

/// Holds the processors of a machine still. When it is released, the
/// processors go back to the state in which they were found.
#[derive(Debug)]
pub struct VcpuSuspendGuard {
    saved_run_mode: VmRunMode,
}

impl VcpuSuspendGuard {
    /// The state in which the processors were found.
    pub closed spec fn spec_saved_run_mode(&self) -> VmRunMode {
        self.saved_run_mode
    }

    /// What is done first, given the state `saved_run_mode` in which the
    /// processors were found: processors that run are told to stop, and
    /// processors that are stopped are left alone. In any other state they
    /// cannot be held still.
    pub fn begin(saved_run_mode: VmRunMode) -> (r: Result<SuspendStep, VcpuSuspendError>)
        ensures
            r == match saved_run_mode {
                VmRunMode::Running => Ok::<SuspendStep, VcpuSuspendError>(SuspendStep::Suspend),
                VmRunMode::Suspending => Ok(SuspendStep::Keep),
                other => Err(VcpuSuspendError::NotRunning(other)),
            },
    {
        match saved_run_mode {
            VmRunMode::Running => Ok(SuspendStep::Suspend),
            VmRunMode::Suspending => Ok(SuspendStep::Keep),
            other => Err(VcpuSuspendError::NotRunning(other)),
        }
    }

    /// The guard over processors that were found in `saved_run_mode` and
    /// are now in `current_mode`. Processors that did not all stop are to be
    /// told to go back to `saved_run_mode`, and there is no guard.
    pub fn new(saved_run_mode: VmRunMode, current_mode: VmRunMode) -> (r: Result<
        Self,
        VcpuSuspendError,
    >)
        requires
            saved_run_mode == VmRunMode::Running || saved_run_mode == VmRunMode::Suspending,
        ensures
            match r {
                Ok(guard) => current_mode == VmRunMode::Suspending && guard.spec_saved_run_mode()
                    == saved_run_mode,
                Err(e) => current_mode != VmRunMode::Suspending && e
                    == VcpuSuspendError::FailedToSuspend(saved_run_mode),
            },
    {
        if current_mode != VmRunMode::Suspending {
            return Err(VcpuSuspendError::FailedToSuspend(saved_run_mode));
        }
        Ok(VcpuSuspendGuard { saved_run_mode })
    }

    /// Ends the guard: the state that the processors are told to go back
    /// to, or `None` where they were stopped when the guard began.
    pub fn release(self) -> (run_mode: Option<VmRunMode>)
        ensures
            run_mode == if self.spec_saved_run_mode() != VmRunMode::Suspending {
                Some(self.spec_saved_run_mode())
            } else {
                None
            },
    {
        if self.saved_run_mode != VmRunMode::Suspending {
            Some(self.saved_run_mode)
        } else {
            None
        }
    }
}

/// Why the devices could not be put to sleep.
#[derive(Clone, Copy, Debug, PartialEq, Eq, Structural)]
pub enum DeviceSleepError {
    /// The devices did not say whether they sleep.
    NoDevicesState,
    /// The devices did not go to sleep.
    SleepFailed,
}

/// Holds the devices of a machine asleep. When it is released, devices
/// that were awake are woken.
#[derive(Debug)]
pub struct DeviceSleepGuard {
    devices_state: DevicesState,
}

impl DeviceSleepGuard {
    /// The state in which the devices were found.
    pub closed spec fn spec_devices_state(&self) -> DevicesState {
        self.devices_state
    }

    /// The command that asks the devices whether they sleep.
    pub fn first_command() -> (command: DeviceControlCommand)
        ensures
            command is GetDevicesState,
    {
        DeviceControlCommand::GetDevicesState
    }

    /// Whether the devices are to be put to sleep, given what they
    /// answered when asked for their state: devices that are awake are.
    pub fn needs_sleep(state_response: &VmResponse) -> (needed: bool)
        ensures
            needed == (*state_response matches VmResponse::DevicesState(DevicesState::Wake)),
    {
        match state_response {
            VmResponse::DevicesState(DevicesState::Wake) => true,
            _ => false,
        }
    }

    /// The guard over devices that answered `state_response` when asked
    /// for their state and, where they were awake, `sleep_response` when told
    /// to sleep.
    pub fn new(state_response: VmResponse, sleep_response: Option<VmResponse>) -> (r: Result<
        Self,
        DeviceSleepError,
    >)
        ensures
            match state_response {
                VmResponse::DevicesState(DevicesState::Sleep) => r matches Ok(guard)
                    && guard.spec_devices_state() == DevicesState::Sleep,
                VmResponse::DevicesState(DevicesState::Wake) => match sleep_response {
                    Some(VmResponse::Done) => r matches Ok(guard) && guard.spec_devices_state()
                        == DevicesState::Wake,
                    _ => r == Err::<Self, DeviceSleepError>(DeviceSleepError::SleepFailed),
                },
                _ => r == Err::<Self, DeviceSleepError>(DeviceSleepError::NoDevicesState),
            },
    {
        let devices_state = match state_response {
            VmResponse::DevicesState(state) => state,
            _ => {
                return Err(DeviceSleepError::NoDevicesState);
            },
        };
        if let DevicesState::Wake = devices_state {
            match sleep_response {
                Some(VmResponse::Done) => {},
                _ => {
                    return Err(DeviceSleepError::SleepFailed);
                },
            }
        }
        Ok(DeviceSleepGuard { devices_state })
    }

    /// Ends the guard: the command that wakes the devices, where they were
    /// awake when the guard began. The devices must answer it with success.
    pub fn release(self) -> (command: Option<DeviceControlCommand>)
        ensures
            match self.spec_devices_state() {
                DevicesState::Wake => command matches Some(DeviceControlCommand::WakeDevices),
                DevicesState::Sleep => command is None,
            },
    {
        match self.devices_state {
            DevicesState::Wake => Some(DeviceControlCommand::WakeDevices),
            DevicesState::Sleep => None,
        }
    }
}

/// The most rounds that flushing the interrupts is expected to take.
pub const EXPECTED_MAX_IRQ_FLUSH_ITERATIONS: usize = 100;

/// What comes after one round of flushing the interrupts before a
/// snapshot.
#[derive(Clone, Copy, Debug, PartialEq, Eq, Structural)]
pub enum FlushStep {
    /// No interrupt was served in the round: all are delivered.
    Flushed,
    /// Interrupts were served: one of them may have raised another, so one
    /// more round is asked for.
    Again,
    /// The thread that handles interrupts answered something else.
    Unexpected,
}

/// What comes after a round of flushing that was answered with
/// `response`. Interrupts that pass through a chip in the main process take
/// two rounds to arrive, so the flushing ends only with a round that serves
/// nothing.
pub fn irq_flush_step(response: IrqHandlerResponse) -> (step: FlushStep)
    ensures
        step == match response {
            IrqHandlerResponse::HandlerIterationComplete(tokens_serviced) => if tokens_serviced
                == 0 {
                FlushStep::Flushed
            } else {
                FlushStep::Again
            },
            _ => FlushStep::Unexpected,
        },
{
    match response {
        IrqHandlerResponse::HandlerIterationComplete(tokens_serviced) => {
            if tokens_serviced == 0 {
                FlushStep::Flushed
            } else {
                FlushStep::Again
            }
        },
        _ => FlushStep::Unexpected,
    }
}

/// Whether the flushing takes longer than expected after `flush_attempts`
/// rounds that served something.
pub fn irq_flush_may_be_stalled(flush_attempts: usize) -> (stalled: bool)
    ensures
        stalled == (flush_attempts > EXPECTED_MAX_IRQ_FLUSH_ITERATIONS),
{
    flush_attempts > EXPECTED_MAX_IRQ_FLUSH_ITERATIONS
}

/// The text that says that a snapshot holds another count of processors
/// than the machine has.
pub open spec fn spec_bad_cpu_count(expected: nat, got: nat) -> Seq<char> {
    "bad cpu count in snapshot: expected="@ + spec_decimal(expected) + " got="@ + spec_decimal(got)
}

/// Checks that a snapshot with the states of `got` processors fits a
/// machine with `vcpu_size` processors.
pub fn check_cpu_count(vcpu_size: usize, got: usize) -> (r: Result<(), String>)
    ensures
        match r {
            Ok(()) => got == vcpu_size,
            Err(e) => got != vcpu_size && e@ == spec_bad_cpu_count(vcpu_size as nat, got as nat),
        },
{
    if got != vcpu_size {
        let mut e = "bad cpu count in snapshot: expected=".to_owned();
        push_decimal(&mut e, vcpu_size as u64);
        e.push_str(" got=");
        push_decimal(&mut e, got as u64);
        assert(e@ =~= spec_bad_cpu_count(vcpu_size as nat, got as nat));
        return Err(e);
    }
    Ok(())
}

} // verus!
