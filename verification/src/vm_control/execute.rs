//! Carrying out a request to the main process of the machine.
//!
//! The machine itself, with its processors, devices and channels, is reached
//! through [`Machine`]. What is decided here is what the machine is asked
//! for, in which order, and what each of its answers means for the response.

use vstd::prelude::*;
use crate::errno::Error;
use crate::errno::EINVAL;
use crate::errno::EIO;
use crate::errno::ENODEV;
use crate::errno::ENOTSUP;
use crate::vm_control::request::handle_disk_command;
use crate::vm_control::request::VmRequest;
use crate::vm_control::request::VmResponse;
use crate::vm_control::suspend::get_vcpu_state;
use crate::vm_control::suspend::spec_get_vcpu_state;
use crate::vm_control::suspend::SuspendStep;
use crate::vm_control::suspend::VcpuStateError;
use crate::vm_control::suspend::VcpuSuspendError;
use crate::vm_control::suspend::VcpuSuspendGuard;
use crate::vm_control::BatControlCommand;
use crate::vm_control::BatControlResult;
use crate::vm_control::BatteryType;
use crate::vm_control::DeviceControlCommand;
use crate::vm_control::DevicesState;
use crate::vm_control::DiskControlCommand;
use crate::vm_control::DiskControlResult;
use crate::vm_control::SwapCommand;
use crate::vm_control::UsbControlCommand;
use crate::vm_control::UsbControlResult;
use crate::vm_control::VmRunMode;

verus! {

/// What the processors of the machine are told.
#[derive(Clone, Copy, Debug, PartialEq, Eq, Structural)]
pub enum VcpuControl {
    /// Run in this mode from now on.
    RunState(VmRunMode),
    /// Make the real-time processor real-time.
    MakeRT,
}

/// A running machine, as the main process offers it. Nothing is promised
/// of what it does. What is sent returns whether it was sent; what is
/// received returns `None` where nothing came.
pub trait Machine {
    /// Whether the machine has power management.
    fn has_pm(&self) -> bool;

    /// Presses the power button.
    fn pwrbtn_evt(&mut self);

    /// Presses the sleep button.
    fn slpbtn_evt(&mut self);

    /// Raises the interrupt of the clock.
    fn rtc_evt(&mut self);

    /// Raises a general-purpose event.
    fn gpe_evt(&mut self, gpe: u32);

    /// Raises a power-management event of PCI.
    fn pme_evt(&mut self, requester_id: u16);

    /// Tells all processors.
    fn kick_vcpus(&mut self, control: VcpuControl);

    /// Asks all processors for their state, and returns the states that
    /// came in.
    fn vcpu_states(&mut self) -> Vec<VmRunMode>;

    /// Sends a command to the devices.
    fn send_device_control(&mut self, command: DeviceControlCommand) -> bool;

    /// Receives what the devices answer.
    fn recv_device_control(&mut self) -> Option<VmResponse>;

    /// Whether the machine has a USB controller that takes commands.
    fn has_usb(&self) -> bool;

    /// Sends a command to the USB controller.
    fn send_usb(&mut self, command: &UsbControlCommand) -> bool;

    /// Receives what the USB controller answers.
    fn recv_usb(&mut self) -> Option<UsbControlResult>;

    /// The kind of battery of the machine, if it has one.
    fn battery_type(&self) -> Option<BatteryType>;

    /// Sends a command to the battery.
    fn send_bat(&mut self, command: &BatControlCommand) -> bool;

    /// Receives what the battery answers.
    fn recv_bat(&mut self) -> Option<BatControlResult>;

    /// Whether the memory of the guest can be swapped.
    fn has_swap(&self) -> bool;

    /// Stops the processes of the devices while the swap is switched on,
    /// and says whether it could.
    fn swap_suspend_devices(&mut self) -> bool;

    /// Lets the processes of the devices run again.
    fn swap_resume_devices(&mut self);

    /// Carries out a command of the swap, and returns its status as text
    /// where the command asks for it, or `Err` where it failed.
    fn swap(&mut self, command: SwapCommand) -> Result<Option<String>, ()>;

    /// Takes a snapshot of the machine, and says whether it could.
    fn snapshot(&mut self, snapshot_path: &str) -> bool;

    /// Restores a snapshot of the machine, and says whether it could.
    fn restore(&mut self, restore_path: &str) -> bool;
}

/// The way to one disk of the machine. Nothing is promised of what it
/// does.
pub trait DiskTube {
    /// Sends a command to the disk, and says whether it was sent.
    fn send(&self, command: &DiskControlCommand) -> bool;

    /// Receives what the disk answers; `None` where nothing came.
    fn recv(&self) -> Option<DiskControlResult>;
}

/// Whether `response` is the failure with the number `errno`.
pub open spec fn failed_with(response: VmResponse, errno: i32) -> bool {
    response matches VmResponse::Failed(e) && e.spec_errno() == errno
}

/// The response to a command to the disk with the index `disk_index` of
/// a machine with `disks` disks, before anything is sent: there is no such
/// device where the index is not below the count. `None` says that the
/// command is to be sent.
pub fn disk_precheck(disk_index: usize, disks: usize) -> (response: Option<VmResponse>)
    ensures
        if disk_index >= disks {
            response matches Some(r) && failed_with(r, ENODEV)
        } else {
            response is None
        },
{
    if disk_index >= disks {
        Some(VmResponse::Failed(Error::new(ENODEV)))
    } else {
        None
    }
}

/// The response to a request that needs power management: success with
/// it, and without it the error of what is not supported.
pub fn pm_response(has_pm: bool) -> (response: VmResponse)
    ensures
        has_pm ==> response is Done,
        !has_pm ==> (response matches VmResponse::Failed(e) && e.spec_errno() == ENOTSUP),
{
    if has_pm {
        VmResponse::Done
    } else {
        VmResponse::Failed(Error::new(ENOTSUP))
    }
}

/// What the answer of the devices means where they were told to sleep or to
/// wake: success if they said so, and else a failure of input and output.
pub fn sleep_wake_response(sent: bool, received: &Option<VmResponse>) -> (ok: bool)
    ensures
        ok == (sent && *received matches Some(VmResponse::Done)),
{
    sent && match received {
        Some(VmResponse::Done) => true,
        _ => false,
    }
}

/// Whether the processors may be resumed, given what the devices answered
/// when asked for their state: they may while the devices are awake. The
/// error is one of input and output where the question could not be sent, and
/// an invalid argument where no state came back or the devices sleep.
pub fn may_resume_vcpus(sent: bool, received: &Option<VmResponse>) -> (r: Result<(), Error>)
    ensures
        match r {
            Ok(()) => sent && *received matches Some(VmResponse::DevicesState(DevicesState::Wake)),
            Err(e) => if !sent {
                e.spec_errno() == EIO
            } else {
                e.spec_errno() == EINVAL && !(*received matches Some(
                    VmResponse::DevicesState(DevicesState::Wake),
                ))
            },
        },
{
    if !sent {
        return Err(Error::new(EIO));
    }
    match received {
        Some(VmResponse::DevicesState(DevicesState::Wake)) => Ok(()),
        _ => Err(Error::new(EINVAL)),
    }
}

/// The response of the USB controller or the battery, passed on; a failure
/// of input and output where the command could not be sent or nothing came
/// back.
pub fn usb_response(sent: bool, received: Option<UsbControlResult>) -> (response: VmResponse)
    ensures
        match (sent, received) {
            (true, Some(result)) => response matches VmResponse::UsbResponse(r) && r == result,
            _ => response matches VmResponse::Failed(e) && e.spec_errno() == EIO,
        },
{
    if !sent {
        return VmResponse::Failed(Error::new(EIO));
    }
    match received {
        Some(result) => VmResponse::UsbResponse(result),
        None => VmResponse::Failed(Error::new(EIO)),
    }
}

/// The response to a command to a battery of the kind `wanted`, where the
/// machine has a battery of the kind `present`, if any: without a battery the
/// response says so; a battery of another kind makes the command invalid.
/// `None` says that the command is to be sent.
pub fn bat_precheck(present: Option<BatteryType>, wanted: BatteryType) -> (response: Option<
    VmResponse,
>)
    ensures
        match present {
            None => response matches Some(VmResponse::BatResponse(BatControlResult::NoBatDevice)),
            Some(kind) => if kind == wanted {
                response is None
            } else {
                response matches Some(VmResponse::Failed(e)) && e.spec_errno() == EINVAL
            },
        },
{
    match present {
        None => Some(VmResponse::BatResponse(BatControlResult::NoBatDevice)),
        Some(kind) => if kind == wanted {
            None
        } else {
            Some(VmResponse::Failed(Error::new(EINVAL)))
        },
    }
}

/// The response of the battery, passed on; a failure of input and output
/// where the command could not be sent or nothing came back.
pub fn bat_response(sent: bool, received: Option<BatControlResult>) -> (response: VmResponse)
    ensures
        match (sent, received) {
            (true, Some(result)) => response matches VmResponse::BatResponse(r) && r == result,
            _ => response matches VmResponse::Failed(e) && e.spec_errno() == EIO,
        },
{
    if !sent {
        return VmResponse::Failed(Error::new(EIO));
    }
    match received {
        Some(result) => VmResponse::BatResponse(result),
        None => VmResponse::Failed(Error::new(EIO)),
    }
}

/// The response to a command of the swap, given what came of it: success,
/// the status where the command asked for it, or an invalid argument where it
/// failed.
pub fn swap_response(outcome: Result<Option<String>, ()>) -> (response: VmResponse)
    ensures
        match outcome {
            Ok(None) => response is Done,
            Ok(Some(status)) => response matches VmResponse::SwapStatus(s) && s == status,
            Err(()) => response matches VmResponse::Failed(e) && e.spec_errno() == EINVAL,
        },
{
    match outcome {
        Ok(None) => VmResponse::Done,
        Ok(Some(status)) => VmResponse::SwapStatus(status),
        Err(()) => VmResponse::Failed(Error::new(EINVAL)),
    }
}

/// The state that all processors of a machine with `vcpu_num` processors
/// are in, of which `reported` are the states that came in: that of a
/// machine that is leaving counts as not known, and any other is what the
/// reports say.
pub open spec fn spec_vcpu_state(reported: Seq<VmRunMode>, vcpu_num: nat) -> Result<
    VmRunMode,
    VcpuStateError,
> {
    if vcpu_num > 0 && reported.len() >= vcpu_num && reported[0] == VmRunMode::Exiting {
        Err(VcpuStateError::Exiting)
    } else {
        spec_get_vcpu_state(reported, vcpu_num)
    }
}

/// The state in which the processors were found when they are held
/// still, or why they are not, where `found` is the state in which they
/// were found and `stopped` the state in which they are after they were
/// told to stop.
///
/// Processors that are stopped are left alone. Processors that run are
/// told to stop, and must then all be stopped. In any other state they
/// cannot be held still.
pub open spec fn spec_suspend_vcpus(
    found: Result<VmRunMode, VcpuStateError>,
    stopped: Result<VmRunMode, VcpuStateError>,
) -> Result<VmRunMode, VcpuSuspendError> {
    match found {
        Err(e) => Err(VcpuSuspendError::State(e)),
        Ok(VmRunMode::Suspending) => Ok(VmRunMode::Suspending),
        Ok(VmRunMode::Running) => match stopped {
            Err(e) => Err(VcpuSuspendError::State(e)),
            Ok(VmRunMode::Suspending) => Ok(VmRunMode::Running),
            Ok(_) => Err(VcpuSuspendError::FailedToSuspend(VmRunMode::Running)),
        },
        Ok(other) => Err(VcpuSuspendError::NotRunning(other)),
    }
}

/// Whether `r` is what holding the processors still gives, where `first`
/// are the states that the processors reported when they were found and
/// `second` the states that they reported after they were told to stop.
pub open spec fn is_suspended(
    first: Seq<VmRunMode>,
    second: Seq<VmRunMode>,
    vcpu_num: nat,
    r: Result<VcpuSuspendGuard, VcpuSuspendError>,
) -> bool {
    match spec_suspend_vcpus(spec_vcpu_state(first, vcpu_num), spec_vcpu_state(second, vcpu_num)) {
        Ok(saved) => r matches Ok(guard) && guard.spec_saved_run_mode() == saved,
        Err(e) => r matches Err(failure) && failure == e,
    }
}

/// The state that all processors of `machine` are in. Processors that are
/// leaving cannot be held still: their state counts as not known.
fn vcpu_state<M: Machine>(machine: &mut M, vcpu_num: usize) -> (r: Result<VmRunMode, VcpuStateError>)
    ensures
        exists|reported: Seq<VmRunMode>| r == #[trigger] spec_vcpu_state(reported, vcpu_num as nat),
{
    let reported = machine.vcpu_states();
    if vcpu_num > 0 && reported.len() >= vcpu_num && reported[0] == VmRunMode::Exiting {
        assert(spec_vcpu_state(reported@, vcpu_num as nat) == Err::<VmRunMode, VcpuStateError>(
            VcpuStateError::Exiting,
        ));
        return Err(VcpuStateError::Exiting);
    }
    let r = get_vcpu_state(&reported, vcpu_num);
    assert(r == spec_vcpu_state(reported@, vcpu_num as nat));
    r
}

/// Holds the processors of `machine` still: processors that run are told
/// to stop, and must all have stopped when they are asked again. What the
/// processors report decides, as [`spec_suspend_vcpus`] says.
pub fn suspend_vcpus<M: Machine>(machine: &mut M, vcpu_num: usize) -> (r: Result<
    VcpuSuspendGuard,
    VcpuSuspendError,
>)
    ensures
        exists|first: Seq<VmRunMode>, second: Seq<VmRunMode>| #[trigger]
            is_suspended(first, second, vcpu_num as nat, r),
        r matches Ok(guard) ==> guard.spec_saved_run_mode() == VmRunMode::Running
            || guard.spec_saved_run_mode() == VmRunMode::Suspending,
{
    let found = vcpu_state(machine, vcpu_num);
    let ghost first = choose|reported: Seq<VmRunMode>|
        found == #[trigger] spec_vcpu_state(reported, vcpu_num as nat);
    let saved_run_mode = match found {
        Ok(mode) => mode,
        Err(e) => {
            let r = Err(VcpuSuspendError::State(e));
            assert(is_suspended(first, first, vcpu_num as nat, r));
            return r;
        },
    };
    match VcpuSuspendGuard::begin(saved_run_mode) {
        Err(e) => {
            let r = Err(e);
            assert(is_suspended(first, first, vcpu_num as nat, r));
            r
        },
        Ok(SuspendStep::Keep) => {
            let r = VcpuSuspendGuard::new(saved_run_mode, VmRunMode::Suspending);
            assert(is_suspended(first, first, vcpu_num as nat, r));
            r
        },
        Ok(SuspendStep::Suspend) => {
            machine.kick_vcpus(VcpuControl::RunState(VmRunMode::Suspending));
            let stopped = vcpu_state(machine, vcpu_num);
            let ghost second = choose|reported: Seq<VmRunMode>|
                stopped == #[trigger] spec_vcpu_state(reported, vcpu_num as nat);
            let current_mode = match stopped {
                Ok(mode) => mode,
                Err(e) => {
                    let r = Err(VcpuSuspendError::State(e));
                    assert(is_suspended(first, second, vcpu_num as nat, r));
                    return r;
                },
            };
            match VcpuSuspendGuard::new(saved_run_mode, current_mode) {
                Ok(guard) => {
                    let r = Ok(guard);
                    assert(is_suspended(first, second, vcpu_num as nat, r));
                    r
                },
                Err(e) => {
                    // The processors go back to where they were.
                    machine.kick_vcpus(VcpuControl::RunState(saved_run_mode));
                    let r = Err(e);
                    assert(is_suspended(first, second, vcpu_num as nat, r));
                    r
                },
            }
        },
    }
}

/// Lets the processors of `machine` go back to where `guard` found them.
pub fn resume_vcpus<M: Machine>(machine: &mut M, guard: VcpuSuspendGuard) {
    if let Some(mode) = guard.release() {
        machine.kick_vcpus(VcpuControl::RunState(mode));
    }
}

/// What the machine answered to the calls that one request makes of it.
/// A request reads only the answers to its own calls.
pub struct MachineAnswers {
    /// Whether the machine has power management.
    pub has_pm: bool,
    /// Whether the message of the request was sent.
    pub sent: bool,
    /// What the devices answered.
    pub devices: Option<VmResponse>,
    /// What the disk answered.
    pub disk: Option<DiskControlResult>,
    /// Whether the machine has a USB controller.
    pub has_usb: bool,
    /// What the USB controller answered.
    pub usb: Option<UsbControlResult>,
    /// The kind of battery of the machine.
    pub battery: Option<BatteryType>,
    /// What the battery answered.
    pub bat: Option<BatControlResult>,
    /// Whether the memory of the guest can be swapped.
    pub has_swap: bool,
    /// Whether the processes of the devices could be stopped.
    pub devices_stopped: bool,
    /// What came of the command of the swap.
    pub swap: Result<Option<String>, ()>,
    /// The states that the processors reported when first asked.
    pub first: Seq<VmRunMode>,
    /// The states that the processors reported when asked again.
    pub second: Seq<VmRunMode>,
    /// Whether the snapshot was taken or restored.
    pub done: bool,
}

/// Whether `response` is what a request that needs power management is
/// answered with.
pub open spec fn is_pm_response(has_pm: bool, response: VmResponse) -> bool {
    if has_pm {
        response is Done
    } else {
        failed_with(response, ENOTSUP)
    }
}

/// Whether `response` is success where `ok`, and else the failure with
/// the number `errno`.
pub open spec fn done_or(ok: bool, errno: i32, response: VmResponse) -> bool {
    if ok {
        response is Done
    } else {
        failed_with(response, errno)
    }
}

/// Whether the devices said that they did what they were told.
pub open spec fn devices_agreed(a: MachineAnswers) -> bool {
    a.sent && a.devices matches Some(VmResponse::Done)
}

/// Whether the devices said that they are awake.
pub open spec fn devices_awake(a: MachineAnswers) -> bool {
    a.sent && a.devices matches Some(VmResponse::DevicesState(DevicesState::Wake))
}

/// Whether `response` answers `request` on a machine with `disks` disks
/// and `vcpu_num` processors that gave the answers `a`.
///
/// A request that the main process alone carries out succeeds. A button
/// or an event needs power management. The processors are resumed only
/// while the devices are awake. The swap needs a machine that can swap,
/// and to switch it on the processors and the devices must stand still.
/// The machine is suspended once its processors have stopped and its
/// devices sleep, and resumed once its devices are awake. A command goes
/// to a disk, to the USB controller or to the battery only where there is
/// one, and what comes back is passed on.
pub open spec fn answers_request(
    request: VmRequest,
    a: MachineAnswers,
    disks: nat,
    force_s2idle: bool,
    vcpu_num: nat,
    response: VmResponse,
) -> bool {
    match request {
        VmRequest::Exit => response is Done,
        VmRequest::SuspendVcpus => response is Done,
        VmRequest::MakeRT => response is Done,
        VmRequest::HotPlugVfioCommand { .. } => response is Done,
        VmRequest::RegisterListener { .. } => response is Done,
        VmRequest::UnregisterListener { .. } => response is Done,
        VmRequest::Unregister { .. } => response is Done,
        VmRequest::HotPlugNetCommand(_) => response matches VmResponse::ErrString(e) && e@
            == "hot plug not supported"@,
        VmRequest::Powerbtn => is_pm_response(a.has_pm, response),
        VmRequest::Sleepbtn => is_pm_response(a.has_pm, response),
        VmRequest::Rtc => is_pm_response(a.has_pm, response),
        VmRequest::Gpe(_) => is_pm_response(a.has_pm, response),
        VmRequest::PciPme(_) => is_pm_response(a.has_pm, response),
        VmRequest::ResumeVcpus => if !a.sent {
            failed_with(response, EIO)
        } else if !devices_awake(a) {
            failed_with(response, EINVAL)
        } else if force_s2idle {
            is_pm_response(a.has_pm, response)
        } else {
            response is Done
        },
        VmRequest::Swap(command) => if !a.has_swap {
            failed_with(response, ENOTSUP)
        } else {
            match command {
                SwapCommand::Enable => done_or(
                    spec_suspend_vcpus(
                        spec_vcpu_state(a.first, vcpu_num),
                        spec_vcpu_state(a.second, vcpu_num),
                    ) is Ok && a.devices_stopped && a.swap is Ok,
                    EINVAL,
                    response,
                ),
                SwapCommand::Status => match a.swap {
                    Ok(None) => response is Done,
                    Ok(Some(status)) => response matches VmResponse::SwapStatus(s) && s == status,
                    Err(_) => failed_with(response, EINVAL),
                },
                _ => done_or(a.swap is Ok, EINVAL, response),
            }
        },
        VmRequest::SuspendVm => done_or(
            spec_vcpu_state(a.first, vcpu_num) == Ok::<VmRunMode, VcpuStateError>(
                VmRunMode::Suspending,
            ) && devices_agreed(a),
            EIO,
            response,
        ),
        VmRequest::ResumeVm => done_or(devices_agreed(a), EIO, response),
        VmRequest::DiskCommand { disk_index, .. } => if disk_index >= disks {
            failed_with(response, ENODEV)
        } else {
            match (a.sent, a.disk) {
                (true, Some(DiskControlResult::Done)) => response is Done,
                (true, Some(DiskControlResult::Failed(e))) => response matches VmResponse::Failed(
                    cause,
                ) && cause == e,
                _ => failed_with(response, EINVAL),
            }
        },
        VmRequest::UsbCommand(_) => if !a.has_usb {
            failed_with(response, ENODEV)
        } else {
            match (a.sent, a.usb) {
                (true, Some(result)) => response matches VmResponse::UsbResponse(r) && r == result,
                _ => failed_with(response, EIO),
            }
        },
        VmRequest::BatCommand(wanted, _) => match a.battery {
            None => response matches VmResponse::BatResponse(BatControlResult::NoBatDevice),
            Some(kind) => if kind != wanted {
                failed_with(response, EINVAL)
            } else {
                match (a.sent, a.bat) {
                    (true, Some(result)) => response matches VmResponse::BatResponse(r) && r
                        == result,
                    _ => failed_with(response, EIO),
                }
            },
        },
        VmRequest::Snapshot(_) => done_or(a.done, EIO, response),
        VmRequest::Restore(_) => done_or(a.done, EIO, response),
    }
}

/// The mode that the processors are to take up after `request`: a request
/// to exit or to suspend the processors sets it, a request to resume them
/// sets it where the devices are awake, and no other request touches it.
pub open spec fn spec_run_mode_after(
    request: VmRequest,
    a: MachineAnswers,
    before: Option<VmRunMode>,
) -> Option<VmRunMode> {
    match request {
        VmRequest::Exit => Some(VmRunMode::Exiting),
        VmRequest::SuspendVcpus => Some(VmRunMode::Suspending),
        VmRequest::ResumeVcpus => if devices_awake(a) {
            Some(VmRunMode::Running)
        } else {
            before
        },
        _ => before,
    }
}

/// Whether response and mode are what carrying out `request` gives on a
/// machine that gave the answers `a`.
pub open spec fn is_executed(
    request: VmRequest,
    a: MachineAnswers,
    disks: nat,
    force_s2idle: bool,
    vcpu_num: nat,
    before: Option<VmRunMode>,
    after: Option<VmRunMode>,
    response: VmResponse,
) -> bool {
    &&& answers_request(request, a, disks, force_s2idle, vcpu_num, response)
    &&& after == spec_run_mode_after(request, a, before)
}

/// Answers of which nothing is known.
pub open spec fn some_answers() -> MachineAnswers {
    arbitrary()
}

impl VmRequest {
    /// Carries the request out on `machine`, and returns the response that
    /// goes back to whoever sent the request.
    ///
    /// `run_mode` is the mode that the processors are to take up;
    /// `disk_host_tubes` are the ways to the disks, by their index;
    /// `vcpu_size` is the count of processors; with `force_s2idle` the power
    /// button is pressed when the processors are resumed, to wake a guest
    /// that sleeps.
    ///
    /// Response and mode are what [`answers_request`] and
    /// [`spec_run_mode_after`] say, for some answers of the machine. A
    /// command to a disk that the machine does not have is answered without
    /// asking anything.
    pub fn execute<M: Machine, D: DiskTube>(
        &self,
        run_mode: &mut Option<VmRunMode>,
        disk_host_tubes: &[D],
        machine: &mut M,
        force_s2idle: bool,
        vcpu_size: usize,
    ) -> (response: VmResponse)
        ensures
            exists|a: MachineAnswers| #[trigger]
                is_executed(
                    *self,
                    a,
                    disk_host_tubes@.len(),
                    force_s2idle,
                    vcpu_size as nat,
                    *old(run_mode),
                    *final(run_mode),
                    response,
                ),
    {
        let ghost disks = disk_host_tubes@.len();
        let ghost n = vcpu_size as nat;
        let ghost before = *run_mode;
        match self {
            VmRequest::Exit => {
                *run_mode = Some(VmRunMode::Exiting);
                let response = VmResponse::Done;
                assert(is_executed(*self, some_answers(), disks, force_s2idle, n, before, *run_mode, response));
                response
            },
            VmRequest::Powerbtn => {
                let has_pm = machine.has_pm();
                if has_pm {
                    machine.pwrbtn_evt();
                }
                let response = pm_response(has_pm);
                assert(is_executed(*self, MachineAnswers { has_pm, ..some_answers() }, disks, force_s2idle, n, before, *run_mode, response));
                response
            },
            VmRequest::Sleepbtn => {
                let has_pm = machine.has_pm();
                if has_pm {
                    machine.slpbtn_evt();
                }
                let response = pm_response(has_pm);
                assert(is_executed(*self, MachineAnswers { has_pm, ..some_answers() }, disks, force_s2idle, n, before, *run_mode, response));
                response
            },
            VmRequest::Rtc => {
                let has_pm = machine.has_pm();
                if has_pm {
                    machine.rtc_evt();
                }
                let response = pm_response(has_pm);
                assert(is_executed(*self, MachineAnswers { has_pm, ..some_answers() }, disks, force_s2idle, n, before, *run_mode, response));
                response
            },
            VmRequest::SuspendVcpus => {
                *run_mode = Some(VmRunMode::Suspending);
                let response = VmResponse::Done;
                assert(is_executed(*self, some_answers(), disks, force_s2idle, n, before, *run_mode, response));
                response
            },
            VmRequest::ResumeVcpus => {
                let sent = machine.send_device_control(DeviceControlCommand::GetDevicesState);
                let received = if sent {
                    machine.recv_device_control()
                } else {
                    None
                };
                let ghost asked = MachineAnswers { sent, devices: received, ..some_answers() };
                match may_resume_vcpus(sent, &received) {
                    Ok(()) => {},
                    Err(e) => {
                        let response = VmResponse::Failed(e);
                        assert(is_executed(*self, asked, disks, force_s2idle, n, before, *run_mode, response));
                        return response;
                    },
                }
                *run_mode = Some(VmRunMode::Running);
                if force_s2idle {
                    // The power button wakes a guest that sleeps deeply.
                    let has_pm = machine.has_pm();
                    if has_pm {
                        machine.pwrbtn_evt();
                    }
                    let response = pm_response(has_pm);
                    assert(is_executed(*self, MachineAnswers { has_pm, ..asked }, disks, force_s2idle, n, before, *run_mode, response));
                    return response;
                }
                let response = VmResponse::Done;
                assert(is_executed(*self, asked, disks, force_s2idle, n, before, *run_mode, response));
                response
            },
            VmRequest::Swap(command) => {
                if !machine.has_swap() {
                    let response = VmResponse::Failed(Error::new(ENOTSUP));
                    assert(is_executed(*self, MachineAnswers { has_swap: false, ..some_answers() }, disks, force_s2idle, n, before, *run_mode, response));
                    return response;
                }
                match command {
                    SwapCommand::Enable => {
                        // Nobody but the swap may touch the memory of the
                        // guest while it is moved: processors and devices
                        // are held still.
                        let held = suspend_vcpus(machine, vcpu_size);
                        let ghost reports = choose|first: Seq<VmRunMode>, second: Seq<VmRunMode>| #[trigger]
                            is_suspended(first, second, n, held);
                        let ghost stood = MachineAnswers {
                            has_swap: true,
                            first: reports.0,
                            second: reports.1,
                            ..some_answers()
                        };
                        let guard = match held {
                            Ok(guard) => guard,
                            Err(_) => {
                                let response = VmResponse::Failed(Error::new(EINVAL));
                                assert(is_executed(*self, stood, disks, force_s2idle, n, before, *run_mode, response));
                                return response;
                            },
                        };
                        let devices_stopped = machine.swap_suspend_devices();
                        let ghost outcome_seen: Result<Option<String>, ()> = Err(());
                        let response = if devices_stopped {
                            let outcome = machine.swap(SwapCommand::Enable);
                            proof {
                                outcome_seen = outcome;
                            }
                            machine.swap_resume_devices();
                            match outcome {
                                Ok(_) => VmResponse::Done,
                                Err(()) => VmResponse::Failed(Error::new(EINVAL)),
                            }
                        } else {
                            VmResponse::Failed(Error::new(EINVAL))
                        };
                        resume_vcpus(machine, guard);
                        assert(is_executed(*self, MachineAnswers { devices_stopped, swap: outcome_seen, ..stood }, disks, force_s2idle, n, before, *run_mode, response));
                        response
                    },
                    SwapCommand::Status => {
                        let outcome = machine.swap(SwapCommand::Status);
                        let ghost seen = MachineAnswers { has_swap: true, swap: outcome, ..some_answers() };
                        let response = swap_response(outcome);
                        assert(is_executed(*self, seen, disks, force_s2idle, n, before, *run_mode, response));
                        response
                    },
                    other => {
                        let outcome = machine.swap(*other);
                        let response = match outcome {
                            Ok(_) => VmResponse::Done,
                            Err(()) => VmResponse::Failed(Error::new(EINVAL)),
                        };
                        assert(is_executed(*self, MachineAnswers { has_swap: true, swap: outcome, ..some_answers() }, disks, force_s2idle, n, before, *run_mode, response));
                        response
                    },
                }
            },
            VmRequest::SuspendVm => {
                machine.kick_vcpus(VcpuControl::RunState(VmRunMode::Suspending));
                let state = vcpu_state(machine, vcpu_size);
                let ghost first = choose|reported: Seq<VmRunMode>|
                    state == #[trigger] spec_vcpu_state(reported, n);
                match state {
                    Ok(VmRunMode::Suspending) => {},
                    _ => {
                        let response = VmResponse::Failed(Error::new(EIO));
                        assert(is_executed(*self, MachineAnswers { first, ..some_answers() }, disks, force_s2idle, n, before, *run_mode, response));
                        return response;
                    },
                }
                let sent = machine.send_device_control(DeviceControlCommand::SleepDevices);
                let received = if sent {
                    machine.recv_device_control()
                } else {
                    None
                };
                let response = if sleep_wake_response(sent, &received) {
                    VmResponse::Done
                } else {
                    VmResponse::Failed(Error::new(EIO))
                };
                assert(is_executed(*self, MachineAnswers { first, sent, devices: received, ..some_answers() }, disks, force_s2idle, n, before, *run_mode, response));
                response
            },
            VmRequest::ResumeVm => {
                let sent = machine.send_device_control(DeviceControlCommand::WakeDevices);
                let received = if sent {
                    machine.recv_device_control()
                } else {
                    None
                };
                let ghost asked = MachineAnswers { sent, devices: received, ..some_answers() };
                if !sleep_wake_response(sent, &received) {
                    let response = VmResponse::Failed(Error::new(EIO));
                    assert(is_executed(*self, asked, disks, force_s2idle, n, before, *run_mode, response));
                    return response;
                }
                machine.kick_vcpus(VcpuControl::RunState(VmRunMode::Running));
                let response = VmResponse::Done;
                assert(is_executed(*self, asked, disks, force_s2idle, n, before, *run_mode, response));
                response
            },
            VmRequest::Gpe(gpe) => {
                let has_pm = machine.has_pm();
                if has_pm {
                    machine.gpe_evt(*gpe);
                }
                let response = pm_response(has_pm);
                assert(is_executed(*self, MachineAnswers { has_pm, ..some_answers() }, disks, force_s2idle, n, before, *run_mode, response));
                response
            },
            VmRequest::PciPme(requester_id) => {
                let has_pm = machine.has_pm();
                if has_pm {
                    machine.pme_evt(*requester_id);
                }
                let response = pm_response(has_pm);
                assert(is_executed(*self, MachineAnswers { has_pm, ..some_answers() }, disks, force_s2idle, n, before, *run_mode, response));
                response
            },
            VmRequest::MakeRT => {
                machine.kick_vcpus(VcpuControl::MakeRT);
                let response = VmResponse::Done;
                assert(is_executed(*self, some_answers(), disks, force_s2idle, n, before, *run_mode, response));
                response
            },
            VmRequest::DiskCommand { disk_index, command } => {
                if let Some(response) = disk_precheck(*disk_index, disk_host_tubes.len()) {
                    assert(is_executed(*self, some_answers(), disks, force_s2idle, n, before, *run_mode, response));
                    return response;
                }
                let tube = &disk_host_tubes[*disk_index];
                let sent = tube.send(command);
                let received = if sent {
                    tube.recv()
                } else {
                    None
                };
                let response = handle_disk_command(sent, received);
                assert(is_executed(*self, MachineAnswers { sent, disk: received, ..some_answers() }, disks, force_s2idle, n, before, *run_mode, response));
                response
            },
            VmRequest::UsbCommand(cmd) => {
                if !machine.has_usb() {
                    let response = VmResponse::Failed(Error::new(ENODEV));
                    assert(is_executed(*self, MachineAnswers { has_usb: false, ..some_answers() }, disks, force_s2idle, n, before, *run_mode, response));
                    return response;
                }
                let sent = machine.send_usb(cmd);
                let received = if sent {
                    machine.recv_usb()
                } else {
                    None
                };
                let response = usb_response(sent, received);
                assert(is_executed(*self, MachineAnswers { has_usb: true, sent, usb: received, ..some_answers() }, disks, force_s2idle, n, before, *run_mode, response));
                response
            },
            VmRequest::BatCommand(type_, cmd) => {
                let battery = machine.battery_type();
                match bat_precheck(battery, *type_) {
                    Some(response) => {
                        assert(is_executed(*self, MachineAnswers { battery, ..some_answers() }, disks, force_s2idle, n, before, *run_mode, response));
                        response
                    },
                    None => {
                        let sent = machine.send_bat(cmd);
                        let received = if sent {
                            machine.recv_bat()
                        } else {
                            None
                        };
                        let response = bat_response(sent, received);
                        assert(is_executed(*self, MachineAnswers { battery, sent, bat: received, ..some_answers() }, disks, force_s2idle, n, before, *run_mode, response));
                        response
                    },
                }
            },
            VmRequest::HotPlugVfioCommand { .. } => {
                let response = VmResponse::Done;
                assert(is_executed(*self, some_answers(), disks, force_s2idle, n, before, *run_mode, response));
                response
            },
            VmRequest::HotPlugNetCommand(_) => {
                let response = VmResponse::ErrString("hot plug not supported".to_owned());
                assert(is_executed(*self, some_answers(), disks, force_s2idle, n, before, *run_mode, response));
                response
            },
            VmRequest::Snapshot(crate::vm_control::SnapshotCommand::Take { snapshot_path }) => {
                let done = machine.snapshot(snapshot_path.as_str());
                let response = if done {
                    VmResponse::Done
                } else {
                    VmResponse::Failed(Error::new(EIO))
                };
                assert(is_executed(*self, MachineAnswers { done, ..some_answers() }, disks, force_s2idle, n, before, *run_mode, response));
                response
            },
            VmRequest::Restore(crate::vm_control::RestoreCommand::Apply { restore_path }) => {
                let done = machine.restore(restore_path.as_str());
                let response = if done {
                    VmResponse::Done
                } else {
                    VmResponse::Failed(Error::new(EIO))
                };
                assert(is_executed(*self, MachineAnswers { done, ..some_answers() }, disks, force_s2idle, n, before, *run_mode, response));
                response
            },
            VmRequest::RegisterListener { .. } => {
                let response = VmResponse::Done;
                assert(is_executed(*self, some_answers(), disks, force_s2idle, n, before, *run_mode, response));
                response
            },
            VmRequest::UnregisterListener { .. } => {
                let response = VmResponse::Done;
                assert(is_executed(*self, some_answers(), disks, force_s2idle, n, before, *run_mode, response));
                response
            },
            VmRequest::Unregister { .. } => {
                let response = VmResponse::Done;
                assert(is_executed(*self, some_answers(), disks, force_s2idle, n, before, *run_mode, response));
                response
            },
        }
    }
}

} // verus!
