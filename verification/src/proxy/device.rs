//! The proxy itself: a device model whose every call goes to the process of
//! the real device and comes back.

use vstd::prelude::*;
use crate::bus::BusAccessInfo;
use crate::bus::BusDevice;
use crate::bus::BusRange;
use crate::bus::BusType;
use crate::bus::ConfigWriteResult;
use crate::bus::RawDescriptor;
use crate::proxy::handle::config_register_read_command;
use crate::proxy::handle::config_register_read_response;
use crate::proxy::handle::config_register_write_command;
use crate::proxy::handle::config_register_write_response;
use crate::proxy::handle::get_ranges_response;
use crate::proxy::handle::init_pci_config_mapping_command;
use crate::proxy::handle::init_pci_config_mapping_response;
use crate::proxy::handle::read_command;
use crate::proxy::handle::read_response;
use crate::proxy::handle::response_failure;
use crate::proxy::handle::response_view;
use crate::proxy::handle::restore_answer;
use crate::proxy::handle::restore_response;
use crate::proxy::handle::sleep_answer;
use crate::proxy::handle::sleep_response;
use crate::proxy::handle::snapshot_answer;
use crate::proxy::handle::snapshot_response;
use crate::proxy::handle::spec_config_register_read_response;
use crate::proxy::handle::spec_config_register_write_response;
use crate::proxy::handle::spec_get_ranges_response;
use crate::proxy::handle::spec_init_pci_config_mapping_response;
use crate::proxy::handle::spec_lifecycle_response;
use crate::proxy::handle::spec_read_response;
use crate::proxy::handle::spec_response_failure;
use crate::proxy::handle::spec_virtual_config_register_read_response;
use crate::proxy::handle::virtual_config_register_read_command;
use crate::proxy::handle::virtual_config_register_read_response;
use crate::proxy::handle::virtual_config_register_write_command;
use crate::proxy::handle::wake_answer;
use crate::proxy::handle::wake_response;
use crate::proxy::handle::write_command;
use crate::proxy::handle::ProxyFailure;
use crate::proxy::protocol::outcome_view;
use crate::proxy::protocol::Command;
use crate::proxy::protocol::CommandResult;
use crate::proxy::protocol::CommandResultView;
use crate::proxy::protocol::ResponseKind;
use crate::process::Child;
use crate::process::Pid;
use crate::suspendable::Suspendable;
use crate::text::concat2;
use crate::text::contains;
use crate::text::spec_contains;
use crate::text::spec_trim;
use crate::text::str_eq;
use crate::text::trim;

verus! {

/// Why a message did not pass the channel, in words.
#[derive(Debug)]
pub struct TubeError {
    pub reason: String,
}

/// Errors of the proxy.
#[derive(Debug)]
pub enum Error {
    /// The process of the device did not acknowledge the handshake.
    ActivatingProxyDevice,
    /// The sandboxed process could not be forked.
    ForkingJail(String),
    /// Swap could not be prepared for the new process.
    Swap(String),
    /// The channel failed.
    Tube(TubeError),
}

/// The parent's end of the channel to the process of a device, and the
/// place where failures on it are reported. The channel is reliable and
/// keeps the order; nothing else is promised of it.
pub trait Tube {
    /// Sends one request.
    fn send(&self, command: &Command) -> Result<(), TubeError>;

    /// Waits for one response.
    fn recv(&self) -> Result<CommandResult, TubeError>;

    /// Takes note of a failure of the device called `debug_label`.
    fn report(&self, debug_label: &str, failure: ProxyFailure);
}

/// The way to a forked device process, before the handshake. It may travel
/// to another process, and is turned into exactly one [`ProxyDevice`].
pub struct ChildProcIntf<T> {
    tube: T,
    pid: Pid,
    debug_label: String,
}

impl<T: Tube> ChildProcIntf<T> {
    /// The process to which this leads.
    pub closed spec fn spec_pid(&self) -> Pid {
        self.pid
    }

    /// The label of the device behind this.
    pub closed spec fn spec_debug_label(&self) -> Seq<char> {
        self.debug_label@
    }

    /// The parent's end of the channel to the process.
    pub closed spec fn spec_tube(&self) -> T {
        self.tube
    }

    /// The way to the process `child` that was forked for the device called
    /// `debug_label`, over the parent's end `tube` of its channel. The
    /// process is not waited for: whoever reaps the children of the machine
    /// reaps this one.
    pub fn new(tube: T, child: Child, debug_label: String) -> (intf: Self)
        ensures
            intf.spec_tube() == tube,
            intf.spec_pid() == child.pid,
            intf.spec_debug_label() == debug_label@,
    {
        let pid = child.into_pid();
        ChildProcIntf { tube, pid, debug_label }
    }

    /// The process to which this leads.
    pub fn pid(&self) -> (pid: Pid)
        ensures
            pid == self.spec_pid(),
    {
        self.pid
    }

    /// Takes the descriptor apart, so that it can travel to another
    /// process: the end of the channel, the process, and the label. Put
    /// together again with `new`, it leads to the same process.
    pub fn into_parts(self) -> (parts: (T, Child, String))
        ensures
            parts.0 == self.spec_tube(),
            parts.1.pid == self.spec_pid(),
            parts.2@ == self.spec_debug_label(),
    {
        (self.tube, Child { pid: self.pid }, self.debug_label)
    }
}

/// A device model that runs in a process of its own. Every call on it is
/// one request to that process.
pub struct ProxyDevice<T> {
    child_proc_intf: ChildProcIntf<T>,
}

/// Whether a response acknowledges the handshake.
pub open spec fn spec_acknowledges(response: CommandResultView) -> bool {
    response is Done
}

/// Whether a response acknowledges the handshake.
pub fn acknowledges(response: &CommandResult) -> (b: bool)
    ensures
        b == spec_acknowledges(response@),
{
    match response {
        CommandResult::Done => true,
        _ => false,
    }
}

/// Whether the start of the device called `debug_label` is one of which a
/// note is taken: that of the graphics device.
pub fn is_watched_device(debug_label: &str) -> (watched: bool)
    ensures
        watched == (debug_label@ == "pcivirtio-gpu"@),
{
    str_eq(debug_label, "pcivirtio-gpu")
}

/// Whether the machine that was started with the command line `cmdline`
/// is one of which a note is taken.
pub fn is_watched_machine(cmdline: &str) -> (watched: bool)
    ensures
        watched == spec_contains(cmdline@, "arcvm"@),
{
    contains(cmdline, "arcvm")
}

/// The note on the share of processor time that the machine has when its
/// graphics device starts, where `share` is what the host says of it.
pub fn cpu_share_note(share: &str) -> (note: String)
    ensures
        note@ == "arcvm cpu share when booting gpu is "@ + spec_trim(share@),
{
    let trimmed = trim(share);
    concat2("arcvm cpu share when booting gpu is ", trimmed.as_str())
}

/// A failure of the proxy as it is handed to the log: with the label of
/// the device.
#[derive(Debug)]
pub struct FailureReport {
    pub debug_label: String,
    pub failure: ProxyFailure,
}

/// The failure that goes with what sending a request gave.
pub open spec fn spec_send_failure(sent: Result<(), TubeError>) -> Option<ProxyFailure> {
    match sent {
        Ok(_) => None,
        Err(_) => Some(ProxyFailure::SendFailed),
    }
}

/// What is reported of the device called `debug_label` after a request was
/// handed to the channel: nothing where it was sent, and else that it could
/// not be sent.
pub fn send_report(sent: &Result<(), TubeError>, debug_label: &str) -> (report: Option<FailureReport>)
    ensures
        match spec_send_failure(*sent) {
            Some(failure) => report matches Some(r) && r.failure == failure && r.debug_label@
                == debug_label@,
            None => report is None,
        },
{
    match sent {
        Ok(_) => None,
        Err(_) => Some(
            FailureReport { debug_label: label_of(debug_label), failure: ProxyFailure::SendFailed },
        ),
    }
}

/// A text of its own with the characters of `debug_label`.
fn label_of(debug_label: &str) -> (label: String)
    ensures
        label@ == debug_label@,
{
    let mut label = String::new();
    proof {
        reveal_strlit("");
    }
    assert(label@ == Seq::<char>::empty());
    label.push_str(debug_label);
    assert(label@ =~= debug_label@);
    label
}

/// What a call that waits makes of what the receive gave: the response, or
/// `None` where the receive failed, and the failure that goes with it for a
/// request that is answered by a response of the kind `expected`.
pub open spec fn spec_answer(expected: ResponseKind, received: Result<CommandResult, TubeError>) -> (
    Option<CommandResult>,
    Option<ProxyFailure>,
) {
    let response = match received {
        Ok(r) => Some(r),
        Err(_) => None,
    };
    (response, spec_response_failure(expected, response_view(response)))
}

/// What a call that waits makes of what the receive gave, and what is
/// reported of the device called `debug_label`: nothing where a response of
/// the kind `expected` came; that no response came where the receive failed;
/// that the response is unexpected where it is of another kind.
pub fn answer(expected: ResponseKind, received: Result<CommandResult, TubeError>, debug_label: &str) -> (out:
    (Option<CommandResult>, Option<FailureReport>))
    ensures
        out.0 == spec_answer(expected, received).0,
        match spec_answer(expected, received).1 {
            Some(failure) => out.1 matches Some(r) && r.failure == failure && r.debug_label@
                == debug_label@,
            None => out.1 is None,
        },
{
    let response = match received {
        Ok(r) => Some(r),
        Err(_) => None,
    };
    let report = match response_failure(expected, &response) {
        Some(failure) => Some(FailureReport { debug_label: label_of(debug_label), failure }),
        None => None,
    };
    (response, report)
}

/// What the handshake gives, from what came back after the request was
/// sent: success where the process acknowledged, and else the failure of the
/// channel, or that the process did not acknowledge.
pub open spec fn spec_handshake_result(received: Result<CommandResult, TubeError>) -> Result<
    (),
    Error,
> {
    match received {
        Ok(response) => if spec_acknowledges(response@) {
            Ok(())
        } else {
            Err(Error::ActivatingProxyDevice)
        },
        Err(e) => Err(Error::Tube(e)),
    }
}

/// What the handshake gives, from what came back after the request was
/// sent.
pub fn handshake_result(received: Result<CommandResult, TubeError>) -> (result: Result<(), Error>)
    ensures
        result == spec_handshake_result(received),
{
    match received {
        Ok(response) => {
            if acknowledges(&response) {
                Ok(())
            } else {
                Err(Error::ActivatingProxyDevice)
            }
        },
        Err(e) => Err(Error::Tube(e)),
    }
}

/// What an activation gives: the failure to send the request, or else what
/// the handshake gives from what came back.
pub open spec fn spec_activation(
    sent: Result<(), TubeError>,
    received: Result<CommandResult, TubeError>,
) -> Result<(), Error> {
    match sent {
        Err(e) => Err(Error::Tube(e)),
        Ok(_) => spec_handshake_result(received),
    }
}

impl<T: Tube> ProxyDevice<T> {
    /// The process in which the device runs.
    pub closed spec fn spec_pid(&self) -> Pid {
        self.child_proc_intf.pid
    }

    /// The label of the device.
    pub closed spec fn spec_debug_label(&self) -> Seq<char> {
        self.child_proc_intf.debug_label@
    }

    /// The parent's end of the channel to the process of the device.
    pub closed spec fn spec_tube(&self) -> T {
        self.child_proc_intf.tube
    }

    /// Makes the handshake over `child_proc_intf` and, where the process of
    /// the device acknowledges it, hands out the proxy. A process that was
    /// activated before does not acknowledge a second time.
    ///
    /// Whether the request could be sent and what came back decide, as
    /// [`spec_activation`] says.
    pub fn try_from(child_proc_intf: ChildProcIntf<T>) -> (result: Result<Self, Error>)
        ensures
            result matches Ok(proxy) ==> proxy.spec_tube() == child_proc_intf.spec_tube()
                && proxy.spec_pid() == child_proc_intf.spec_pid() && proxy.spec_debug_label()
                == child_proc_intf.spec_debug_label(),
            exists|sent: Result<(), TubeError>, received: Result<CommandResult, TubeError>|
                #[trigger] spec_activation(sent, received) == match result {
                    Ok(_) => Ok::<(), Error>(()),
                    Err(e) => Err::<(), Error>(e),
                },
    {
        // Tell the process to start serving as a device.
        let sent = child_proc_intf.tube.send(&Command::Activate);
        if let Err(e) = sent {
            let ghost received: Result<CommandResult, TubeError> = arbitrary();
            assert(spec_activation(sent, received) == Err::<(), Error>(Error::Tube(e)));
            return Err(Error::Tube(e));
        }
        let received = child_proc_intf.tube.recv();
        let ghost witness = received;
        let result = match handshake_result(received) {
            Ok(()) => Ok(ProxyDevice { child_proc_intf }),
            Err(e) => Err(e),
        };
        assert(spec_activation(sent, witness) == match result {
            Ok(_) => Ok::<(), Error>(()),
            Err(e) => Err::<(), Error>(e),
        });
        result
    }

    /// The proxy of the device called `debug_label` that runs in the forked
    /// process `child`, after the handshake over `tube`.
    pub fn new(tube: T, child: Child, debug_label: String) -> (result: Result<Self, Error>)
        ensures
            result matches Ok(proxy) ==> proxy.spec_tube() == tube && proxy.spec_pid() == child.pid
                && proxy.spec_debug_label() == debug_label@,
            exists|sent: Result<(), TubeError>, received: Result<CommandResult, TubeError>|
                #[trigger] spec_activation(sent, received) == match result {
                    Ok(_) => Ok::<(), Error>(()),
                    Err(e) => Err::<(), Error>(e),
                },
    {
        ProxyDevice::try_from(ChildProcIntf::new(tube, child, debug_label))
    }

    /// The process in which the device runs.
    pub fn pid(&self) -> (pid: Pid)
        ensures
            pid == self.spec_pid(),
    {
        self.child_proc_intf.pid
    }

    /// Sends a request to which no response is owed. A failure to send is
    /// reported under the label of the device and otherwise ignored. The
    /// result is the failure that was reported, if one was.
    fn send_no_result(&self, cmd: &Command) -> (reported: Option<ProxyFailure>)
        ensures
            exists|sent: Result<(), TubeError>| reported == #[trigger] spec_send_failure(sent),
    {
        let sent = self.child_proc_intf.tube.send(cmd);
        match send_report(&sent, self.child_proc_intf.debug_label.as_str()) {
            Some(report) => {
                self.child_proc_intf.tube.report(report.debug_label.as_str(), report.failure);
                assert(spec_send_failure(sent) == Some(report.failure));
                Some(report.failure)
            },
            None => {
                assert(spec_send_failure(sent) == None::<ProxyFailure>);
                None
            },
        }
    }

    /// Sends a request and waits for its response, whether or not the
    /// request could be sent. The result is the response, or `None` where
    /// none arrived, and with it the failure that was reported under the
    /// label of the device: that no response arrived, or that the response
    /// is of a kind that does not answer the request.
    fn sync_send(&self, cmd: &Command) -> (out: (Option<CommandResult>, Option<ProxyFailure>))
        requires
            cmd@.expects_response(),
        ensures
            out.1 == spec_response_failure(cmd@.expected_response()->0, response_view(out.0)),
            exists|received: Result<CommandResult, TubeError>|
                out == #[trigger] spec_answer(cmd@.expected_response()->0, received),
    {
        let _ = self.send_no_result(cmd);
        let expected = match cmd.expected_response() {
            Some(kind) => kind,
            None => unreached(),
        };
        let received = self.child_proc_intf.tube.recv();
        let ghost witness = received;
        let (response, report) = answer(expected, received, self.child_proc_intf.debug_label.as_str());
        let out = match report {
            Some(report) => {
                self.child_proc_intf.tube.report(report.debug_label.as_str(), report.failure);
                (response, Some(report.failure))
            },
            None => (response, None),
        };
        assert(out == spec_answer(expected, witness));
        out
    }

    /// Ends the session: asks the process of the device to destroy the
    /// device and leave. The acknowledgement is waited for and dropped, the
    /// exit of the process is not waited for. The proxy is used up.
    pub fn shutdown(self) {
        let _ = self.sync_send(&Command::Shutdown);
    }
}

impl<T: Tube> BusDevice for ProxyDevice<T> {
    fn debug_label(&self) -> (label: String)
        ensures
            label@ == self.spec_debug_label(),
    {
        self.child_proc_intf.debug_label.clone()
    }

    /// Asks the device for the bytes. `data` holds them afterwards, or
    /// zeros where no response to the read came.
    fn read(&mut self, info: BusAccessInfo, data: &mut [u8])
        ensures
            exists|response: Option<CommandResultView>|
                final(data)@ == #[trigger] spec_read_response(response, old(data)@.len()),
            final(self).spec_pid() == old(self).spec_pid(),
            final(self).spec_debug_label() == old(self).spec_debug_label(),
            final(self).spec_tube() == old(self).spec_tube(),
    {
        let cmd = read_command(info, data.len());
        let response = self.sync_send(&cmd).0;
        let ghost witness = response_view(response);
        let _ = read_response(response, data);
        assert(data@ == spec_read_response(witness, old(data)@.len()));
    }

    /// Hands the bytes to the device, without waiting for anything.
    fn write(&mut self, info: BusAccessInfo, data: &[u8])
        ensures
            final(self).spec_pid() == old(self).spec_pid(),
            final(self).spec_debug_label() == old(self).spec_debug_label(),
            final(self).spec_tube() == old(self).spec_tube(),
    {
        let cmd = write_command(info, data);
        let _ = self.send_no_result(&cmd);
    }

    /// Asks the device to write the register, and returns the changes that
    /// it reported, or none where no response to the write came.
    fn config_register_write(&mut self, reg_idx: usize, offset: u64, data: &[u8]) -> (result:
        ConfigWriteResult)
        ensures
            exists|response: Option<CommandResultView>|
                result@ == #[trigger] spec_config_register_write_response(response),
            final(self).spec_pid() == old(self).spec_pid(),
            final(self).spec_debug_label() == old(self).spec_debug_label(),
            final(self).spec_tube() == old(self).spec_tube(),
    {
        let cmd = config_register_write_command(reg_idx, offset, data);
        let response = self.sync_send(&cmd).0;
        let ghost witness = response_view(response);
        let result = config_register_write_response(response);
        assert(result@ == spec_config_register_write_response(witness));
        result
    }

    /// Asks the device for the register, and returns its value, or 0 where
    /// no response to the read came.
    fn config_register_read(&self, reg_idx: usize) -> (value: u32)
        ensures
            exists|response: Option<CommandResultView>|
                value == #[trigger] spec_config_register_read_response(response),
    {
        let response = self.sync_send(&config_register_read_command(reg_idx)).0;
        let ghost witness = response_view(response);
        let value = config_register_read_response(response);
        assert(value == spec_config_register_read_response(witness));
        value
    }

    /// Offers the device the mapping, and returns whether it said that it
    /// took it.
    fn init_pci_config_mapping(&mut self, shmem: RawDescriptor, base: usize, len: usize) -> (taken:
        bool)
        ensures
            exists|response: Option<CommandResultView>|
                taken == #[trigger] spec_init_pci_config_mapping_response(response),
            final(self).spec_pid() == old(self).spec_pid(),
            final(self).spec_debug_label() == old(self).spec_debug_label(),
            final(self).spec_tube() == old(self).spec_tube(),
    {
        let response = self.sync_send(&init_pci_config_mapping_command(shmem, base, len)).0;
        let ghost witness = response_view(response);
        let taken = init_pci_config_mapping_response(response);
        assert(taken == spec_init_pci_config_mapping_response(witness));
        taken
    }

    /// Asks the device to write the software-only register, and waits until
    /// it has.
    fn virtual_config_register_write(&mut self, reg_idx: usize, value: u32)
        ensures
            final(self).spec_pid() == old(self).spec_pid(),
            final(self).spec_debug_label() == old(self).spec_debug_label(),
            final(self).spec_tube() == old(self).spec_tube(),
    {
        let _ = self.sync_send(&virtual_config_register_write_command(reg_idx, value));
    }

    /// Asks the device for the software-only register, and returns its
    /// value, or 0 where no response to the read came.
    fn virtual_config_register_read(&self, reg_idx: usize) -> (value: u32)
        ensures
            exists|response: Option<CommandResultView>|
                value == #[trigger] spec_virtual_config_register_read_response(response),
    {
        let response = self.sync_send(&virtual_config_register_read_command(reg_idx)).0;
        let ghost witness = response_view(response);
        let value = virtual_config_register_read_response(response);
        assert(value == spec_virtual_config_register_read_response(witness));
        value
    }

    /// The proxy itself is never inside the sandbox: nothing to do.
    fn on_sandboxed(&mut self)
        ensures
            final(self).spec_pid() == old(self).spec_pid(),
            final(self).spec_debug_label() == old(self).spec_debug_label(),
            final(self).spec_tube() == old(self).spec_tube(),
    {
    }

    /// Asks the device for its ranges, and returns them, or none where no
    /// response came.
    fn get_ranges(&self) -> (ranges: Vec<(BusRange, BusType)>)
        ensures
            exists|response: Option<CommandResultView>|
                ranges@ == #[trigger] spec_get_ranges_response(response),
    {
        let response = self.sync_send(&Command::GetRanges).0;
        let ghost witness = response_view(response);
        let ranges = get_ranges_response(response);
        assert(ranges@ == spec_get_ranges_response(witness));
        ranges
    }

    /// Tells the device that the guest removed it, without waiting for
    /// anything.
    fn destroy_device(&mut self)
        ensures
            final(self).spec_pid() == old(self).spec_pid(),
            final(self).spec_debug_label() == old(self).spec_debug_label(),
            final(self).spec_tube() == old(self).spec_tube(),
    {
        let _ = self.send_no_result(&Command::DestroyDevice);
    }
}

impl<T: Tube> Suspendable for ProxyDevice<T> {
    /// Asks the device to save its state.
    fn snapshot(&mut self) -> (result: Result<serde_json::Value, String>)
        ensures
            exists|response: Option<CommandResultView>|
                outcome_view(result) == spec_lifecycle_response(
                    #[trigger] snapshot_answer(response),
                    "snapshot"@,
                    old(self).spec_debug_label(),
                ),
            final(self).spec_pid() == old(self).spec_pid(),
            final(self).spec_debug_label() == old(self).spec_debug_label(),
            final(self).spec_tube() == old(self).spec_tube(),
    {
        let response = self.sync_send(&Command::Snapshot).0;
        let ghost witness = response_view(response);
        let result = snapshot_response(response, self.child_proc_intf.debug_label.as_str());
        assert(outcome_view(result) == spec_lifecycle_response(
            snapshot_answer(witness),
            "snapshot"@,
            old(self).spec_debug_label(),
        ));
        result
    }

    /// Asks the device to load `data`.
    fn restore(&mut self, data: serde_json::Value) -> (result: Result<(), String>)
        ensures
            exists|response: Option<CommandResultView>|
                outcome_view(result) == spec_lifecycle_response(
                    #[trigger] restore_answer(response),
                    "restore"@,
                    old(self).spec_debug_label(),
                ),
            final(self).spec_pid() == old(self).spec_pid(),
            final(self).spec_debug_label() == old(self).spec_debug_label(),
            final(self).spec_tube() == old(self).spec_tube(),
    {
        let response = self.sync_send(&Command::Restore { data }).0;
        let ghost witness = response_view(response);
        let result = restore_response(response, self.child_proc_intf.debug_label.as_str());
        assert(outcome_view(result) == spec_lifecycle_response(
            restore_answer(witness),
            "restore"@,
            old(self).spec_debug_label(),
        ));
        result
    }

    /// Asks the device to sleep.
    fn sleep(&mut self) -> (result: Result<(), String>)
        ensures
            exists|response: Option<CommandResultView>|
                outcome_view(result) == spec_lifecycle_response(
                    #[trigger] sleep_answer(response),
                    "sleep"@,
                    old(self).spec_debug_label(),
                ),
            final(self).spec_pid() == old(self).spec_pid(),
            final(self).spec_debug_label() == old(self).spec_debug_label(),
            final(self).spec_tube() == old(self).spec_tube(),
    {
        let response = self.sync_send(&Command::Sleep).0;
        let ghost witness = response_view(response);
        let result = sleep_response(response, self.child_proc_intf.debug_label.as_str());
        assert(outcome_view(result) == spec_lifecycle_response(
            sleep_answer(witness),
            "sleep"@,
            old(self).spec_debug_label(),
        ));
        result
    }

    /// Asks the device to wake.
    fn wake(&mut self) -> (result: Result<(), String>)
        ensures
            exists|response: Option<CommandResultView>|
                outcome_view(result) == spec_lifecycle_response(
                    #[trigger] wake_answer(response),
                    "wake"@,
                    old(self).spec_debug_label(),
                ),
            final(self).spec_pid() == old(self).spec_pid(),
            final(self).spec_debug_label() == old(self).spec_debug_label(),
            final(self).spec_tube() == old(self).spec_tube(),
    {
        let response = self.sync_send(&Command::Wake).0;
        let ghost witness = response_view(response);
        let result = wake_response(response, self.child_proc_intf.debug_label.as_str());
        assert(outcome_view(result) == spec_lifecycle_response(
            wake_answer(witness),
            "wake"@,
            old(self).spec_debug_label(),
        ));
        result
    }
}

} // verus!
