//! What holds of the two sides together: a device behind the proxy cannot
//! be told from the same device called directly.
//!
//! A device model is taken here as a function from its state and one call
//! to its next state and what the call gave back. Nothing else is assumed of
//! it, so the laws hold for every model.

use vstd::prelude::*;
use crate::bus::BusAccessInfo;
use crate::proxy::device::spec_activation;
use crate::proxy::device::TubeError;
use crate::proxy::handle::restore_answer;
use crate::proxy::handle::sleep_answer;
use crate::proxy::handle::snapshot_answer;
use crate::proxy::handle::spec_config_register_read_response;
use crate::proxy::handle::spec_config_register_write_command;
use crate::proxy::handle::spec_config_register_write_response;
use crate::proxy::handle::spec_lifecycle_response;
use crate::proxy::handle::spec_read_command;
use crate::proxy::handle::spec_read_response;
use crate::proxy::handle::spec_response_failure;
use crate::proxy::handle::spec_write_command;
use crate::proxy::handle::zeros;
use crate::proxy::handle::ProxyFailure;
use crate::proxy::protocol::padded;
use crate::proxy::protocol::CommandResultView;
use crate::proxy::protocol::CommandView;
use crate::proxy::protocol::ResponseKind;
use crate::proxy::session::spec_command_result;
use crate::proxy::session::spec_device_request;
use crate::proxy::session::spec_next_state;
use crate::proxy::session::spec_step;
use crate::proxy::session::DeviceAnswerView;
use crate::proxy::session::DeviceRequestView;
use crate::proxy::session::SessionState;
use crate::proxy::session::Step;

verus! {

/// Whether `device` answers every call with an answer of the call's kind,
/// and every read with as many bytes as were asked for.
pub open spec fn answers_in_kind<S>(
    device: spec_fn(S, DeviceRequestView) -> (S, DeviceAnswerView),
) -> bool {
    forall|s: S, request: DeviceRequestView| #[trigger]
        request.answered_by(device(s, request).1)
}

/// What an active session makes of one request: the device is called, and
/// what it gave back becomes the response, if one is owed.
pub open spec fn served<S>(
    device: spec_fn(S, DeviceRequestView) -> (S, DeviceAnswerView),
    s: S,
    cmd: CommandView,
) -> (S, Option<CommandResultView>) {
    let (next, answer) = device(s, spec_device_request(cmd));
    (next, spec_command_result(answer))
}

/// The state of a session after it took `received` in `state`.
pub open spec fn after(state: SessionState, received: Option<CommandView>) -> SessionState {
    spec_next_state(state, spec_step(state, received))
}

/// A read through the proxy is the same read on the device: the device
/// gets the very call, and the caller gets the very bytes.
pub proof fn lemma_read_is_transparent<S>(
    device: spec_fn(S, DeviceRequestView) -> (S, DeviceAnswerView),
    s: S,
    info: BusAccessInfo,
    len: nat,
)
    requires
        answers_in_kind(device),
        1 <= len <= 8,
    ensures
        ({
            let direct = device(s, DeviceRequestView::Read { info, len: len as usize });
            let proxied = served(device, s, spec_read_command(info, len));
            &&& proxied.0 == direct.0
            &&& direct.1 == DeviceAnswerView::Read(spec_read_response(proxied.1, len))
        }),
{
    let request = DeviceRequestView::Read { info, len: len as usize };
    assert(spec_device_request(spec_read_command(info, len)) == request);
    let direct = device(s, request);
    assert(request.answered_by(direct.1));
    let bytes = direct.1->Read_0;
    assert(padded(bytes, 8).subrange(0, len as int) =~= bytes);
}

/// A write through the proxy is the same write on the device, and nothing
/// comes back for it.
pub proof fn lemma_write_is_transparent<S>(
    device: spec_fn(S, DeviceRequestView) -> (S, DeviceAnswerView),
    s: S,
    info: BusAccessInfo,
    data: Seq<u8>,
)
    requires
        answers_in_kind(device),
        data.len() <= 8,
    ensures
        ({
            let direct = device(s, DeviceRequestView::Write { info, data });
            let proxied = served(device, s, spec_write_command(info, data));
            &&& proxied.0 == direct.0
            &&& proxied.1 is None
        }),
{
    let request = DeviceRequestView::Write { info, data };
    assert(padded(data, 8).subrange(0, data.len() as int) =~= data);
    assert(spec_device_request(spec_write_command(info, data)) == request);
    assert(request.answered_by(device(s, request).1));
}

/// Round trip: where a write followed by a read of the same place returns
/// the bytes written when the device is called directly, it returns them
/// through the proxy too.
pub proof fn lemma_read_after_write_round_trip<S>(
    device: spec_fn(S, DeviceRequestView) -> (S, DeviceAnswerView),
    s: S,
    info: BusAccessInfo,
    data: Seq<u8>,
)
    requires
        answers_in_kind(device),
        1 <= data.len() <= 8,
        ({
            let written = device(s, DeviceRequestView::Write { info, data }).0;
            device(written, DeviceRequestView::Read { info, len: data.len() as usize }).1
                == DeviceAnswerView::Read(data)
        }),
    ensures
        ({
            let written = served(device, s, spec_write_command(info, data));
            let read = served(device, written.0, spec_read_command(info, data.len()));
            &&& written.1 is None
            &&& spec_read_response(read.1, data.len()) == data
        }),
{
    lemma_write_is_transparent(device, s, info, data);
    let written = device(s, DeviceRequestView::Write { info, data }).0;
    lemma_read_is_transparent(device, written, info, data.len());
}

/// A write to configuration space through the proxy is the same write on
/// the device, where index and offset fit in 32 bits, and the caller gets the
/// very changes that the device reported.
pub proof fn lemma_config_write_is_transparent<S>(
    device: spec_fn(S, DeviceRequestView) -> (S, DeviceAnswerView),
    s: S,
    reg_idx: usize,
    offset: u64,
    data: Seq<u8>,
)
    requires
        answers_in_kind(device),
        data.len() <= 4,
        reg_idx <= u32::MAX,
        offset <= u32::MAX,
    ensures
        ({
            let direct = device(s, DeviceRequestView::WriteConfig { reg_idx, offset, data });
            let proxied = served(
                device,
                s,
                spec_config_register_write_command(reg_idx, offset, data),
            );
            &&& proxied.0 == direct.0
            &&& direct.1 == DeviceAnswerView::ConfigWritten(
                spec_config_register_write_response(proxied.1),
            )
        }),
{
    let request = DeviceRequestView::WriteConfig { reg_idx, offset, data };
    assert(padded(data, 4).subrange(0, data.len() as int) =~= data);
    assert(spec_device_request(spec_config_register_write_command(reg_idx, offset, data))
        == request);
    assert(request.answered_by(device(s, request).1));
}

/// A read of a configuration register through the proxy is the same read
/// on the device, where the index fits in 32 bits.
pub proof fn lemma_config_read_is_transparent<S>(
    device: spec_fn(S, DeviceRequestView) -> (S, DeviceAnswerView),
    s: S,
    reg_idx: usize,
)
    requires
        answers_in_kind(device),
        reg_idx <= u32::MAX,
    ensures
        ({
            let direct = device(s, DeviceRequestView::ReadConfig { reg_idx });
            let proxied = served(device, s, CommandView::ReadConfig(reg_idx as u32));
            &&& proxied.0 == direct.0
            &&& direct.1 == DeviceAnswerView::ConfigRead(
                spec_config_register_read_response(proxied.1),
            )
        }),
{
    let request = DeviceRequestView::ReadConfig { reg_idx };
    assert(spec_device_request(CommandView::ReadConfig(reg_idx as u32)) == request);
    assert(request.answered_by(device(s, request).1));
}

/// Round trip in configuration space: where a write to a register followed
/// by a read of it returns `value` when the device is called directly, it
/// returns `value` through the proxy too.
pub proof fn lemma_config_round_trip<S>(
    device: spec_fn(S, DeviceRequestView) -> (S, DeviceAnswerView),
    s: S,
    reg_idx: usize,
    offset: u64,
    data: Seq<u8>,
    value: u32,
)
    requires
        answers_in_kind(device),
        data.len() <= 4,
        reg_idx <= u32::MAX,
        offset <= u32::MAX,
        ({
            let written = device(s, DeviceRequestView::WriteConfig { reg_idx, offset, data }).0;
            device(written, DeviceRequestView::ReadConfig { reg_idx }).1
                == DeviceAnswerView::ConfigRead(value)
        }),
    ensures
        ({
            let written = served(
                device,
                s,
                spec_config_register_write_command(reg_idx, offset, data),
            );
            let read = served(device, written.0, CommandView::ReadConfig(reg_idx as u32));
            spec_config_register_read_response(read.1) == value
        }),
{
    lemma_config_write_is_transparent(device, s, reg_idx, offset, data);
    let written = device(s, DeviceRequestView::WriteConfig { reg_idx, offset, data }).0;
    lemma_config_read_is_transparent(device, written, reg_idx);
}

/// Single activation: of two handshakes in a row at most the first is
/// acknowledged, wherever the session stood, and a session that has been
/// activated aborts on a handshake and ends.
pub proof fn lemma_single_activation(state: SessionState)
    ensures
        !(spec_step(after(state, Some(CommandView::Activate)), Some(CommandView::Activate))
            is Activate),
        spec_step(SessionState::Active, Some(CommandView::Activate)) is Abort,
        after(SessionState::Active, Some(CommandView::Activate)) == SessionState::Terminated,
{
}

/// A second activation fails: a session that has been activated sends
/// nothing on a second handshake, and an activation to which nothing comes
/// back hands out no proxy, whether or not the request could be sent.
pub proof fn lemma_second_activation_fails(sent: Result<(), TubeError>, failure: TubeError)
    ensures
        spec_step(SessionState::Active, Some(CommandView::Activate)) is Abort,
        spec_activation(sent, Err(failure)) is Err,
{
}

/// A session never goes back: once active it does not wait for a handshake
/// again, and once it has ended it stays so.
pub proof fn lemma_session_moves_forward(state: SessionState, received: Option<CommandView>)
    ensures
        state is Terminated ==> after(state, received) is Terminated,
        !(state is AwaitingActivation) ==> !(after(state, received) is AwaitingActivation),
{
}

/// Sleeping twice: an active session serves both requests and stays
/// active, whatever the device says, and each call on the proxy returns: it
/// succeeds where the device said so, and else reports a failure in words.
pub proof fn lemma_sleep_twice<S>(
    device: spec_fn(S, DeviceRequestView) -> (S, DeviceAnswerView),
    s: S,
    label: Seq<char>,
)
    requires
        answers_in_kind(device),
    ensures
        spec_step(SessionState::Active, Some(CommandView::Sleep)) == Step::Forward,
        after(after(SessionState::Active, Some(CommandView::Sleep)), Some(CommandView::Sleep))
            == SessionState::Active,
        ({
            let first = served(device, s, CommandView::Sleep);
            let second = served(device, first.0, CommandView::Sleep);
            let said = device(first.0, DeviceRequestView::Sleep).1;
            &&& first.1 matches Some(CommandResultView::SleepResult(_))
            &&& second.1 matches Some(CommandResultView::SleepResult(outcome))
            &&& said == DeviceAnswerView::Slept(outcome)
            &&& spec_lifecycle_response(sleep_answer(second.1), "sleep"@, label) is Ok
                <==> outcome is Ok
        }),
{
    assert(spec_device_request(CommandView::Sleep) == DeviceRequestView::Sleep);
    assert(DeviceRequestView::Sleep.answered_by(device(s, DeviceRequestView::Sleep).1));
    let first = served(device, s, CommandView::Sleep);
    assert(DeviceRequestView::Sleep.answered_by(device(first.0, DeviceRequestView::Sleep).1));
}

/// Snapshot, restore, snapshot: where the device, called directly, saves
/// `state`, loads it, and saves the same `state` again, the three calls
/// through the proxy give the same three results.
pub proof fn lemma_snapshot_restore_fixed_point<S>(
    device: spec_fn(S, DeviceRequestView) -> (S, DeviceAnswerView),
    s: S,
    state: serde_json::Value,
    label: Seq<char>,
)
    requires
        answers_in_kind(device),
        ({
            let first = device(s, DeviceRequestView::Snapshot);
            let loaded = device(first.0, DeviceRequestView::Restore { data: state });
            let second = device(loaded.0, DeviceRequestView::Snapshot);
            &&& first.1 == DeviceAnswerView::Snapshot(Ok(state))
            &&& loaded.1 == DeviceAnswerView::Restored(Ok(()))
            &&& second.1 == DeviceAnswerView::Snapshot(Ok(state))
        }),
    ensures
        ({
            let first = served(device, s, CommandView::Snapshot);
            let saved = spec_lifecycle_response(snapshot_answer(first.1), "snapshot"@, label);
            let loaded = served(device, first.0, CommandView::Restore { data: saved->Ok_0 });
            let second = served(device, loaded.0, CommandView::Snapshot);
            &&& saved == Ok::<serde_json::Value, Seq<char>>(state)
            &&& spec_lifecycle_response(restore_answer(loaded.1), "restore"@, label) is Ok
            &&& spec_lifecycle_response(snapshot_answer(second.1), "snapshot"@, label) == saved
        }),
{
    assert(spec_device_request(CommandView::Snapshot) == DeviceRequestView::Snapshot);
    assert(spec_device_request(CommandView::Restore { data: state })
        == DeviceRequestView::Restore { data: state });
}

/// After the shutdown nothing is served: the session has ended, and
/// whatever comes next it leaves without a response.
pub proof fn lemma_nothing_after_shutdown(received: Option<CommandView>)
    ensures
        spec_step(SessionState::Active, Some(CommandView::Shutdown)) == Step::Shutdown,
        after(SessionState::Active, Some(CommandView::Shutdown)) == SessionState::Terminated,
        spec_step(after(SessionState::Active, Some(CommandView::Shutdown)), received)
            == Step::Leave,
{
}

/// A read whose response never comes gives zeros, and the failure is handed
/// out to be reported.
pub proof fn lemma_read_without_response(len: nat)
    ensures
        spec_read_response(None, len) == zeros(len),
        spec_response_failure(ResponseKind::ReadResult, None) == Some(ProxyFailure::NoResponse),
{
}

/// One response for each request: what an active session makes of a
/// request for the device is a response of the kind that answers the request,
/// or nothing for the two requests that are not answered.
pub proof fn lemma_one_response_per_request<S>(
    device: spec_fn(S, DeviceRequestView) -> (S, DeviceAnswerView),
    s: S,
    cmd: CommandView,
)
    requires
        answers_in_kind(device),
        cmd.for_device(),
    ensures
        spec_step(SessionState::Active, Some(cmd)) == Step::Forward,
        match cmd.expected_response() {
            Some(kind) => served(device, s, cmd).1 matches Some(response) && response.kind()
                == kind,
            None => served(device, s, cmd).1 is None,
        },
        cmd.expected_response() is Some == cmd.expects_response(),
{
    assert(spec_device_request(cmd).answered_by(device(s, spec_device_request(cmd)).1));
}

} // verus!
