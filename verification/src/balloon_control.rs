//! What the host asks of the balloon and what the balloon answers, and the
//! bytes in which the balloon and the driver in the guest speak of
//! statistics, of the working set and of the configuration.
//!
//! Waiting for a queue, for a command or for an event is the caller's
//! part. Each function here says what one such arrival changes and what
//! goes out because of it.

use vstd::bytes::spec_u16_from_le_bytes;
use vstd::bytes::spec_u16_to_le_bytes;
use vstd::bytes::spec_u32_from_le_bytes;
use vstd::bytes::spec_u32_to_le_bytes;
use vstd::bytes::spec_u64_from_le_bytes;
use vstd::bytes::u16_from_le_bytes;
use vstd::bytes::u16_to_le_bytes;
use vstd::bytes::u32_from_le_bytes;
use vstd::bytes::u32_to_le_bytes;
use vstd::bytes::u64_from_le_bytes;
use vstd::prelude::*;
use vstd::slice::slice_subrange;
use crate::balloon::pages_to_bytes;
use crate::balloon::parse_balloon_stats;
use crate::balloon::spec_parse_balloon_stats;
use crate::balloon::BalloonStat;
use crate::balloon::BalloonState;
use crate::balloon::BalloonStateView;
use crate::balloon::BalloonStats;
use crate::balloon::VIRTIO_BALLOON_PF_SIZE;
use crate::vm_control::BalloonWS;
use crate::vm_control::RegisteredEventWithData;
use crate::vm_control::WSBucket;

verus! {

/// The fewest bins of a working-set report.
pub const VIRTIO_BALLOON_WS_MIN_NUM_BINS: usize = 2;

/// The most bins of a working-set report.
pub const VIRTIO_BALLOON_WS_MAX_NUM_BINS: usize = 16;

/// Operation on the working set: send a report.
pub const VIRTIO_BALLOON_WS_OP_REQUEST: u16 = 1;

/// Operation on the working set: take a configuration.
pub const VIRTIO_BALLOON_WS_OP_CONFIG: u16 = 2;

/// What the host asks of the balloon.
#[derive(Debug)]
pub enum BalloonTubeCommand {
    /// Hold `num_bytes` bytes. Where `allow_failure` is set the host waits
    /// to hear how the resize ended.
    Adjust { num_bytes: u64, allow_failure: bool },
    /// Report the statistics of the guest.
    Stats,
    /// Report the working set of the guest.
    WorkingSet,
    /// Configure how the guest reports its working set.
    WorkingSetConfig { bins: Vec<u32>, refresh_threshold: u32, report_threshold: u32 },
}

/// What the balloon answers.
#[derive(Debug)]
pub enum BalloonTubeResult {
    Stats { stats: BalloonStats, balloon_actual: u64 },
    Adjusted { num_bytes: u64 },
    WorkingSet { ws: BalloonWS, balloon_actual: u64 },
}

/// What the queue of working-set operations is asked to tell the guest.
#[derive(Debug)]
pub enum WSOp {
    WSReport,
    WSConfig { bins: Vec<u32>, refresh_threshold: u32, report_threshold: u32 },
}

/// A [`WSOp`] with its list as a sequence.
pub enum WSOpView {
    WSReport,
    WSConfig { bins: Seq<u32>, refresh_threshold: u32, report_threshold: u32 },
}

impl View for WSOp {
    type V = WSOpView;

    open spec fn view(&self) -> WSOpView {
        match *self {
            WSOp::WSReport => WSOpView::WSReport,
            WSOp::WSConfig { bins, refresh_threshold, report_threshold } => WSOpView::WSConfig {
                bins: bins@,
                refresh_threshold,
                report_threshold,
            },
        }
    }
}

/// What a command of the host has the worker do, beside the change of the
/// state.
#[derive(Debug)]
pub struct CommandEffects {
    /// Tell the guest that the configuration changed.
    pub config_changed: bool,
    /// Answer the host that the balloon holds this count of pages.
    pub adjusted: Option<u32>,
    /// Ask the guest for new statistics.
    pub request_stats: bool,
    /// Hand this on to the queue of working-set operations.
    pub ws_op: Option<WSOp>,
}

/// A [`CommandEffects`] with its list as a sequence.
pub struct CommandEffectsView {
    pub config_changed: bool,
    pub adjusted: Option<u32>,
    pub request_stats: bool,
    pub ws_op: Option<WSOpView>,
}

impl View for CommandEffects {
    type V = CommandEffectsView;

    open spec fn view(&self) -> CommandEffectsView {
        CommandEffectsView {
            config_changed: self.config_changed,
            adjusted: self.adjusted,
            request_stats: self.request_stats,
            ws_op: match self.ws_op {
                Some(op) => Some(op@),
                None => None,
            },
        }
    }
}

/// The pages that `num_bytes` bytes fill, as the driver counts them: in 32
/// bits.
pub open spec fn spec_pages_of(num_bytes: u64) -> u32 {
    ((num_bytes / VIRTIO_BALLOON_PF_SIZE) % 0x1_0000_0000) as u32
}

/// The pages that `num_bytes` bytes fill, as the driver counts them.
pub fn pages_of(num_bytes: u64) -> (num_pages: u32)
    ensures
        num_pages == spec_pages_of(num_bytes),
{
    assert((num_bytes >> 12) & 0xffff_ffff == (num_bytes / 4096) % 0x1_0000_0000) by (bit_vector);
    ((num_bytes >> 12) & 0xffff_ffff) as u32
}

/// State and effects after the host sent `command`.
///
/// A resize sets the pages that the balloon shall hold and tells the guest.
/// One that may fail is answered at once where the balloon holds that many
/// pages already, and is under way from then on where it does not. The
/// other commands change nothing and are handed on.
pub open spec fn spec_handle_command(state: BalloonStateView, command: BalloonTubeCommand) -> (
    BalloonStateView,
    CommandEffectsView,
) {
    match command {
        BalloonTubeCommand::Adjust { num_bytes, allow_failure } => {
            let num_pages = spec_pages_of(num_bytes);
            let answered = allow_failure && num_pages == state.actual_pages;
            (
                BalloonStateView {
                    num_pages,
                    failable_update: state.failable_update || (allow_failure && !answered),
                    ..state
                },
                CommandEffectsView {
                    config_changed: true,
                    adjusted: if answered {
                        Some(num_pages)
                    } else {
                        None
                    },
                    request_stats: false,
                    ws_op: None,
                },
            )
        },
        BalloonTubeCommand::Stats => (
            state,
            CommandEffectsView {
                config_changed: false,
                adjusted: None,
                request_stats: true,
                ws_op: None,
            },
        ),
        BalloonTubeCommand::WorkingSet => (
            state,
            CommandEffectsView {
                config_changed: false,
                adjusted: None,
                request_stats: false,
                ws_op: Some(WSOpView::WSReport),
            },
        ),
        BalloonTubeCommand::WorkingSetConfig { bins, refresh_threshold, report_threshold } => (
            state,
            CommandEffectsView {
                config_changed: false,
                adjusted: None,
                request_stats: false,
                ws_op: Some(WSOpView::WSConfig { bins: bins@, refresh_threshold, report_threshold }),
            },
        ),
    }
}

/// Takes note of a command of the host, and says what the worker does
/// about it.
pub fn handle_command(state: &mut BalloonState, command: BalloonTubeCommand) -> (effects:
    CommandEffects)
    ensures
        (final(state)@, effects@) == spec_handle_command(old(state)@, command),
{
    match command {
        BalloonTubeCommand::Adjust { num_bytes, allow_failure } => {
            let num_pages = pages_of(num_bytes);
            state.num_pages = num_pages;
            let mut adjusted = None;
            if allow_failure {
                if num_pages == state.actual_pages {
                    adjusted = Some(num_pages);
                } else {
                    state.failable_update = true;
                }
            }
            CommandEffects { config_changed: true, adjusted, request_stats: false, ws_op: None }
        },
        BalloonTubeCommand::Stats => CommandEffects {
            config_changed: false,
            adjusted: None,
            request_stats: true,
            ws_op: None,
        },
        BalloonTubeCommand::WorkingSet => CommandEffects {
            config_changed: false,
            adjusted: None,
            request_stats: false,
            ws_op: Some(WSOp::WSReport),
        },
        BalloonTubeCommand::WorkingSetConfig { bins, refresh_threshold, report_threshold } => {
            CommandEffects {
                config_changed: false,
                adjusted: None,
                request_stats: false,
                ws_op: Some(WSOp::WSConfig { bins, refresh_threshold, report_threshold }),
            }
        },
    }
}

/// The answer to a resize that ended at `num_pages` pages.
pub fn adjusted_response(num_pages: u32) -> (result: BalloonTubeResult)
    ensures
        result matches BalloonTubeResult::Adjusted { num_bytes } && num_bytes == num_pages
            * VIRTIO_BALLOON_PF_SIZE,
{
    BalloonTubeResult::Adjusted { num_bytes: pages_to_bytes(num_pages) }
}

/// The oldest resize that is done and not yet answered, which is then
/// counted as answered.
pub fn next_adjusted_response(state: &mut BalloonState) -> (num_pages: Option<u32>)
    ensures
        match num_pages {
            Some(pages) => old(state).pending_adjusted_responses@.len() > 0 && pages == old(
                state,
            ).pending_adjusted_responses@[0] && final(state)@ == (BalloonStateView {
                pending_adjusted_responses: old(state).pending_adjusted_responses@.subrange(
                    1,
                    old(state).pending_adjusted_responses@.len() as int,
                ),
                ..old(state)@
            }),
            None => old(state).pending_adjusted_responses@.len() == 0 && final(state)@ == old(
                state,
            )@,
        },
{
    state.pending_adjusted_responses.pop_front()
}

/// The answer to a request for statistics: what the guest reported, and the
/// bytes that the balloon holds.
pub fn stats_response(state: &BalloonState, records: &Vec<BalloonStat>) -> (result:
    BalloonTubeResult)
    ensures
        result matches BalloonTubeResult::Stats { stats, balloon_actual } && stats
            == spec_parse_balloon_stats(records@) && balloon_actual == state.actual_pages
            * VIRTIO_BALLOON_PF_SIZE,
{
    BalloonTubeResult::Stats {
        stats: parse_balloon_stats(records),
        balloon_actual: pages_to_bytes(state.actual_pages),
    }
}

/// The bytes of one value of the statistics, as the guest writes it.
pub const STAT_RECORD_LEN: usize = 10;

/// The bytes of one bin of the working set, as the guest writes it.
pub const WS_RECORD_LEN: usize = 32;

/// The `i`-th value of the statistics in `bytes`: two bytes that say which
/// value, and the eight bytes of the value, the low bytes first.
pub open spec fn spec_stat_record(bytes: Seq<u8>, i: int) -> BalloonStat {
    BalloonStat {
        tag: spec_u16_from_le_bytes(bytes.subrange(10 * i, 10 * i + 2)),
        val: spec_u64_from_le_bytes(bytes.subrange(10 * i + 2, 10 * i + 10)),
    }
}

/// The values of the statistics in `bytes`; bytes at the end that do not
/// make up a value are left out.
pub open spec fn spec_stat_records(bytes: Seq<u8>) -> Seq<BalloonStat> {
    Seq::new((bytes.len() / 10) as nat, |i: int| spec_stat_record(bytes, i))
}

/// The values of the statistics that the guest wrote as `bytes`.
pub fn stat_records(bytes: &[u8]) -> (records: Vec<BalloonStat>)
    ensures
        records@ == spec_stat_records(bytes@),
{
    let count = bytes.len() / STAT_RECORD_LEN;
    let mut records: Vec<BalloonStat> = Vec::new();
    let mut i: usize = 0;
    while i < count
        invariant
            i <= count,
            count == bytes@.len() / 10,
            bytes@.len() <= usize::MAX,
            records@.len() == i,
            forall|k: int| 0 <= k < i ==> records@[k] == spec_stat_record(bytes@, k),
        decreases count - i,
    {
        assert(10 * i + 10 <= bytes@.len());
        let at = i * STAT_RECORD_LEN;
        let tag = u16_from_le_bytes(slice_subrange(bytes, at, at + 2));
        let val = u64_from_le_bytes(slice_subrange(bytes, at + 2, at + 10));
        records.push(BalloonStat { tag, val });
        i += 1;
    }
    assert(records@ =~= spec_stat_records(bytes@));
    records
}

/// Whether `bucket` is the `i`-th bin of the working set in `bytes`. Of
/// the 32 bytes of a bin the second eight are the idle time and the last
/// sixteen the two sizes of memory, the low bytes first.
pub open spec fn is_ws_bucket(bucket: WSBucket, bytes: Seq<u8>, i: int) -> bool {
    &&& bucket.age == spec_u64_from_le_bytes(bytes.subrange(32 * i + 8, 32 * i + 16))
    &&& bucket.bytes@.len() == 2
    &&& bucket.bytes@[0] == spec_u64_from_le_bytes(bytes.subrange(32 * i + 16, 32 * i + 24))
    &&& bucket.bytes@[1] == spec_u64_from_le_bytes(bytes.subrange(32 * i + 24, 32 * i + 32))
}

/// Whether `ws` is the working set that `bytes` report; bytes at the end
/// that do not make up a bin are left out.
pub open spec fn is_working_set(ws: Seq<WSBucket>, bytes: Seq<u8>) -> bool {
    &&& ws.len() == bytes.len() / 32
    &&& forall|i: int| 0 <= i < ws.len() ==> is_ws_bucket(#[trigger] ws[i], bytes, i)
}

/// The working set that the guest wrote as `bytes`.
pub fn parse_balloon_ws(bytes: &[u8]) -> (ws: BalloonWS)
    ensures
        is_working_set(ws.ws@, bytes@),
{
    let count = bytes.len() / WS_RECORD_LEN;
    let mut buckets: Vec<WSBucket> = Vec::new();
    let mut i: usize = 0;
    while i < count
        invariant
            i <= count,
            count == bytes@.len() / 32,
            bytes@.len() <= usize::MAX,
            buckets@.len() == i,
            forall|k: int| 0 <= k < i ==> is_ws_bucket(#[trigger] buckets@[k], bytes@, k),
        decreases count - i,
    {
        assert(32 * i + 32 <= bytes@.len());
        let at = i * WS_RECORD_LEN;
        let age = u64_from_le_bytes(slice_subrange(bytes, at + 8, at + 16));
        let first = u64_from_le_bytes(slice_subrange(bytes, at + 16, at + 24));
        let second = u64_from_le_bytes(slice_subrange(bytes, at + 24, at + 32));
        buckets.push(WSBucket { age, bytes: [first, second] });
        i += 1;
    }
    BalloonWS { ws: buckets }
}

/// Whether a report has as many bins as a report may have.
pub fn ws_bins_in_range(ws: &BalloonWS) -> (in_range: bool)
    ensures
        in_range == (VIRTIO_BALLOON_WS_MIN_NUM_BINS <= ws.ws@.len()
            <= VIRTIO_BALLOON_WS_MAX_NUM_BINS),
{
    VIRTIO_BALLOON_WS_MIN_NUM_BINS <= ws.ws.len() && ws.ws.len() <= VIRTIO_BALLOON_WS_MAX_NUM_BINS
}

/// The bytes of the limits of the bins, one after the other, four bytes
/// each, the low bytes first.
pub open spec fn spec_bins_bytes(bins: Seq<u32>) -> Seq<u8>
    decreases bins.len(),
{
    if bins.len() == 0 {
        Seq::empty()
    } else {
        spec_bins_bytes(bins.drop_last()) + spec_u32_to_le_bytes(bins.last())
    }
}

/// The bytes that tell the guest of an operation on the working set: the
/// two bytes of the operation and, for a configuration, the limits of the
/// bins and the two thresholds.
pub open spec fn spec_ws_op_bytes(op: WSOpView) -> Seq<u8> {
    match op {
        WSOpView::WSReport => spec_u16_to_le_bytes(VIRTIO_BALLOON_WS_OP_REQUEST),
        WSOpView::WSConfig { bins, refresh_threshold, report_threshold } => spec_u16_to_le_bytes(
            VIRTIO_BALLOON_WS_OP_CONFIG,
        ) + spec_bins_bytes(bins) + spec_u32_to_le_bytes(refresh_threshold) + spec_u32_to_le_bytes(
            report_threshold,
        ),
    }
}

/// Appends the bytes of `more` to `bytes`.
fn append(bytes: &mut Vec<u8>, more: &Vec<u8>)
    ensures
        final(bytes)@ == old(bytes)@ + more@,
{
    let mut i: usize = 0;
    while i < more.len()
        invariant
            i <= more@.len(),
            bytes@ == old(bytes)@ + more@.subrange(0, i as int),
        decreases more@.len() - i,
    {
        bytes.push(more[i]);
        assert(bytes@ =~= old(bytes)@ + more@.subrange(0, i + 1));
        i += 1;
    }
    assert(more@.subrange(0, i as int) =~= more@);
}

/// The bytes that tell the guest of the operation `op`.
pub fn ws_op_bytes(op: &WSOp) -> (bytes: Vec<u8>)
    ensures
        bytes@ == spec_ws_op_bytes(op@),
{
    match op {
        WSOp::WSReport => u16_to_le_bytes(VIRTIO_BALLOON_WS_OP_REQUEST),
        WSOp::WSConfig { bins, refresh_threshold, report_threshold } => {
            let mut bytes = u16_to_le_bytes(VIRTIO_BALLOON_WS_OP_CONFIG);
            let ghost head = bytes@;
            let mut i: usize = 0;
            assert(bins@.subrange(0, 0) =~= Seq::<u32>::empty());
            assert(bytes@ =~= head + spec_bins_bytes(bins@.subrange(0, 0)));
            while i < bins.len()
                invariant
                    i <= bins@.len(),
                    bytes@ == head + spec_bins_bytes(bins@.subrange(0, i as int)),
                decreases bins@.len() - i,
            {
                assert(bins@.subrange(0, i + 1).drop_last() =~= bins@.subrange(0, i as int));
                let bin = u32_to_le_bytes(bins[i]);
                append(&mut bytes, &bin);
                assert(bytes@ =~= head + spec_bins_bytes(bins@.subrange(0, i + 1)));
                i += 1;
            }
            assert(bins@.subrange(0, i as int) =~= bins@);
            let refresh = u32_to_le_bytes(*refresh_threshold);
            append(&mut bytes, &refresh);
            let report = u32_to_le_bytes(*report_threshold);
            append(&mut bytes, &report);
            bytes
        },
    }
}

/// Takes note that the guest is told of the operation `op`, and gives the
/// bytes that tell it. After a request for a report, a report is awaited.
pub fn ws_op_request(state: &mut BalloonState, op: &WSOp) -> (bytes: Vec<u8>)
    ensures
        bytes@ == spec_ws_op_bytes(op@),
        final(state)@ == (BalloonStateView {
            expecting_ws: old(state).expecting_ws || op is WSReport,
            ..old(state)@
        }),
{
    if let WSOp::WSReport = op {
        state.expecting_ws = true;
    }
    ws_op_bytes(op)
}

/// Where a report of the working set goes.
#[derive(Debug)]
pub enum WsDataAction {
    /// To the host, which asked for it.
    Respond(BalloonTubeResult),
    /// To whoever listens to the events of the balloon.
    Notify(RegisteredEventWithData),
    /// Nowhere.
    Dropped,
}

/// Takes note that the guest reported the working set `ws`, and says where
/// the report goes: to the host where the host awaits one, which then
/// awaits none; else to a listener, where there is one.
pub fn handle_ws_data(state: &mut BalloonState, ws: BalloonWS, listener: bool) -> (action:
    WsDataAction)
    ensures
        final(state)@ == (BalloonStateView { expecting_ws: false, ..old(state)@ }),
        match action {
            WsDataAction::Respond(BalloonTubeResult::WorkingSet { ws: sent, balloon_actual }) => {
                &&& old(state).expecting_ws
                &&& sent == ws
                &&& balloon_actual == old(state).actual_pages * VIRTIO_BALLOON_PF_SIZE
            },
            WsDataAction::Respond(_) => false,
            WsDataAction::Notify(
                RegisteredEventWithData::VirtioBalloonWsReport { ws_buckets, balloon_actual },
            ) => {
                &&& !old(state).expecting_ws
                &&& listener
                &&& ws_buckets@ == ws.ws@
                &&& balloon_actual == old(state).actual_pages * VIRTIO_BALLOON_PF_SIZE
            },
            WsDataAction::Notify(_) => false,
            WsDataAction::Dropped => !old(state).expecting_ws && !listener,
        },
{
    let balloon_actual = pages_to_bytes(state.actual_pages);
    if state.expecting_ws {
        state.expecting_ws = false;
        WsDataAction::Respond(BalloonTubeResult::WorkingSet { ws, balloon_actual })
    } else if listener {
        WsDataAction::Notify(RegisteredEventWithData::from_ws(&ws, balloon_actual))
    } else {
        WsDataAction::Dropped
    }
}

/// The bytes of the configuration of the balloon.
pub const CONFIG_LEN: usize = 20;

/// The configuration of a balloon that shall hold `num_pages` pages, holds
/// `actual` and reports its working set in `ws_num_bins` bins, as the
/// driver reads it: the two counts in four bytes each, the low bytes
/// first; eight bytes that are not used and 0; the count of bins; and
/// three bytes that are 0.
pub open spec fn spec_config_bytes(num_pages: u32, actual: u32, ws_num_bins: u8) -> Seq<u8> {
    spec_u32_to_le_bytes(num_pages) + spec_u32_to_le_bytes(actual) + Seq::new(8, |i: int| 0u8)
        + seq![ws_num_bins, 0u8, 0u8, 0u8]
}

/// The configuration of the balloon, as the driver reads it.
pub fn config_bytes(num_pages: u32, actual: u32, ws_num_bins: u8) -> (bytes: Vec<u8>)
    ensures
        bytes@ == spec_config_bytes(num_pages, actual, ws_num_bins),
        bytes@.len() == CONFIG_LEN,
{
    let mut bytes = u32_to_le_bytes(num_pages);
    let second = u32_to_le_bytes(actual);
    append(&mut bytes, &second);
    proof {
        vstd::bytes::lemma_auto_spec_u32_to_from_le_bytes();
    }
    let ghost head = bytes@;
    let mut i: usize = 0;
    while i < 8
        invariant
            i <= 8,
            bytes@ == head + Seq::new(i as nat, |k: int| 0u8),
        decreases 8 - i,
    {
        bytes.push(0);
        assert(bytes@ =~= head + Seq::new((i + 1) as nat, |k: int| 0u8));
        i += 1;
    }
    bytes.push(ws_num_bins);
    bytes.push(0);
    bytes.push(0);
    bytes.push(0);
    assert(bytes@ =~= spec_config_bytes(num_pages, actual, ws_num_bins));
    bytes
}

/// How many bytes go from `src`, from `src_offset` on, into `dst`, from
/// `dst_offset` on: as many as both hold from there on.
pub open spec fn spec_copy_len(dst_len: int, dst_offset: int, src_len: int, src_offset: int) -> int {
    if dst_offset > dst_len || src_offset > src_len {
        0
    } else if dst_len - dst_offset <= src_len - src_offset {
        dst_len - dst_offset
    } else {
        src_len - src_offset
    }
}

/// `dst` after the bytes of `src` from `src_offset` on were written into
/// it from `dst_offset` on, as far as both reach.
pub open spec fn spec_copy_config(dst: Seq<u8>, dst_offset: int, src: Seq<u8>, src_offset: int) -> Seq<
    u8,
> {
    let len = spec_copy_len(dst.len() as int, dst_offset, src.len() as int, src_offset);
    Seq::new(
        dst.len(),
        |i: int|
            if dst_offset <= i < dst_offset + len {
                src[src_offset + (i - dst_offset)]
            } else {
                dst[i]
            },
    )
}

/// Writes the bytes of `src` from `src_offset` on into `dst` from
/// `dst_offset` on, as far as both reach. Nothing is written where an
/// offset lies behind the end.
pub fn copy_config(dst: &mut Vec<u8>, dst_offset: u64, src: &[u8], src_offset: u64)
    ensures
        final(dst)@ == spec_copy_config(old(dst)@, dst_offset as int, src@, src_offset as int),
{
    if dst_offset > dst.len() as u64 || src_offset > src.len() as u64 {
        assert(dst@ =~= spec_copy_config(old(dst)@, dst_offset as int, src@, src_offset as int));
        return ;
    }
    let dst_offset = dst_offset as usize;
    let src_offset = src_offset as usize;
    let len = if dst.len() - dst_offset <= src.len() - src_offset {
        dst.len() - dst_offset
    } else {
        src.len() - src_offset
    };
    let mut i: usize = 0;
    while i < len
        invariant
            i <= len,
            dst_offset + len <= dst@.len() <= usize::MAX,
            src_offset + len <= src@.len() <= usize::MAX,
            dst@.len() == old(dst)@.len(),
            forall|k: int|
                0 <= k < dst@.len() ==> dst@[k] == if dst_offset <= k < dst_offset + i {
                    src@[src_offset + (k - dst_offset)]
                } else {
                    old(dst)@[k]
                },
        decreases len - i,
    {
        dst.set(dst_offset + i, src[src_offset + i]);
        i += 1;
    }
    assert(dst@ =~= spec_copy_config(old(dst)@, dst_offset as int, src@, src_offset as int));
}

/// What the driver reads of the configuration of the balloon from
/// `offset` on into a buffer that holds `data`.
pub open spec fn spec_read_config(
    num_pages: u32,
    actual: u32,
    ws_num_bins: u8,
    offset: u64,
    data: Seq<u8>,
) -> Seq<u8> {
    spec_copy_config(data, 0, spec_config_bytes(num_pages, actual, ws_num_bins), offset as int)
}

/// The pages that the balloon shall hold and the pages that it holds, as
/// they stand in the configuration after the driver wrote `data` into it
/// from `offset` on: its first and its second four bytes.
pub open spec fn spec_written_counts(
    num_pages: u32,
    actual: u32,
    ws_num_bins: u8,
    offset: u64,
    data: Seq<u8>,
) -> (u32, u32) {
    let written = spec_copy_config(
        spec_config_bytes(num_pages, actual, ws_num_bins),
        offset as int,
        data,
        0,
    );
    (spec_u32_from_le_bytes(written.subrange(0, 4)), spec_u32_from_le_bytes(written.subrange(4, 8)))
}

/// The pages that the balloon shall hold and the pages that it holds, as
/// they stand in the configuration after the driver wrote `data` into it
/// from `offset` on.
pub fn written_counts(num_pages: u32, actual: u32, ws_num_bins: u8, offset: u64, data: &[u8]) -> (
    written: (u32, u32)
)
    ensures
        written == spec_written_counts(num_pages, actual, ws_num_bins, offset, data@),
{
    let mut config = config_bytes(num_pages, actual, ws_num_bins);
    copy_config(&mut config, offset, data, 0);
    (
        u32_from_le_bytes(slice_subrange(config.as_slice(), 0, 4)),
        u32_from_le_bytes(slice_subrange(config.as_slice(), 4, 8)),
    )
}

} // verus!
