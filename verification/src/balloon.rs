//! The memory balloon: which queues it has, which features it offers, and
//! how the pages that the guest gives back are gathered into ranges.

use std::collections::BTreeMap;
use std::collections::VecDeque;
use vstd::prelude::*;
use crate::balloon_control::config_bytes;
use crate::balloon_control::copy_config;
use crate::balloon_control::spec_read_config;
use crate::balloon_control::spec_written_counts;
use crate::balloon_control::written_counts;
use crate::bus::RawDescriptor;
use crate::errno::Error;
use crate::text::push_decimal;
use crate::text::spec_decimal;

verus! {

/// The size of each queue of the balloon.
pub const QUEUE_SIZE: u16 = 128;

/// The bits of an address inside a page of the balloon.
pub const VIRTIO_BALLOON_PFN_SHIFT: u32 = 12;

/// The bytes of a page of the balloon.
pub const VIRTIO_BALLOON_PF_SIZE: u64 = 4096;

/// Feature: the guest tells the host before it takes pages back.
pub const VIRTIO_BALLOON_F_MUST_TELL_HOST: u32 = 0;

/// Feature: there is a queue for statistics.
pub const VIRTIO_BALLOON_F_STATS_VQ: u32 = 1;

/// Feature: the balloon deflates when the guest runs out of memory.
pub const VIRTIO_BALLOON_F_DEFLATE_ON_OOM: u32 = 2;

/// Feature: there is a queue on which the guest reports free pages.
pub const VIRTIO_BALLOON_F_PAGE_REPORTING: u32 = 5;

/// Feature: the device watches the memory of the guest.
pub const VIRTIO_BALLOON_F_RESPONSIVE_DEVICE: u32 = 6;

/// Feature: there is a queue for events.
pub const VIRTIO_BALLOON_F_EVENTS_VQ: u32 = 7;

/// Feature: there are two queues for reports of the working set.
pub const VIRTIO_BALLOON_F_WS_REPORTING: u32 = 8;

/// A feature of the balloon that the caller may switch on.
#[derive(Clone, Copy, Debug, PartialEq, Eq, Structural)]
pub enum BalloonFeatures {
    /// The guest reports free pages.
    PageReporting,
    /// The guest reports its working set.
    WSReporting,
}

impl BalloonFeatures {
    /// The number of the feature's bit.
    pub fn bit(self) -> (bit: u32)
        ensures
            bit == match self {
                BalloonFeatures::PageReporting => VIRTIO_BALLOON_F_PAGE_REPORTING,
                BalloonFeatures::WSReporting => VIRTIO_BALLOON_F_WS_REPORTING,
            },
    {
        match self {
            BalloonFeatures::PageReporting => VIRTIO_BALLOON_F_PAGE_REPORTING,
            BalloonFeatures::WSReporting => VIRTIO_BALLOON_F_WS_REPORTING,
        }
    }
}

/// How strictly the balloon holds its pages.
#[derive(Clone, Copy, Debug, PartialEq, Eq, Structural)]
pub enum BalloonMode {
    /// The guest may touch pages in the balloon, and gets them back when it
    /// runs out of memory.
    Relaxed,
    /// The guest may not touch pages in the balloon.
    Strict,
}

/// What went wrong in the balloon. Errors of other parts are kept as text.
#[derive(Debug)]
pub enum BalloonError {
    /// Waiting for an asynchronous step failed.
    AsyncAwait(String),
    /// Waiting for an asynchronous step failed.
    AsyncAwaitAnyhow(String),
    /// The event could not be created.
    CreatingEvent(Error),
    /// The receiver of commands could not be created.
    CreatingMessageReceiver(String),
    /// A command could not be received.
    ReceivingCommand(String),
    /// The response to a command could not be sent.
    SendResponse(String),
    /// Writing to a queue failed.
    WriteQueue(String),
    /// The event of a change of configuration could not be written.
    WritingConfigEvent(Error),
}

/// Whether bit `bit` is set in `features`.
pub open spec fn has_feature(features: u64, bit: u32) -> bool
    recommends
        bit < 64,
{
    features & (1u64 << bit) != 0
}

/// The features that a balloon offers: those of every virtio device in
/// `base_features`, those that the caller switched on, the three that every
/// balloon has, and one that goes with the mode.
pub open spec fn spec_features(base_features: u64, mode: BalloonMode, enabled_features: u64) -> u64 {
    base_features | (1u64 << VIRTIO_BALLOON_F_MUST_TELL_HOST) | (1u64 << VIRTIO_BALLOON_F_STATS_VQ)
        | (1u64 << VIRTIO_BALLOON_F_EVENTS_VQ) | enabled_features | if mode == BalloonMode::Strict {
        1u64 << VIRTIO_BALLOON_F_RESPONSIVE_DEVICE
    } else {
        1u64 << VIRTIO_BALLOON_F_DEFLATE_ON_OOM
    }
}

/// How many queues a balloon has whose driver accepted `acked_features`:
/// one to inflate and one to deflate, one more each for statistics, events
/// and the reporting of pages, and two more for the working set.
pub open spec fn spec_num_expected_queues(acked_features: u64) -> nat {
    (2 + if has_feature(acked_features, VIRTIO_BALLOON_F_STATS_VQ) {
        1nat
    } else {
        0
    } + if has_feature(acked_features, VIRTIO_BALLOON_F_EVENTS_VQ) {
        1nat
    } else {
        0
    } + if has_feature(acked_features, VIRTIO_BALLOON_F_PAGE_REPORTING) {
        1nat
    } else {
        0
    } + if has_feature(acked_features, VIRTIO_BALLOON_F_WS_REPORTING) {
        2nat
    } else {
        0
    }) as nat
}

/// What the worker and the device share of the balloon.
#[derive(Debug)]
pub struct BalloonState {
    /// The pages that the balloon shall hold.
    pub num_pages: u32,
    /// The pages that the balloon holds.
    pub actual_pages: u32,
    /// Whether a report of the working set is awaited.
    pub expecting_ws: bool,
    /// Whether a resize that may fail is under way.
    pub failable_update: bool,
    /// The sizes of resizes that are done and not yet answered, oldest
    /// first.
    pub pending_adjusted_responses: VecDeque<u32>,
}

/// The memory balloon of a machine.
#[derive(Debug)]
pub struct Balloon {
    command_tube: Option<RawDescriptor>,
    release_memory_tube: Option<RawDescriptor>,
    pending_adjusted_response_event: RawDescriptor,
    state: BalloonState,
    features: u64,
    acked_features: u64,
    registered_evt_q: Option<RawDescriptor>,
    ws_num_bins: u8,
}

impl Balloon {
    /// The features that the balloon offers.
    pub closed spec fn spec_features(&self) -> u64 {
        self.features
    }

    /// The features that the driver accepted.
    pub closed spec fn spec_acked_features(&self) -> u64 {
        self.acked_features
    }

    /// What the worker and the device share.
    pub closed spec fn spec_state(&self) -> BalloonState {
        self.state
    }

    /// The bins of a report of the working set.
    pub closed spec fn spec_ws_num_bins(&self) -> u8 {
        self.ws_num_bins
    }

    /// The descriptors that the balloon holds, in the order in which it
    /// names them to a sandbox.
    pub closed spec fn spec_keep_rds(&self) -> Seq<RawDescriptor> {
        (match self.command_tube {
            Some(rd) => seq![rd],
            None => Seq::empty(),
        }) + (match self.release_memory_tube {
            Some(rd) => seq![rd],
            None => Seq::empty(),
        }) + (match self.registered_evt_q {
            Some(rd) => seq![rd],
            None => Seq::empty(),
        }) + seq![self.pending_adjusted_response_event]
    }

    /// A balloon that shall hold `init_balloon_size` bytes and holds none.
    ///
    /// `command_tube` brings the commands; over `release_memory_tube`, where
    /// there is one, pages are unpinned before they are released; on
    /// `registered_evt_q` events go to listeners.
    /// `pending_adjusted_response_event` is the event that tells of a resize
    /// that is done, or the error with which the host refused to create it.
    pub fn new(
        base_features: u64,
        command_tube: RawDescriptor,
        release_memory_tube: Option<RawDescriptor>,
        init_balloon_size: u64,
        mode: BalloonMode,
        enabled_features: u64,
        registered_evt_q: Option<RawDescriptor>,
        ws_num_bins: u8,
        pending_adjusted_response_event: Result<RawDescriptor, Error>,
    ) -> (r: Result<Balloon, BalloonError>)
        ensures
            match pending_adjusted_response_event {
                Err(e) => r matches Err(BalloonError::CreatingEvent(cause)) && cause == e,
                Ok(event) => r matches Ok(balloon) && {
                    &&& balloon.spec_features() == spec_features(
                        base_features,
                        mode,
                        enabled_features,
                    )
                    &&& balloon.spec_acked_features() == 0
                    &&& balloon.spec_ws_num_bins() == ws_num_bins
                    &&& balloon.spec_state().num_pages == (init_balloon_size / 4096) as u32
                    &&& balloon.spec_state().actual_pages == 0
                    &&& !balloon.spec_state().expecting_ws
                    &&& !balloon.spec_state().failable_update
                    &&& balloon.spec_state().pending_adjusted_responses@.len() == 0
                    &&& balloon.spec_keep_rds() == seq![command_tube] + (
                    match release_memory_tube {
                        Some(rd) => seq![rd],
                        None => Seq::empty(),
                    }) + (match registered_evt_q {
                        Some(rd) => seq![rd],
                        None => Seq::empty(),
                    }) + seq![event]
                },
            },
    {
        let features = base_features | 1 << VIRTIO_BALLOON_F_MUST_TELL_HOST | 1
            << VIRTIO_BALLOON_F_STATS_VQ | 1 << VIRTIO_BALLOON_F_EVENTS_VQ | enabled_features
            | if mode == BalloonMode::Strict {
            1 << VIRTIO_BALLOON_F_RESPONSIVE_DEVICE
        } else {
            1 << VIRTIO_BALLOON_F_DEFLATE_ON_OOM
        };
        let event = match pending_adjusted_response_event {
            Ok(event) => event,
            Err(e) => {
                return Err(BalloonError::CreatingEvent(e));
            },
        };
        assert(init_balloon_size >> 12 == init_balloon_size / 4096) by (bit_vector);
        Ok(
            Balloon {
                command_tube: Some(command_tube),
                release_memory_tube,
                pending_adjusted_response_event: event,
                state: BalloonState {
                    num_pages: (init_balloon_size >> VIRTIO_BALLOON_PFN_SHIFT) as u32,
                    actual_pages: 0,
                    failable_update: false,
                    pending_adjusted_responses: VecDeque::new(),
                    expecting_ws: false,
                },
                features,
                acked_features: 0,
                registered_evt_q,
                ws_num_bins,
            },
        )
    }

    /// How many queues a balloon has whose driver accepted
    /// `acked_features`.
    pub fn num_expected_queues(acked_features: u64) -> (num_queues: usize)
        ensures
            num_queues == spec_num_expected_queues(acked_features),
            2 <= num_queues <= 7,
    {
        // At least the queues to inflate and to deflate.
        let mut num_queues: usize = 2;
        if acked_features & (1 << VIRTIO_BALLOON_F_STATS_VQ) != 0 {
            num_queues += 1;
        }
        if acked_features & (1 << VIRTIO_BALLOON_F_EVENTS_VQ) != 0 {
            num_queues += 1;
        }
        if acked_features & (1 << VIRTIO_BALLOON_F_PAGE_REPORTING) != 0 {
            num_queues += 1;
        }
        if acked_features & (1 << VIRTIO_BALLOON_F_WS_REPORTING) != 0 {
            num_queues += 2;
        }
        num_queues
    }

    /// The features that the balloon offers.
    pub fn features(&self) -> (features: u64)
        ensures
            features == self.spec_features(),
    {
        self.features
    }

    /// The features that the driver accepted.
    pub fn acked_features(&self) -> (features: u64)
        ensures
            features == self.spec_acked_features(),
    {
        self.acked_features
    }

    /// Takes note of the features that the driver accepts. Of `value` only
    /// what the balloon offers counts; the result says whether `value` named
    /// anything else.
    pub fn ack_features(&mut self, value: u64) -> (unknown: bool)
        ensures
            unknown == (value & !old(self).spec_features() != 0),
            final(self).spec_acked_features() == old(self).spec_acked_features() | (value & old(self).spec_features()),
            final(self).spec_features() == old(self).spec_features(),
            final(self).spec_state() == old(self).spec_state(),
            final(self).spec_ws_num_bins() == old(self).spec_ws_num_bins(),
            final(self).spec_keep_rds() == old(self).spec_keep_rds(),
    {
        let mut value = value;
        let unknown = value & !self.features != 0;
        if unknown {
            value &= self.features;
        } else {
            let features = self.features;
            assert(value & !features == 0 ==> value & features == value) by (bit_vector);
        }
        self.acked_features |= value;
        unknown
    }

    /// The descriptors that the process of the balloon keeps.
    pub fn keep_rds(&self) -> (rds: Vec<RawDescriptor>)
        ensures
            rds@ == self.spec_keep_rds(),
    {
        let mut rds = Vec::new();
        if let Some(command_tube) = self.command_tube {
            rds.push(command_tube);
        }
        if let Some(release_memory_tube) = self.release_memory_tube {
            rds.push(release_memory_tube);
        }
        if let Some(registered_evt_q) = self.registered_evt_q {
            rds.push(registered_evt_q);
        }
        rds.push(self.pending_adjusted_response_event);
        assert(rds@ =~= self.spec_keep_rds());
        rds
    }
}

/// Pages that are being gathered into ranges: the ranges that are closed,
/// and start and size of the one that is open. A size of 0 says that none is
/// open.
pub struct Gathered {
    pub ranges: Seq<(int, int)>,
    pub start: int,
    pub size: int,
}

/// What one more page at `address` does to the gathering: it lengthens the
/// open range where it lies right behind it or right in front of it, and else
/// closes it and opens a new one.
pub open spec fn spec_absorb(g: Gathered, address: int) -> Gathered {
    if g.start + g.size == address {
        Gathered { size: g.size + VIRTIO_BALLOON_PF_SIZE, ..g }
    } else if g.start == address + VIRTIO_BALLOON_PF_SIZE {
        Gathered { start: address, size: g.size + VIRTIO_BALLOON_PF_SIZE, ..g }
    } else {
        Gathered {
            ranges: if g.size != 0 {
                g.ranges.push((g.start, g.size))
            } else {
                g.ranges
            },
            start: address,
            size: VIRTIO_BALLOON_PF_SIZE as int,
        }
    }
}

/// The pages with the numbers `pfns`, gathered one after the other.
pub open spec fn spec_gather(pfns: Seq<u32>) -> Gathered
    decreases pfns.len(),
{
    if pfns.len() == 0 {
        Gathered { ranges: Seq::empty(), start: 0, size: 0 }
    } else {
        spec_absorb(spec_gather(pfns.drop_last()), pfns.last() as int * VIRTIO_BALLOON_PF_SIZE)
    }
}

/// The ranges of guest memory, as address and size, that the pages with the
/// numbers `pfns` make up when neighbours in the list that are neighbours in
/// memory are joined.
pub open spec fn spec_inflate_ranges(pfns: Seq<u32>) -> Seq<(int, int)> {
    let g = spec_gather(pfns);
    if g.size != 0 {
        g.ranges.push((g.start, g.size))
    } else {
        g.ranges
    }
}

/// The bytes of all `ranges` together.
pub open spec fn total_size(ranges: Seq<(int, int)>) -> int
    decreases ranges.len(),
{
    if ranges.len() == 0 {
        0
    } else {
        total_size(ranges.drop_last()) + ranges.last().1
    }
}

/// Gathering loses no page and invents none: closed and open ranges
/// together hold one page for each number.
pub proof fn lemma_gather_keeps_pages(pfns: Seq<u32>)
    ensures
        total_size(spec_gather(pfns).ranges) + spec_gather(pfns).size == pfns.len()
            * VIRTIO_BALLOON_PF_SIZE,
        0 <= spec_gather(pfns).size <= pfns.len() * VIRTIO_BALLOON_PF_SIZE,
        spec_gather(pfns).ranges.len() <= pfns.len(),
        0 <= spec_gather(pfns).start < 0x1000_0000_0000,
    decreases pfns.len(),
{
    if pfns.len() > 0 {
        lemma_gather_keeps_pages(pfns.drop_last());
        let g = spec_gather(pfns.drop_last());
        let address = pfns.last() as int * VIRTIO_BALLOON_PF_SIZE;
        if g.start + g.size != address && g.start != address + VIRTIO_BALLOON_PF_SIZE && g.size
            != 0 {
            let closed = g.ranges.push((g.start, g.size));
            assert(closed.drop_last() =~= g.ranges);
        }
    }
}

/// The ranges keep every page: the bytes of all ranges together are those
/// of one page for each number.
pub proof fn lemma_inflate_ranges_keep_pages(pfns: Seq<u32>)
    ensures
        total_size(spec_inflate_ranges(pfns)) == pfns.len() * VIRTIO_BALLOON_PF_SIZE,
{
    lemma_gather_keeps_pages(pfns);
    let g = spec_gather(pfns);
    if g.size != 0 {
        let closed = g.ranges.push((g.start, g.size));
        assert(closed.drop_last() =~= g.ranges);
    }
}

/// `ranges` as integers.
pub open spec fn range_ints(ranges: Seq<(u64, u64)>) -> Seq<(int, int)> {
    Seq::new(ranges.len(), |i: int| (ranges[i].0 as int, ranges[i].1 as int))
}

/// Gathers the pages that the guest gives to the balloon into ranges of
/// guest memory, as address and size. The guest names each page by its
/// number; pages that follow each other in the list and in memory, upwards or
/// downwards, make one range.
pub fn handle_address_chain(pfns: &Vec<u32>) -> (inflate_ranges: Vec<(u64, u64)>)
    requires
        pfns@.len() <= u32::MAX,
    ensures
        range_ints(inflate_ranges@) == spec_inflate_ranges(pfns@),
{
    let mut range_start: u64 = 0;
    let mut range_size: u64 = 0;
    let mut inflate_ranges: Vec<(u64, u64)> = Vec::new();
    let mut i: usize = 0;
    assert(pfns@.subrange(0, 0) =~= Seq::<u32>::empty());
    assert(range_ints(inflate_ranges@) =~= Seq::<(int, int)>::empty());
    while i < pfns.len()
        invariant
            i <= pfns@.len(),
            pfns@.len() <= u32::MAX,
            spec_gather(pfns@.subrange(0, i as int)) == (Gathered {
                ranges: range_ints(inflate_ranges@),
                start: range_start as int,
                size: range_size as int,
            }),
        decreases pfns@.len() - i,
    {
        let ghost seen = pfns@.subrange(0, i as int);
        let ghost next = pfns@.subrange(0, i + 1);
        proof {
            lemma_gather_keeps_pages(seen);
            assert(next.drop_last() =~= seen);
            assert(next.last() == pfns@[i as int]);
        }
        let pfn = pfns[i];
        assert((pfn as u64) << 12 == pfn as u64 * 4096) by (bit_vector)
            requires
                pfn as u64 <= 0xffff_ffff,
        ;
        let guest_address = (pfn as u64) << VIRTIO_BALLOON_PFN_SHIFT;
        if range_start + range_size == guest_address {
            range_size += VIRTIO_BALLOON_PF_SIZE;
        } else if range_start == guest_address + VIRTIO_BALLOON_PF_SIZE {
            range_start = guest_address;
            range_size += VIRTIO_BALLOON_PF_SIZE;
        } else {
            // The page lies elsewhere: the range that was open is closed.
            if range_size != 0 {
                let ghost before = inflate_ranges@;
                inflate_ranges.push((range_start, range_size));
                assert(range_ints(inflate_ranges@) =~= range_ints(before).push(
                    (range_start as int, range_size as int),
                ));
            }
            range_start = guest_address;
            range_size = VIRTIO_BALLOON_PF_SIZE;
        }
        i += 1;
    }
    assert(pfns@.subrange(0, i as int) =~= pfns@);
    if range_size != 0 {
        let ghost before = inflate_ranges@;
        inflate_ranges.push((range_start, range_size));
        assert(range_ints(inflate_ranges@) =~= range_ints(before).push(
            (range_start as int, range_size as int),
        ));
    }
    inflate_ranges
}

/// The ranges as the unpinning of memory takes them: number of the first
/// page and count of pages.
pub fn unpin_ranges(inflate_ranges: &Vec<(u64, u64)>) -> (ranges: Vec<(u64, u64)>)
    ensures
        ranges@.len() == inflate_ranges@.len(),
        forall|i: int|
            0 <= i < ranges@.len() ==> ranges@[i] == (
                inflate_ranges@[i].0 / VIRTIO_BALLOON_PF_SIZE,
                inflate_ranges@[i].1 / VIRTIO_BALLOON_PF_SIZE,
            ),
{
    let mut ranges: Vec<(u64, u64)> = Vec::new();
    let mut i: usize = 0;
    while i < inflate_ranges.len()
        invariant
            i <= inflate_ranges@.len(),
            ranges@.len() == i,
            forall|k: int|
                0 <= k < i ==> ranges@[k] == (
                    inflate_ranges@[k].0 / VIRTIO_BALLOON_PF_SIZE,
                    inflate_ranges@[k].1 / VIRTIO_BALLOON_PF_SIZE,
                ),
        decreases inflate_ranges@.len() - i,
    {
        let v = inflate_ranges[i];
        let start = v.0;
        assert(start >> 12 == start / 4096) by (bit_vector);
        ranges.push((v.0 >> VIRTIO_BALLOON_PFN_SHIFT, v.1 / VIRTIO_BALLOON_PF_SIZE));
        i += 1;
    }
    ranges
}

/// What the unpinning of memory answers.
#[derive(Clone, Copy, Debug, PartialEq, Eq, Structural)]
pub enum UnpinResponse {
    Success,
    Failed,
}

/// Whether the ranges are released to the host. `unpinned` tells of the
/// unpinning: `None` where nothing needs to be unpinned, else the answer to
/// the request, or `None` where the request or its answer was lost. Memory
/// that may still be pinned is not released.
pub fn release_ranges(unpinned: Option<Option<UnpinResponse>>) -> (release: bool)
    ensures
        release == (unpinned is None || unpinned == Some(Some(UnpinResponse::Success))),
{
    match unpinned {
        None => true,
        Some(Some(UnpinResponse::Success)) => true,
        Some(_) => false,
    }
}

/// Statistic: bytes swapped in.
pub const VIRTIO_BALLOON_S_SWAP_IN: u16 = 0;

/// Statistic: bytes swapped out.
pub const VIRTIO_BALLOON_S_SWAP_OUT: u16 = 1;

/// Statistic: major page faults.
pub const VIRTIO_BALLOON_S_MAJFLT: u16 = 2;

/// Statistic: minor page faults.
pub const VIRTIO_BALLOON_S_MINFLT: u16 = 3;

/// Statistic: free memory.
pub const VIRTIO_BALLOON_S_MEMFREE: u16 = 4;

/// Statistic: all memory.
pub const VIRTIO_BALLOON_S_MEMTOT: u16 = 5;

/// Statistic: memory that can be had without swapping.
pub const VIRTIO_BALLOON_S_AVAIL: u16 = 6;

/// Statistic: caches of disks.
pub const VIRTIO_BALLOON_S_CACHES: u16 = 7;

/// Statistic: huge pages that were allocated.
pub const VIRTIO_BALLOON_S_HTLB_PGALLOC: u16 = 8;

/// Statistic: huge pages that could not be allocated.
pub const VIRTIO_BALLOON_S_HTLB_PGFAIL: u16 = 9;

/// Statistic: shared memory.
pub const VIRTIO_BALLOON_S_NONSTANDARD_SHMEM: u16 = 65534;

/// Statistic: memory that cannot be evicted.
pub const VIRTIO_BALLOON_S_NONSTANDARD_UNEVICTABLE: u16 = 65535;

/// What the guest tells of its memory. A value that the guest did not give
/// is `None`.
#[derive(Clone, Copy, Debug, PartialEq, Eq, Structural)]
pub struct BalloonStats {
    pub swap_in: Option<u64>,
    pub swap_out: Option<u64>,
    pub major_faults: Option<u64>,
    pub minor_faults: Option<u64>,
    pub free_memory: Option<u64>,
    pub total_memory: Option<u64>,
    pub available_memory: Option<u64>,
    pub disk_caches: Option<u64>,
    pub hugetlb_allocations: Option<u64>,
    pub hugetlb_failures: Option<u64>,
    pub shared_memory: Option<u64>,
    pub unevictable_memory: Option<u64>,
}

impl Default for BalloonStats {
    fn default() -> (stats: BalloonStats)
        ensures
            stats == BalloonStats::spec_default(),
    {
        BalloonStats {
            swap_in: None,
            swap_out: None,
            major_faults: None,
            minor_faults: None,
            free_memory: None,
            total_memory: None,
            available_memory: None,
            disk_caches: None,
            hugetlb_allocations: None,
            hugetlb_failures: None,
            shared_memory: None,
            unevictable_memory: None,
        }
    }
}

impl BalloonStats {
    /// The statistics of which no value is known.
    pub open spec fn spec_default() -> BalloonStats {
        BalloonStats {
            swap_in: None,
            swap_out: None,
            major_faults: None,
            minor_faults: None,
            free_memory: None,
            total_memory: None,
            available_memory: None,
            disk_caches: None,
            hugetlb_allocations: None,
            hugetlb_failures: None,
            shared_memory: None,
            unevictable_memory: None,
        }
    }
}

/// One value of the statistics, as the guest writes it: which value, and
/// the value.
#[derive(Clone, Copy, Debug, PartialEq, Eq, Structural)]
pub struct BalloonStat {
    pub tag: u16,
    pub val: u64,
}

impl BalloonStat {
    /// `stats` with this value in its place. A value of a kind that is not
    /// known changes nothing.
    pub open spec fn spec_update_stats(self, stats: BalloonStats) -> BalloonStats {
        let val = Some(self.val);
        if self.tag == VIRTIO_BALLOON_S_SWAP_IN {
            BalloonStats { swap_in: val, ..stats }
        } else if self.tag == VIRTIO_BALLOON_S_SWAP_OUT {
            BalloonStats { swap_out: val, ..stats }
        } else if self.tag == VIRTIO_BALLOON_S_MAJFLT {
            BalloonStats { major_faults: val, ..stats }
        } else if self.tag == VIRTIO_BALLOON_S_MINFLT {
            BalloonStats { minor_faults: val, ..stats }
        } else if self.tag == VIRTIO_BALLOON_S_MEMFREE {
            BalloonStats { free_memory: val, ..stats }
        } else if self.tag == VIRTIO_BALLOON_S_MEMTOT {
            BalloonStats { total_memory: val, ..stats }
        } else if self.tag == VIRTIO_BALLOON_S_AVAIL {
            BalloonStats { available_memory: val, ..stats }
        } else if self.tag == VIRTIO_BALLOON_S_CACHES {
            BalloonStats { disk_caches: val, ..stats }
        } else if self.tag == VIRTIO_BALLOON_S_HTLB_PGALLOC {
            BalloonStats { hugetlb_allocations: val, ..stats }
        } else if self.tag == VIRTIO_BALLOON_S_HTLB_PGFAIL {
            BalloonStats { hugetlb_failures: val, ..stats }
        } else if self.tag == VIRTIO_BALLOON_S_NONSTANDARD_SHMEM {
            BalloonStats { shared_memory: val, ..stats }
        } else if self.tag == VIRTIO_BALLOON_S_NONSTANDARD_UNEVICTABLE {
            BalloonStats { unevictable_memory: val, ..stats }
        } else {
            stats
        }
    }

    /// Puts this value in its place in `stats`.
    pub fn update_stats(&self, stats: &mut BalloonStats)
        ensures
            *final(stats) == self.spec_update_stats(*old(stats)),
    {
        let val = Some(self.val);
        match self.tag {
            VIRTIO_BALLOON_S_SWAP_IN => stats.swap_in = val,
            VIRTIO_BALLOON_S_SWAP_OUT => stats.swap_out = val,
            VIRTIO_BALLOON_S_MAJFLT => stats.major_faults = val,
            VIRTIO_BALLOON_S_MINFLT => stats.minor_faults = val,
            VIRTIO_BALLOON_S_MEMFREE => stats.free_memory = val,
            VIRTIO_BALLOON_S_MEMTOT => stats.total_memory = val,
            VIRTIO_BALLOON_S_AVAIL => stats.available_memory = val,
            VIRTIO_BALLOON_S_CACHES => stats.disk_caches = val,
            VIRTIO_BALLOON_S_HTLB_PGALLOC => stats.hugetlb_allocations = val,
            VIRTIO_BALLOON_S_HTLB_PGFAIL => stats.hugetlb_failures = val,
            VIRTIO_BALLOON_S_NONSTANDARD_SHMEM => stats.shared_memory = val,
            VIRTIO_BALLOON_S_NONSTANDARD_UNEVICTABLE => stats.unevictable_memory = val,
            _ => (),
        }
    }
}

/// The statistics after the values `records` were put in their places, the
/// first of them first.
pub open spec fn spec_parse_balloon_stats(records: Seq<BalloonStat>) -> BalloonStats
    decreases records.len(),
{
    if records.len() == 0 {
        BalloonStats::spec_default()
    } else {
        records.last().spec_update_stats(spec_parse_balloon_stats(records.drop_last()))
    }
}

/// The statistics that the values `records` of the guest make up. Of two
/// values of one kind the later counts.
pub fn parse_balloon_stats(records: &Vec<BalloonStat>) -> (stats: BalloonStats)
    ensures
        stats == spec_parse_balloon_stats(records@),
{
    let mut stats: BalloonStats = BalloonStats::default();
    let mut i: usize = 0;
    assert(records@.subrange(0, 0) =~= Seq::<BalloonStat>::empty());
    while i < records.len()
        invariant
            i <= records@.len(),
            stats == spec_parse_balloon_stats(records@.subrange(0, i as int)),
        decreases records@.len() - i,
    {
        assert(records@.subrange(0, i + 1).drop_last() =~= records@.subrange(0, i as int));
        records[i].update_stats(&mut stats);
        i += 1;
    }
    assert(records@.subrange(0, i as int) =~= records@);
    stats
}

/// Event of the guest: memory is short.
pub const VIRTIO_BALLOON_EVENT_PRESSURE: u32 = 1;

/// Event of the guest: the balloon could not be inflated.
pub const VIRTIO_BALLOON_EVENT_PUFF_FAILURE: u32 = 2;

/// What the rest of the device does after the state of the balloon
/// changed.
#[derive(Clone, Copy, Debug, PartialEq, Eq, Structural)]
pub struct BalloonEffects {
    /// Tell the guest that the configuration changed.
    pub config_changed: bool,
    /// Tell the hypervisor that the balloon has the size that was asked
    /// for.
    pub target_reached: bool,
    /// Answer a resize with this count of pages.
    pub adjusted: Option<u32>,
}

impl BalloonState {
    /// State and effects after the guest sent the event `evt_type`: where
    /// the guest could not inflate the balloon and a resize that may fail is
    /// under way, the resize ends at the pages that the balloon holds.
    pub open spec fn spec_handle_event(self, evt_type: u32) -> (BalloonStateView, BalloonEffects) {
        if evt_type == VIRTIO_BALLOON_EVENT_PUFF_FAILURE && self.failable_update {
            (
                BalloonStateView {
                    num_pages: self.actual_pages,
                    failable_update: false,
                    ..self@
                },
                BalloonEffects {
                    config_changed: true,
                    target_reached: false,
                    adjusted: Some(self.actual_pages),
                },
            )
        } else {
            (
                self@,
                BalloonEffects { config_changed: false, target_reached: false, adjusted: None },
            )
        }
    }

    /// Takes note of the event `evt_type` of the guest.
    pub fn handle_event(&mut self, evt_type: u32) -> (effects: BalloonEffects)
        ensures
            (final(self)@, effects) == old(self).spec_handle_event(evt_type),
    {
        if evt_type == VIRTIO_BALLOON_EVENT_PUFF_FAILURE && self.failable_update {
            self.num_pages = self.actual_pages;
            self.failable_update = false;
            BalloonEffects {
                config_changed: true,
                target_reached: false,
                adjusted: Some(self.actual_pages),
            }
        } else {
            BalloonEffects { config_changed: false, target_reached: false, adjusted: None }
        }
    }

    /// State and effects after the guest wrote that the balloon holds
    /// `actual` pages: the hypervisor is told where that is what was asked
    /// for, and a resize that may fail ends there and waits to be answered.
    pub open spec fn spec_write_actual(self, actual: u32) -> (BalloonStateView, BalloonEffects) {
        let reached = actual == self.num_pages;
        if self.failable_update && reached {
            (
                BalloonStateView {
                    actual_pages: actual,
                    failable_update: false,
                    pending_adjusted_responses: self.pending_adjusted_responses@.push(
                        self.num_pages,
                    ),
                    ..self@
                },
                BalloonEffects {
                    config_changed: false,
                    target_reached: reached,
                    adjusted: Some(self.num_pages),
                },
            )
        } else {
            (
                BalloonStateView { actual_pages: actual, ..self@ },
                BalloonEffects { config_changed: false, target_reached: reached, adjusted: None },
            )
        }
    }

    /// Takes note that the guest wrote that the balloon holds `actual`
    /// pages.
    pub fn write_actual(&mut self, actual: u32) -> (effects: BalloonEffects)
        ensures
            (final(self)@, effects) == old(self).spec_write_actual(actual),
    {
        self.actual_pages = actual;
        let reached = self.num_pages == actual;
        if self.failable_update && self.actual_pages == self.num_pages {
            self.failable_update = false;
            let num_pages = self.num_pages;
            self.pending_adjusted_responses.push_back(num_pages);
            BalloonEffects { config_changed: false, target_reached: reached, adjusted: Some(num_pages) }
        } else {
            BalloonEffects { config_changed: false, target_reached: reached, adjusted: None }
        }
    }
}

/// A [`BalloonState`] with its list as a sequence.
pub struct BalloonStateView {
    pub num_pages: u32,
    pub actual_pages: u32,
    pub expecting_ws: bool,
    pub failable_update: bool,
    pub pending_adjusted_responses: Seq<u32>,
}

impl View for BalloonState {
    type V = BalloonStateView;

    open spec fn view(&self) -> BalloonStateView {
        BalloonStateView {
            num_pages: self.num_pages,
            actual_pages: self.actual_pages,
            expecting_ws: self.expecting_ws,
            failable_update: self.failable_update,
            pending_adjusted_responses: self.pending_adjusted_responses@,
        }
    }
}

/// The bytes of `num_pages` pages.
pub fn pages_to_bytes(num_pages: u32) -> (num_bytes: u64)
    ensures
        num_bytes == num_pages * VIRTIO_BALLOON_PF_SIZE,
{
    let pages = num_pages as u64;
    assert(pages << 12 == pages * 4096) by (bit_vector)
        requires
            pages <= 0xffff_ffff,
    ;
    (num_pages as u64) << VIRTIO_BALLOON_PFN_SHIFT
}

/// The queues of a balloon, each in its role.
#[derive(Debug)]
pub struct BalloonQueues<Q> {
    pub inflate: Q,
    pub deflate: Q,
    pub stats: Option<Q>,
    pub reporting: Option<Q>,
    pub events: Option<Q>,
    pub ws: (Option<Q>, Option<Q>),
}

/// The queues of a balloon whose worker is stopped, each in its role.
#[derive(Debug)]
pub struct PausedQueues<Q> {
    pub inflate: Q,
    pub deflate: Q,
    pub stats: Option<Q>,
    pub reporting: Option<Q>,
    pub events: Option<Q>,
    pub ws: (Option<Q>, Option<Q>),
}

/// `queue` as a list of one or none.
pub open spec fn listed<Q>(queue: Option<Q>) -> Seq<Q> {
    match queue {
        Some(q) => seq![q],
        None => Seq::empty(),
    }
}

/// The queues in the order in which the driver counts them: inflate,
/// deflate, statistics, reporting, events and the two of the working set,
/// those that are there.
pub open spec fn spec_queue_list<Q>(
    inflate: Q,
    deflate: Q,
    stats: Option<Q>,
    reporting: Option<Q>,
    events: Option<Q>,
    ws: (Option<Q>, Option<Q>),
) -> Seq<Q> {
    seq![inflate, deflate] + listed(stats) + listed(reporting) + listed(events) + listed(ws.0)
        + listed(ws.1)
}

impl<Q> BalloonQueues<Q> {
    /// The two queues that every balloon has, and no other.
    pub fn new(inflate: Q, deflate: Q) -> (queues: Self)
        ensures
            queues.inflate == inflate,
            queues.deflate == deflate,
            queues.stats is None,
            queues.reporting is None,
            queues.events is None,
            queues.ws.0 is None,
            queues.ws.1 is None,
    {
        BalloonQueues {
            inflate,
            deflate,
            stats: None,
            reporting: None,
            events: None,
            ws: (None, None),
        }
    }

    /// The queues in the order in which the driver counts them.
    pub open spec fn spec_list(&self) -> Seq<Q> {
        spec_queue_list(
            self.inflate,
            self.deflate,
            self.stats,
            self.reporting,
            self.events,
            self.ws,
        )
    }
}

impl<Q> PausedQueues<Q> {
    /// The two queues that every balloon has, and no other.
    pub fn new(inflate: Q, deflate: Q) -> (queues: Self)
        ensures
            queues.inflate == inflate,
            queues.deflate == deflate,
            queues.stats is None,
            queues.reporting is None,
            queues.events is None,
            queues.ws.0 is None,
            queues.ws.1 is None,
    {
        PausedQueues {
            inflate,
            deflate,
            stats: None,
            reporting: None,
            events: None,
            ws: (None, None),
        }
    }

    /// The queues in the order in which the driver counts them.
    pub open spec fn spec_list(&self) -> Seq<Q> {
        spec_queue_list(
            self.inflate,
            self.deflate,
            self.stats,
            self.reporting,
            self.events,
            self.ws,
        )
    }

    /// The queues by their numbers: a queue has the number of its place
    /// in the order in which the driver counts them.
    pub fn into_queues(self) -> (ret: BTreeMap<usize, Q>)
        ensures
            ret@ == numbered(self.spec_list()),
    {
        let mut ret: Vec<Q> = Vec::new();
        ret.push(self.inflate);
        ret.push(self.deflate);
        apply_if_some(self.stats, &mut ret);
        apply_if_some(self.reporting, &mut ret);
        apply_if_some(self.events, &mut ret);
        apply_if_some(self.ws.0, &mut ret);
        apply_if_some(self.ws.1, &mut ret);
        assert(ret@ =~= self.spec_list());
        number_queues(ret)
    }
}

/// Puts the queue at the end of `list`, if there is one.
pub fn apply_if_some<Q>(queue_opt: Option<Q>, list: &mut Vec<Q>)
    ensures
        final(list)@ == old(list)@ + listed(queue_opt),
{
    if let Some(queue) = queue_opt {
        list.push(queue);
        assert(list@ =~= old(list)@ + listed(queue_opt));
    } else {
        assert(list@ =~= old(list)@ + listed(queue_opt));
    }
}

/// The text that says that the driver set up another count of queues than
/// the features ask for.
pub open spec fn spec_queue_count_text(expected: nat, got: nat) -> Seq<char> {
    "expected "@ + spec_decimal(expected) + " queues, got "@ + spec_decimal(got)
}

/// The queues of `list` by their numbers: a queue has the number of its
/// place in the list.
pub open spec fn numbered<Q>(list: Seq<Q>) -> Map<usize, Q> {
    Map::new(|k: usize| k < list.len(), |k: usize| list[k as int])
}

/// The queues of `all` from the place `from` on, by their numbers.
pub open spec fn numbered_from<Q>(all: Seq<Q>, from: nat) -> Map<usize, Q> {
    Map::new(|k: usize| from <= k < all.len(), |k: usize| all[k as int])
}

/// The first `n` queues of `all`.
pub open spec fn first_queues<Q>(all: Seq<Q>, n: nat) -> Seq<Q> {
    all.subrange(0, n as int)
}

/// The numbers of queues are ordered as numbers are.
proof fn lemma_numbers_are_ordered()
    ensures
        vstd::laws_cmp::obeys_cmp::<usize>(),
        vstd::std_specs::btree::key_obeys_cmp_spec::<usize>(),
{
    broadcast use {vstd::laws_cmp::group_laws_cmp, vstd::std_specs::btree::group_btree_axioms};

}

/// Puts the queue `q` into `m` under the number `k`.
fn put<Q>(m: &mut BTreeMap<usize, Q>, k: usize, q: Q)
    ensures
        final(m)@ == old(m)@.insert(k, q),
{
    broadcast use {vstd::laws_cmp::group_laws_cmp, vstd::std_specs::btree::group_btree_axioms};

    let _ = m.insert(k, q);
}

/// Gives each queue of `list` the number of its place.
fn number_queues<Q>(list: Vec<Q>) -> (m: BTreeMap<usize, Q>)
    ensures
        m@ == numbered(list@),
{
    let mut list = list;
    let ghost all = list@;
    let mut m: BTreeMap<usize, Q> = BTreeMap::new();
    proof {
        assert(m@ =~= numbered_from(all, all.len()));
        assert(list@ =~= first_queues(all, all.len()));
    }
    while list.len() > 0
        invariant
            list@.len() <= all.len(),
            list@ == first_queues(all, list@.len()),
            m@ == numbered_from(all, list@.len()),
        decreases list@.len(),
    {
        let n = list.len() - 1;
        let ghost before = list@;
        match list.pop() {
            Some(q) => {
                put(&mut m, n, q);
                proof {
                    assert(q == all[n as int]);
                    assert(m@ =~= numbered_from(all, n as nat));
                    assert(list@ =~= first_queues(all, n as nat));
                }
            },
            None => {},
        }
    }
    assert(m@ =~= numbered(all));
    m
}

/// `BTreeMap::pop_first` of std: takes the entry with the least key out of
/// the map and returns it, or `None` where the map is empty.
#[verifier::external_body]
fn pop_first<Q>(queues: &mut BTreeMap<usize, Q>) -> (first: Option<(usize, Q)>)
    ensures
        match first {
            Some((k, q)) => {
                &&& old(queues)@.contains_key(k)
                &&& old(queues)@[k] == q
                &&& forall|other: usize| old(queues)@.contains_key(other) ==> k <= other
                &&& final(queues)@ == old(queues)@.remove(k)
            },
            None => {
                &&& forall|k: usize| !old(queues)@.contains_key(k)
                &&& final(queues)@ == old(queues)@
            },
        },
{
    queues.pop_first()
}

/// Whether `list` holds the queues of `m` in the order of their numbers,
/// which are `keys`.
pub open spec fn in_key_order<Q>(m: Map<usize, Q>, keys: Seq<usize>, list: Seq<Q>) -> bool {
    &&& keys.len() == list.len()
    &&& forall|i: int, j: int| 0 <= i < j < keys.len() ==> keys[i] < keys[j]
    &&& forall|i: int| 0 <= i < keys.len() ==> m.contains_key(#[trigger] keys[i]) && m[keys[i]] == list[i]
    &&& forall|k: usize| #[trigger] m.contains_key(k) ==> keys.contains(k)
}

/// Whether `list` holds the queues of `m` in the order of their numbers.
pub open spec fn by_number<Q>(m: Map<usize, Q>, list: Seq<Q>) -> bool {
    exists|keys: Seq<usize>| in_key_order(m, keys, list)
}

/// The queues of a list, numbered by their places, are in the order of
/// their numbers.
pub proof fn lemma_numbered_by_number<Q>(list: Seq<Q>)
    requires
        list.len() <= usize::MAX,
    ensures
        by_number(numbered(list), list),
{
    let keys = Seq::new(list.len(), |i: int| i as usize);
    assert forall|k: usize| numbered(list).contains_key(k) implies keys.contains(k) by {
        assert(keys[k as int] == k);
    }
    assert(in_key_order(numbered(list), keys, list));
}

/// Whether `list` holds the queues that were taken from `orig` so far, in
/// the order of their numbers `keys`, and `cur` the rest, whose numbers
/// are greater.
pub open spec fn taken_from<Q>(
    orig: Map<usize, Q>,
    cur: Map<usize, Q>,
    keys: Seq<usize>,
    list: Seq<Q>,
) -> bool {
    &&& keys.len() == list.len()
    &&& forall|i: int, j: int| 0 <= i < j < keys.len() ==> keys[i] < keys[j]
    &&& forall|i: int|
        0 <= i < keys.len() ==> orig.contains_key(#[trigger] keys[i]) && orig[keys[i]] == list[i]
    &&& forall|k: usize| #[trigger]
        cur.contains_key(k) <==> (orig.contains_key(k) && !keys.contains(k))
    &&& forall|k: usize| #[trigger] cur.contains_key(k) ==> cur[k] == orig[k]
    &&& forall|i: int, k: usize|
        0 <= i < keys.len() && #[trigger] cur.contains_key(k) ==> #[trigger] keys[i] < k
    &&& cur.dom().finite()
    &&& cur.len() + keys.len() == orig.len()
}

/// One more queue taken: the one with the least number of the rest.
proof fn lemma_take<Q>(
    orig: Map<usize, Q>,
    cur: Map<usize, Q>,
    keys: Seq<usize>,
    list: Seq<Q>,
    k: usize,
    q: Q,
)
    requires
        taken_from(orig, cur, keys, list),
        cur.contains_key(k),
        cur[k] == q,
        forall|other: usize| cur.contains_key(other) ==> k <= other,
    ensures
        taken_from(orig, cur.remove(k), keys.push(k), list.push(q)),
        cur.len() == cur.remove(k).len() + 1,
{
    let next = cur.remove(k);
    let more = keys.push(k);
    cur.lemma_remove_key_len(k);
    assert forall|i: int, j: int| 0 <= i < j < more.len() implies more[i] < more[j] by {
        if j == keys.len() {
            assert(more[i] == keys[i]);
        }
    }
    assert forall|x: usize| #[trigger]
        next.contains_key(x) <==> (orig.contains_key(x) && !more.contains(x)) by {
        assert(cur.contains_key(x) <==> (orig.contains_key(x) && !keys.contains(x)));
        if orig.contains_key(x) && !more.contains(x) {
            if x == k {
                assert(more[keys.len() as int] == x);
            }
            if keys.contains(x) {
                let i = choose|i: int| 0 <= i < keys.len() && keys[i] == x;
                assert(more[i] == x);
            }
            assert(cur.contains_key(x));
            assert(next.contains_key(x));
        }
        if next.contains_key(x) {
            assert(cur.contains_key(x) && x != k);
            if more.contains(x) {
                let i = choose|i: int| 0 <= i < more.len() && more[i] == x;
                if i < keys.len() {
                    assert(keys[i] == x);
                    assert(keys.contains(x));
                }
            }
        }
    }
    assert forall|i: int, x: usize|
        0 <= i < more.len() && #[trigger] next.contains_key(x) implies #[trigger] more[i] < x by {
        assert(cur.contains_key(x));
        if i < keys.len() {
            assert(more[i] == keys[i]);
        }
    }
    assert forall|i: int| 0 <= i < more.len() implies orig.contains_key(#[trigger] more[i])
        && orig[more[i]] == list.push(q)[i] by {
        if i < keys.len() {
            assert(more[i] == keys[i]);
            assert(list.push(q)[i] == list[i]);
        } else {
            assert(more[i] == k);
            assert(!keys.contains(k) && orig.contains_key(k));
            assert(orig[k] == cur[k]);
            assert(list.push(q)[i] == q);
        }
    }
    assert forall|x: usize| #[trigger] next.contains_key(x) implies next[x] == orig[x] by {
        assert(cur.contains_key(x));
    }
}

/// When nothing is left, the queues that were taken are all, in the
/// order of their numbers.
proof fn lemma_taken_all<Q>(orig: Map<usize, Q>, cur: Map<usize, Q>, keys: Seq<usize>, list: Seq<Q>)
    requires
        taken_from(orig, cur, keys, list),
        cur.len() == 0,
    ensures
        by_number(orig, list),
{
    assert forall|k: usize| orig.contains_key(k) implies keys.contains(k) by {
        if !keys.contains(k) {
            assert(cur.contains_key(k));
            assert(cur.dom().contains(k));
            cur.dom().lemma_len0_is_empty();
        }
    }
    assert(in_key_order(orig, keys, list));
}

/// What was taken of the queues so far.
pub ghost struct Taken<Q> {
    pub orig: Map<usize, Q>,
    pub keys: Seq<usize>,
    pub list: Seq<Q>,
}

/// Takes the queue with the least number off `queues` if `wanted`.
fn take_if<Q>(wanted: bool, queues: &mut BTreeMap<usize, Q>, Ghost(taken): Ghost<Taken<Q>>) -> (r: (
    Option<Q>,
    Ghost<Taken<Q>>,
))
    requires
        taken_from(taken.orig, old(queues)@, taken.keys, taken.list),
        wanted ==> old(queues)@.len() >= 1,
    ensures
        taken_from(r.1@.orig, final(queues)@, r.1@.keys, r.1@.list),
        r.1@.orig == taken.orig,
        r.1@.list == taken.list + listed(r.0),
        r.0 is Some == wanted,
        old(queues)@.len() == final(queues)@.len() + r.1@.list.len() - taken.list.len(),
{
    if wanted {
        match pop_first(queues) {
            Some((k, q)) => {
                proof {
                    lemma_take(taken.orig, old(queues)@, taken.keys, taken.list, k, q);
                    assert(taken.list.push(q) =~= taken.list + listed(Some(q)));
                }
                (
                    Some(q),
                    Ghost(
                        Taken {
                            orig: taken.orig,
                            keys: taken.keys.push(k),
                            list: taken.list + listed(Some(q)),
                        },
                    ),
                )
            },
            None => {
                proof {
                    assert(old(queues)@.dom() =~= Set::<usize>::empty());
                }
                unreached()
            },
        }
    } else {
        assert(taken.list + listed(None::<Q>) =~= taken.list);
        (None, Ghost(Taken { orig: taken.orig, keys: taken.keys, list: taken.list + listed(None::<Q>) }))
    }
}

/// Gives each queue that the driver set up its role. `queues` holds them
/// by their number; the driver numbers only the queues that the accepted
/// features ask for, so the roles go by the order of the numbers: inflate,
/// deflate, then statistics, reporting, events and the two of the working
/// set, as far as `acked_features` has them.
pub fn get_queues_from_map<Q>(acked_features: u64, queues: BTreeMap<usize, Q>) -> (r: Result<
    BalloonQueues<Q>,
    String,
>)
    ensures
        match r {
            Ok(roles) => {
                &&& queues@.len() == spec_num_expected_queues(acked_features)
                &&& by_number(queues@, roles.spec_list())
                &&& roles.stats is Some == has_feature(acked_features, VIRTIO_BALLOON_F_STATS_VQ)
                &&& roles.reporting is Some == has_feature(
                    acked_features,
                    VIRTIO_BALLOON_F_PAGE_REPORTING,
                )
                &&& roles.events is Some == has_feature(acked_features, VIRTIO_BALLOON_F_EVENTS_VQ)
                &&& roles.ws.0 is Some == has_feature(acked_features, VIRTIO_BALLOON_F_WS_REPORTING)
                &&& roles.ws.1 is Some == has_feature(acked_features, VIRTIO_BALLOON_F_WS_REPORTING)
            },
            Err(e) => queues@.len() != spec_num_expected_queues(acked_features) && e@
                == spec_queue_count_text(spec_num_expected_queues(acked_features), queues@.len()),
        },
{
    broadcast use vstd::std_specs::btree::group_btree_axioms;

    let mut queues = queues;
    let ghost all = queues@;
    proof {
        lemma_numbers_are_ordered();
    }
    let expected_queues = Balloon::num_expected_queues(acked_features);
    let got = queues.len();
    if got != expected_queues {
        let mut e = "expected ".to_owned();
        push_decimal(&mut e, expected_queues as u64);
        e.push_str(" queues, got ");
        push_decimal(&mut e, got as u64);
        assert(e@ =~= spec_queue_count_text(expected_queues as nat, queues@.len()));
        return Err(e);
    }
    let ghost start = Taken { orig: all, keys: Seq::<usize>::empty(), list: Seq::<Q>::empty() };
    assert(taken_from(all, queues@, start.keys, start.list));
    // The roles go by the order of the numbers, not by the numbers of the
    // virtio specification: the driver numbers only the queues that are
    // used.
    let (inflate, taken) = take_if(true, &mut queues, Ghost(start));
    let (deflate, taken) = take_if(true, &mut queues, taken);
    let (stats, taken) = take_if(
        acked_features & (1 << VIRTIO_BALLOON_F_STATS_VQ) != 0,
        &mut queues,
        taken,
    );
    let (reporting, taken) = take_if(
        acked_features & (1 << VIRTIO_BALLOON_F_PAGE_REPORTING) != 0,
        &mut queues,
        taken,
    );
    let (events, taken) = take_if(
        acked_features & (1 << VIRTIO_BALLOON_F_EVENTS_VQ) != 0,
        &mut queues,
        taken,
    );
    let (ws_data, taken) = take_if(
        acked_features & (1 << VIRTIO_BALLOON_F_WS_REPORTING) != 0,
        &mut queues,
        taken,
    );
    let (ws_op, taken) = take_if(
        acked_features & (1 << VIRTIO_BALLOON_F_WS_REPORTING) != 0,
        &mut queues,
        taken,
    );
    let (inflate_queue, deflate_queue) = match (inflate, deflate) {
        (Some(i), Some(d)) => (i, d),
        _ => unreached(),
    };
    let mut queue_struct = BalloonQueues::new(inflate_queue, deflate_queue);
    queue_struct.stats = stats;
    queue_struct.reporting = reporting;
    queue_struct.events = events;
    queue_struct.ws = (ws_data, ws_op);
    proof {
        assert(queue_struct.spec_list() =~= taken@.list);
        assert(queues@.len() == 0);
        lemma_taken_all(all, queues@, taken@.keys, taken@.list);
    }
    Ok(queue_struct)
}

/// What stopping the worker of a device gave.
#[derive(Debug)]
pub enum StoppedWorker<Q> {
    /// The worker stopped and handed back its queues.
    WithQueues(Q),
    /// There was no worker: the device was not activated.
    AlreadyStopped,
    /// The worker stopped and handed back no queues.
    MissingQueues,
}

/// The text that says that a balloon shall wake with too few queues.
pub open spec fn spec_too_few_queues(got: nat) -> Seq<char> {
    spec_decimal(got)
        + " queues were found, but an activated balloon must have at least 2 active queues."@
}

impl Balloon {
    /// Whether a reset stopped anything: it did unless the device was not
    /// activated.
    pub fn reset<Q>(stopped: &StoppedWorker<Q>) -> (was_running: bool)
        ensures
            was_running == !(*stopped is AlreadyStopped),
    {
        match stopped {
            StoppedWorker::AlreadyStopped => false,
            _ => true,
        }
    }

    /// The queues of a balloon that went to sleep, in the order of their
    /// numbers; none where the device was not activated. A worker that
    /// handed back no queues did not stop cleanly.
    pub fn virtio_sleep<Q>(stopped: StoppedWorker<PausedQueues<Q>>) -> (r: Result<
        Option<BTreeMap<usize, Q>>,
        String,
    >)
        ensures
            match stopped {
                StoppedWorker::WithQueues(paused) => r matches Ok(Some(queues)) && queues@
                    == numbered(paused.spec_list()),
                StoppedWorker::AlreadyStopped => r matches Ok(None),
                StoppedWorker::MissingQueues => r matches Err(e) && e@
                    == "balloon queue workers did not stop cleanly."@,
            },
    {
        match stopped {
            StoppedWorker::WithQueues(paused_queues) => Ok(Some(paused_queues.into_queues())),
            StoppedWorker::MissingQueues => Err(
                "balloon queue workers did not stop cleanly.".to_owned(),
            ),
            StoppedWorker::AlreadyStopped => Ok(None),
        }
    }

    /// The queues with which a balloon wakes, each in its role; none where
    /// it slept without queues. It does not wake with fewer than two
    /// queues, nor with another count than the accepted features ask for.
    pub fn virtio_wake<Q>(&self, queues: Option<BTreeMap<usize, Q>>) -> (r: Result<
        Option<BalloonQueues<Q>>,
        String,
    >)
        ensures
            match queues {
                None => r matches Ok(None),
                Some(queues) => if queues@.len() < 2 {
                    r matches Err(e) && e@ == spec_too_few_queues(queues@.len())
                } else if queues@.len() != spec_num_expected_queues(self.spec_acked_features()) {
                    r matches Err(e) && e@ == spec_queue_count_text(
                        spec_num_expected_queues(self.spec_acked_features()),
                        queues@.len(),
                    )
                } else {
                    r matches Ok(Some(roles)) && by_number(queues@, roles.spec_list())
                },
            },
    {
        broadcast use vstd::std_specs::btree::group_btree_axioms;

        proof {
            lemma_numbers_are_ordered();
        }
        match queues {
            None => Ok(None),
            Some(queues) => {
                if queues.len() < 2 {
                    let mut e = String::new();
                    proof {
                        reveal_strlit("");
                    }
                    assert(e@ == Seq::<char>::empty());
                    push_decimal(&mut e, queues.len() as u64);
                    e.push_str(
                        " queues were found, but an activated balloon must have at least 2 active queues.",
                    );
                    assert(e@ =~= spec_too_few_queues(queues@.len()));
                    return Err(e);
                }
                match get_queues_from_map(self.acked_features, queues) {
                    Ok(roles) => Ok(Some(roles)),
                    Err(e) => Err(e),
                }
            },
        }
    }
}

/// What is saved of a balloon.
#[derive(Debug)]
pub struct BalloonSnapshot {
    pub state: BalloonState,
    pub features: u64,
    pub acked_features: u64,
    pub ws_num_bins: u8,
}

/// The text that says that a saved balloon offers other features than the
/// balloon that shall load it.
pub open spec fn spec_features_differ(live: u64, saved: u64) -> Seq<char> {
    "balloon: expected features to match, but they did not. Live: "@ + spec_decimal(live as nat)
        + ", snapshot "@ + spec_decimal(saved as nat)
}

impl Balloon {
    /// Reads the configuration of the balloon from `offset` on into
    /// `data`, as far as both reach.
    pub fn read_config(&self, offset: u64, data: &mut Vec<u8>)
        ensures
            final(data)@ == spec_read_config(
                self.spec_state().num_pages,
                self.spec_state().actual_pages,
                self.spec_ws_num_bins(),
                offset,
                old(data)@,
            ),
    {
        let config = config_bytes(self.state.num_pages, self.state.actual_pages, self.ws_num_bins);
        copy_config(data, 0, config.as_slice(), offset);
    }

    /// State and effects after the driver wrote `data` into the
    /// configuration from `offset` on. Of what is written only the pages
    /// that the balloon holds are kept. The hypervisor is told where the
    /// configuration then holds as many pages as it asks for; a resize that
    /// may fail ends where the balloon holds the pages that were asked of
    /// it.
    pub open spec fn spec_write_config(&self, offset: u64, data: Seq<u8>) -> (
        BalloonStateView,
        BalloonEffects,
    ) {
        let (num_pages, actual) = spec_written_counts(
            self.spec_state().num_pages,
            self.spec_state().actual_pages,
            self.spec_ws_num_bins(),
            offset,
            data,
        );
        let (state, effects) = self.spec_state().spec_write_actual(actual);
        (state, BalloonEffects { target_reached: num_pages == actual, ..effects })
    }

    /// Takes note that the driver wrote `data` into the configuration from
    /// `offset` on, and says what the rest of the device does about it.
    pub fn write_config(&mut self, offset: u64, data: &[u8]) -> (effects: BalloonEffects)
        ensures
            (final(self).spec_state()@, effects) == old(self).spec_write_config(offset, data@),
            final(self).spec_features() == old(self).spec_features(),
            final(self).spec_acked_features() == old(self).spec_acked_features(),
            final(self).spec_ws_num_bins() == old(self).spec_ws_num_bins(),
            final(self).spec_keep_rds() == old(self).spec_keep_rds(),
    {
        let (num_pages, actual) = written_counts(
            self.state.num_pages,
            self.state.actual_pages,
            self.ws_num_bins,
            offset,
            data,
        );
        let effects = self.state.write_actual(actual);
        BalloonEffects { target_reached: num_pages == actual, ..effects }
    }

    /// What is saved of the balloon.
    pub fn virtio_snapshot(&self) -> (snapshot: BalloonSnapshot)
        ensures
            snapshot.state@ == self.spec_state()@,
            snapshot.features == self.spec_features(),
            snapshot.acked_features == self.spec_acked_features(),
            snapshot.ws_num_bins == self.spec_ws_num_bins(),
    {
        let mut pending: VecDeque<u32> = VecDeque::new();
        let mut i: usize = 0;
        while i < self.state.pending_adjusted_responses.len()
            invariant
                i <= self.state.pending_adjusted_responses@.len(),
                pending@ == self.state.pending_adjusted_responses@.subrange(0, i as int),
            decreases self.state.pending_adjusted_responses@.len() - i,
        {
            pending.push_back(self.state.pending_adjusted_responses[i]);
            assert(pending@ =~= self.state.pending_adjusted_responses@.subrange(0, i + 1));
            i += 1;
        }
        assert(self.state.pending_adjusted_responses@.subrange(0, i as int)
            =~= self.state.pending_adjusted_responses@);
        BalloonSnapshot {
            state: BalloonState {
                num_pages: self.state.num_pages,
                actual_pages: self.state.actual_pages,
                expecting_ws: self.state.expecting_ws,
                failable_update: self.state.failable_update,
                pending_adjusted_responses: pending,
            },
            features: self.features,
            acked_features: self.acked_features,
            ws_num_bins: self.ws_num_bins,
        }
    }

    /// Loads what was saved of a balloon. A balloon that offers other
    /// features than the saved one stays as it is.
    pub fn virtio_restore(&mut self, snap: BalloonSnapshot) -> (r: Result<(), String>)
        ensures
            final(self).spec_features() == old(self).spec_features(),
            final(self).spec_keep_rds() == old(self).spec_keep_rds(),
            match r {
                Ok(()) => {
                    &&& snap.features == old(self).spec_features()
                    &&& final(self).spec_state() == snap.state
                    &&& final(self).spec_acked_features() == snap.acked_features
                    &&& final(self).spec_ws_num_bins() == snap.ws_num_bins
                },
                Err(e) => {
                    &&& snap.features != old(self).spec_features()
                    &&& e@ == spec_features_differ(old(self).spec_features(), snap.features)
                    &&& final(self).spec_state() == old(self).spec_state()
                    &&& final(self).spec_acked_features() == old(self).spec_acked_features()
                    &&& final(self).spec_ws_num_bins() == old(self).spec_ws_num_bins()
                },
            },
    {
        if snap.features != self.features {
            let mut e = "balloon: expected features to match, but they did not. Live: ".to_owned();
            push_decimal(&mut e, self.features);
            e.push_str(", snapshot ");
            push_decimal(&mut e, snap.features);
            assert(e@ =~= spec_features_differ(self.features, snap.features));
            return Err(e);
        }
        self.state = snap.state;
        self.ws_num_bins = snap.ws_num_bins;
        self.acked_features = snap.acked_features;
        Ok(())
    }
}

} // verus!
