//! Requests about the memory of the guest: registering memory of the host
//! in the address space of the guest, and taking it out again.
//!
//! The hypervisor, the allocator of addresses and whatever maps memory are
//! reached through [`MemoryHost`]. What is kept here is which regions are
//! registered and in which slots they lie.

use std::collections::BTreeSet;
use vstd::prelude::*;
use crate::bus::RawDescriptor;
use crate::errno::Error;
use crate::errno::EINVAL;
use crate::vm_control::virtio_iommu_request;
use crate::vm_control::IommuTube;
use crate::vm_control::MemSlot;
use crate::vm_control::VirtioIOMMURequest;
use crate::vm_control::VirtioIOMMUResponse;
use crate::vm_control::VirtioIOMMUVfioCommand;
use crate::vm_control::VirtioIOMMUVfioResult;
use crate::vm_control::VmMemoryRegionId;
use crate::vm_control::VmMemoryResponse;
use crate::vm_control::VmMemorySource;

verus! {

/// What an address range was allocated for.
#[derive(Clone, Copy, Debug, PartialEq, Eq, Structural)]
pub enum Alloc {
    /// Something without a name, by its number.
    Anon(usize),
    /// The frame buffer.
    Fb,
    /// The render node of the GPU.
    GpuRenderNode,
    /// A persistent-memory device, by its number.
    PmemDevice(usize),
    /// A base address register of a PCI function.
    PciBar { bus: u8, dev: u8, func: u8, bar: u8 },
    /// The window of a PCI bridge.
    PciBridgeWindow { bus: u8, dev: u8, func: u8 },
    /// The prefetchable window of a PCI bridge.
    PciBridgePrefetchWindow { bus: u8, dev: u8, func: u8 },
    /// A file, by its number.
    FileBacked(u64),
}

/// What the guest may do with memory.
#[derive(Clone, Copy, Debug, PartialEq, Eq, Structural)]
pub struct Protection {
    pub read: bool,
    pub write: bool,
}

impl Protection {
    /// Memory that may only be read.
    pub fn read() -> (p: Protection)
        ensures
            p == (Protection { read: true, write: false }),
    {
        Protection { read: true, write: false }
    }

    /// Memory that may be read and written.
    pub fn read_write() -> (p: Protection)
        ensures
            p == (Protection { read: true, write: true }),
    {
        Protection { read: true, write: true }
    }
}

/// Which writes of the guest an event stands for: any, or those of one
/// width, and of those any or those of one value.
#[derive(Clone, Copy, Debug, PartialEq, Eq, Structural)]
pub enum Datamatch {
    AnyLength,
    U8(Option<u8>),
    U16(Option<u16>),
    U32(Option<u32>),
    U64(Option<u64>),
}

impl Datamatch {
    /// The bytes of the writes that are matched; 1 where any width
    /// matches.
    pub fn len(self) -> (len: u64)
        ensures
            len == match self {
                Datamatch::AnyLength => 1u64,
                Datamatch::U8(_) => 1,
                Datamatch::U16(_) => 2,
                Datamatch::U32(_) => 4,
                Datamatch::U64(_) => 8,
            },
    {
        match self {
            Datamatch::AnyLength => 1,
            Datamatch::U8(_) => 1,
            Datamatch::U16(_) => 2,
            Datamatch::U32(_) => 4,
            Datamatch::U64(_) => 8,
        }
    }
}

/// Where memory is registered in the address space of the guest.
#[derive(Clone, Copy, Debug, PartialEq, Eq, Structural)]
pub enum VmMemoryDestination {
    /// At an offset inside an allocation, such as a BAR.
    ExistingAllocation { allocation: Alloc, offset: u64 },
    /// At this physical address of the guest.
    GuestPhysicalAddress(u64),
}

/// A request to tie an event to an address, or to untie it.
#[derive(Clone, Copy, Debug, PartialEq, Eq, Structural)]
pub struct IoEventUpdateRequest {
    pub event: RawDescriptor,
    pub addr: u64,
    pub datamatch: Datamatch,
    pub register: bool,
}

/// A request about the memory of the guest.
#[derive(Debug)]
pub enum VmMemoryRequest {
    /// Make an allocation ready, so that later registrations inside it are
    /// cheap. Nothing happens on a host that has no use for that.
    PrepareSharedMemoryRegion { alloc: Alloc },
    /// Register memory of the host in the guest.
    RegisterMemory { source: VmMemorySource, dest: VmMemoryDestination, prot: Protection },
    /// Give a range of guest memory back to the host.
    DynamicallyFreeMemoryRange { guest_address: u64, size: u64 },
    /// Take a range of guest memory back from the host.
    DynamicallyReclaimMemoryRange { guest_address: u64, size: u64 },
    /// The balloon has the size that was asked for.
    BalloonTargetReached { size: u64 },
    /// Take out memory that was registered.
    UnregisterMemory(VmMemoryRegionId),
    /// Tie an event to an offset inside an allocation, or untie it.
    IoEventWithAlloc {
        evt: RawDescriptor,
        allocation: Alloc,
        offset: u64,
        datamatch: Datamatch,
        register: bool,
    },
    /// Tie an event to an address of the guest, or untie it.
    IoEventRaw(IoEventUpdateRequest),
}

/// What the balloon asks of the hypervisor.
#[derive(Clone, Copy, Debug, PartialEq, Eq, Structural)]
pub enum BalloonEvent {
    Inflate { guest_address: u64, size: u64 },
    Deflate { guest_address: u64, size: u64 },
    BalloonTargetReached(u64),
}

/// Where a registered region lies: its slot, and where the region is part
/// of a slot that was made ready before, offset and size inside that slot.
#[derive(Clone, Copy, Debug, PartialEq, Eq)]
pub struct MappedRegion {
    pub slot: MemSlot,
    pub part: Option<(usize, usize)>,
}

/// The regions that are registered, and the allocations that were made
/// ready: for each of these the number of its first page and its slot.
#[derive(Debug)]
pub struct VmMemoryRegionState {
    slot_map: Vec<(Alloc, (u64, MemSlot))>,
    mapped_regions: Vec<(VmMemoryRegionId, MappedRegion)>,
}

/// Whether no two entries of `entries` have one key.
pub open spec fn distinct_keys<K, V>(entries: Seq<(K, V)>) -> bool {
    forall|i: int, j: int| 0 <= i < j < entries.len() ==> entries[i].0 != entries[j].0
}

/// What `entries` says of `key`.
pub open spec fn lookup<K, V>(entries: Seq<(K, V)>, key: K) -> Option<V>
    decreases entries.len(),
{
    if entries.len() == 0 {
        None
    } else if entries.last().0 == key {
        Some(entries.last().1)
    } else {
        lookup(entries.drop_last(), key)
    }
}

/// What is looked up is what stands in the list under the key.
pub proof fn lemma_lookup<K, V>(entries: Seq<(K, V)>, key: K)
    requires
        distinct_keys(entries),
    ensures
        match lookup(entries, key) {
            Some(v) => exists|i: int| 0 <= i < entries.len() && #[trigger] entries[i] == (key, v),
            None => forall|i: int| 0 <= i < entries.len() ==> (#[trigger] entries[i]).0 != key,
        },
    decreases entries.len(),
{
    if entries.len() > 0 {
        let shorter = entries.drop_last();
        assert forall|i: int, j: int| 0 <= i < j < shorter.len() implies shorter[i].0
            != shorter[j].0 by {
            assert(shorter[i] == entries[i] && shorter[j] == entries[j]);
        }
        if entries.last().0 == key {
            assert(entries[entries.len() - 1] == (key, entries.last().1));
        } else {
            lemma_lookup(shorter, key);
            match lookup(shorter, key) {
                Some(v) => {
                    let i = choose|i: int| 0 <= i < shorter.len() && #[trigger] shorter[i] == (key, v);
                    assert(entries[i] == (key, v));
                },
                None => {
                    assert forall|i: int| 0 <= i < entries.len() implies (#[trigger] entries[i]).0
                        != key by {
                        if i < shorter.len() {
                            assert(shorter[i] == entries[i]);
                        }
                    }
                },
            }
        }
    }
}

impl VmMemoryRegionState {
    /// The regions that are registered.
    pub closed spec fn spec_mapped_regions(&self) -> Seq<(VmMemoryRegionId, MappedRegion)> {
        self.mapped_regions@
    }

    /// The allocations that were made ready.
    pub closed spec fn spec_slot_map(&self) -> Seq<(Alloc, (u64, MemSlot))> {
        self.slot_map@
    }

    /// Each region and each allocation stands once.
    pub open spec fn well_formed(&self) -> bool {
        distinct_keys(self.spec_mapped_regions()) && distinct_keys(self.spec_slot_map())
    }

    /// Where the region `id` lies, if it is registered.
    pub open spec fn spec_region(&self, id: VmMemoryRegionId) -> Option<MappedRegion> {
        lookup(self.spec_mapped_regions(), id)
    }

    /// First page and slot of the allocation `alloc`, if it was made ready.
    pub open spec fn spec_prepared(&self, alloc: Alloc) -> Option<(u64, MemSlot)> {
        lookup(self.spec_slot_map(), alloc)
    }

    /// No region, no allocation.
    pub fn new() -> (state: VmMemoryRegionState)
        ensures
            state.well_formed(),
            state.spec_mapped_regions().len() == 0,
            state.spec_slot_map().len() == 0,
    {
        VmMemoryRegionState { slot_map: Vec::new(), mapped_regions: Vec::new() }
    }

    /// First page and slot of the allocation `alloc`, if it was made ready.
    pub fn prepared(&self, alloc: Alloc) -> (found: Option<(u64, MemSlot)>)
        ensures
            found == self.spec_prepared(alloc),
    {
        let mut i: usize = self.slot_map.len();
        assert(self.slot_map@.subrange(0, i as int) =~= self.slot_map@);
        while i > 0
            invariant
                i <= self.slot_map@.len(),
                lookup(self.slot_map@, alloc) == lookup(self.slot_map@.subrange(0, i as int), alloc),
            decreases i,
        {
            let ghost head = self.slot_map@.subrange(0, i as int);
            assert(head.drop_last() =~= self.slot_map@.subrange(0, i - 1));
            assert(head.last() == self.slot_map@[i - 1]);
            if self.slot_map[i - 1].0 == alloc {
                return Some(self.slot_map[i - 1].1);
            }
            i -= 1;
        }
        None
    }

    /// Where the region `id` lies, if it is registered.
    pub fn region(&self, id: VmMemoryRegionId) -> (found: Option<MappedRegion>)
        ensures
            found == self.spec_region(id),
    {
        let mut i: usize = self.mapped_regions.len();
        assert(self.mapped_regions@.subrange(0, i as int) =~= self.mapped_regions@);
        while i > 0
            invariant
                i <= self.mapped_regions@.len(),
                lookup(self.mapped_regions@, id) == lookup(
                    self.mapped_regions@.subrange(0, i as int),
                    id,
                ),
            decreases i,
        {
            let ghost head = self.mapped_regions@.subrange(0, i as int);
            assert(head.drop_last() =~= self.mapped_regions@.subrange(0, i - 1));
            assert(head.last() == self.mapped_regions@[i - 1]);
            if self.mapped_regions[i - 1].0 == id {
                return Some(self.mapped_regions[i - 1].1);
            }
            i -= 1;
        }
        None
    }

    /// Takes note that the allocation `alloc` was made ready, in place of
    /// what was known of it.
    pub fn insert_prepared(&mut self, alloc: Alloc, info: (u64, MemSlot))
        requires
            old(self).well_formed(),
        ensures
            final(self).well_formed(),
            final(self).spec_mapped_regions() == old(self).spec_mapped_regions(),
            forall|a: Alloc|
                final(self).spec_prepared(a) == if a == alloc {
                    Some(info)
                } else {
                    old(self).spec_prepared(a)
                },
    {
        let ghost before = self.slot_map@;
        let mut i: usize = 0;
        while i < self.slot_map.len()
            invariant
                i <= self.slot_map@.len(),
                self.slot_map@ == before,
                before == old(self).slot_map@,
                self.mapped_regions@ == old(self).mapped_regions@,
                distinct_keys(before),
                distinct_keys(self.mapped_regions@),
                forall|k: int| 0 <= k < i ==> (#[trigger] before[k]).0 != alloc,
            decreases self.slot_map@.len() - i,
        {
            if self.slot_map[i].0 == alloc {
                self.slot_map.set(i, (alloc, info));
                proof {
                    lemma_replaced(before, i as int, alloc, info);
                }
                return ;
            }
            i += 1;
        }
        self.slot_map.push((alloc, info));
        proof {
            lemma_pushed(before, alloc, info);
        }
    }

    /// Registers the region `id`, in place of what was known of it.
    pub fn insert_region(&mut self, id: VmMemoryRegionId, region: MappedRegion)
        requires
            old(self).well_formed(),
        ensures
            final(self).well_formed(),
            final(self).spec_slot_map() == old(self).spec_slot_map(),
            forall|r: VmMemoryRegionId|
                final(self).spec_region(r) == if r == id {
                    Some(region)
                } else {
                    old(self).spec_region(r)
                },
    {
        let ghost before = self.mapped_regions@;
        let mut i: usize = 0;
        while i < self.mapped_regions.len()
            invariant
                i <= self.mapped_regions@.len(),
                self.mapped_regions@ == before,
                before == old(self).mapped_regions@,
                self.slot_map@ == old(self).slot_map@,
                distinct_keys(before),
                distinct_keys(self.slot_map@),
                forall|k: int| 0 <= k < i ==> (#[trigger] before[k]).0 != id,
            decreases self.mapped_regions@.len() - i,
        {
            if self.mapped_regions[i].0 == id {
                self.mapped_regions.set(i, (id, region));
                proof {
                    lemma_replaced(before, i as int, id, region);
                }
                return ;
            }
            i += 1;
        }
        self.mapped_regions.push((id, region));
        proof {
            lemma_pushed(before, id, region);
        }
    }

    /// Takes the region `id` out, and says where it lay.
    pub fn remove_region(&mut self, id: VmMemoryRegionId) -> (removed: Option<MappedRegion>)
        requires
            old(self).well_formed(),
        ensures
            final(self).well_formed(),
            final(self).spec_slot_map() == old(self).spec_slot_map(),
            removed == old(self).spec_region(id),
            forall|r: VmMemoryRegionId|
                final(self).spec_region(r) == if r == id {
                    None
                } else {
                    old(self).spec_region(r)
                },
    {
        let ghost before = self.mapped_regions@;
        let mut i: usize = 0;
        while i < self.mapped_regions.len()
            invariant
                i <= self.mapped_regions@.len(),
                self.mapped_regions@ == before,
                before == old(self).mapped_regions@,
                self.slot_map@ == old(self).slot_map@,
                distinct_keys(before),
                distinct_keys(self.slot_map@),
                forall|k: int| 0 <= k < i ==> (#[trigger] before[k]).0 != id,
            decreases self.mapped_regions@.len() - i,
        {
            if self.mapped_regions[i].0 == id {
                let entry = self.mapped_regions.remove(i);
                proof {
                    lemma_removed(before, i as int);
                }
                return Some(entry.1);
            }
            i += 1;
        }
        proof {
            lemma_absent(before, id);
        }
        None
    }
}

impl Default for VmMemoryRegionState {
    fn default() -> (state: VmMemoryRegionState)
        ensures
            state.well_formed(),
            state.spec_mapped_regions().len() == 0,
            state.spec_slot_map().len() == 0,
    {
        VmMemoryRegionState::new()
    }
}

/// Nothing is looked up under a key that no entry has.
pub proof fn lemma_absent<K, V>(entries: Seq<(K, V)>, key: K)
    requires
        forall|k: int| 0 <= k < entries.len() ==> (#[trigger] entries[k]).0 != key,
    ensures
        lookup(entries, key) is None,
    decreases entries.len(),
{
    if entries.len() > 0 {
        let shorter = entries.drop_last();
        assert forall|k: int| 0 <= k < shorter.len() implies (#[trigger] shorter[k]).0 != key by {
            assert(shorter[k] == entries[k]);
        }
        assert(entries.last() == entries[entries.len() - 1]);
        lemma_absent(shorter, key);
    }
}

/// An entry at the end of a list under a new key is looked up under that
/// key, and every other key as before.
pub proof fn lemma_pushed<K, V>(entries: Seq<(K, V)>, key: K, value: V)
    requires
        distinct_keys(entries),
        forall|k: int| 0 <= k < entries.len() ==> (#[trigger] entries[k]).0 != key,
    ensures
        distinct_keys(entries.push((key, value))),
        forall|other: K|
            lookup(entries.push((key, value)), other) == if other == key {
                Some(value)
            } else {
                lookup(entries, other)
            },
{
    let longer = entries.push((key, value));
    assert(longer.drop_last() =~= entries);
    assert(longer.last() == (key, value));
    assert forall|i: int, j: int| 0 <= i < j < longer.len() implies longer[i].0 != longer[j].0 by {
        assert(longer[i] == entries[i]);
        if j < entries.len() {
            assert(longer[j] == entries[j]);
        }
    }
}

/// Where distinct keys stand, each key is looked up as the value that
/// stands with it.
pub proof fn lemma_lookup_at<K, V>(entries: Seq<(K, V)>, i: int)
    requires
        distinct_keys(entries),
        0 <= i < entries.len(),
    ensures
        lookup(entries, entries[i].0) == Some(entries[i].1),
    decreases entries.len(),
{
    if i < entries.len() - 1 {
        let shorter = entries.drop_last();
        assert forall|a: int, b: int| 0 <= a < b < shorter.len() implies shorter[a].0
            != shorter[b].0 by {
            assert(shorter[a] == entries[a] && shorter[b] == entries[b]);
        }
        assert(entries.last() == entries[entries.len() - 1]);
        assert(shorter[i] == entries[i]);
        lemma_lookup_at(shorter, i);
    }
}

/// A new value in the place of an entry is looked up under the key of the
/// entry, and every other key as before.
pub proof fn lemma_replaced<K, V>(entries: Seq<(K, V)>, at: int, key: K, value: V)
    requires
        distinct_keys(entries),
        0 <= at < entries.len(),
        entries[at].0 == key,
    ensures
        distinct_keys(entries.update(at, (key, value))),
        forall|other: K|
            lookup(entries.update(at, (key, value)), other) == if other == key {
                Some(value)
            } else {
                lookup(entries, other)
            },
{
    let after = entries.update(at, (key, value));
    assert forall|i: int, j: int| 0 <= i < j < after.len() implies after[i].0 != after[j].0 by {
        assert(after[i].0 == entries[i].0 && after[j].0 == entries[j].0);
    }
    assert forall|other: K|
        lookup(after, other) == if other == key {
            Some(value)
        } else {
            lookup(entries, other)
        } by {
        lemma_lookup(after, other);
        lemma_lookup(entries, other);
        if other == key {
            lemma_lookup_at(after, at);
        } else {
            match lookup(entries, other) {
                Some(v) => {
                    let i = choose|i: int|
                        0 <= i < entries.len() && #[trigger] entries[i] == (other, v);
                    assert(after[i] == (other, v));
                    lemma_lookup_at(after, i);
                },
                None => {
                    assert forall|k: int| 0 <= k < after.len() implies (#[trigger] after[k]).0
                        != other by {
                        assert(after[k].0 == entries[k].0);
                    }
                    lemma_absent(after, other);
                },
            }
        }
    }
}

/// After an entry is taken out, nothing is looked up under its key, and
/// every other key as before.
pub proof fn lemma_removed<K, V>(entries: Seq<(K, V)>, at: int)
    requires
        distinct_keys(entries),
        0 <= at < entries.len(),
    ensures
        distinct_keys(entries.remove(at)),
        lookup(entries, entries[at].0) == Some(entries[at].1),
        forall|other: K|
            lookup(entries.remove(at), other) == if other == entries[at].0 {
                None
            } else {
                lookup(entries, other)
            },
{
    let after = entries.remove(at);
    let key = entries[at].0;
    lemma_lookup_at(entries, at);
    assert forall|i: int, j: int| 0 <= i < j < after.len() implies after[i].0 != after[j].0 by {
        let bi = if i < at { i } else { i + 1 };
        let bj = if j < at { j } else { j + 1 };
        assert(after[i] == entries[bi] && after[j] == entries[bj]);
    }
    assert forall|other: K|
        lookup(after, other) == if other == key {
            None
        } else {
            lookup(entries, other)
        } by {
        lemma_lookup(entries, other);
        if other == key {
            assert forall|k: int| 0 <= k < after.len() implies (#[trigger] after[k]).0 != key by {
                let bk = if k < at { k } else { k + 1 };
                assert(after[k] == entries[bk]);
            }
            lemma_absent(after, key);
        } else {
            match lookup(entries, other) {
                Some(v) => {
                    let i = choose|i: int|
                        0 <= i < entries.len() && #[trigger] entries[i] == (other, v);
                    let moved = if i < at { i } else { i - 1 };
                    assert(after[moved] == (other, v));
                    lemma_lookup_at(after, moved);
                },
                None => {
                    assert forall|k: int| 0 <= k < after.len() implies (#[trigger] after[k]).0
                        != other by {
                        let bk = if k < at { k } else { k + 1 };
                        assert(after[k] == entries[bk]);
                    }
                    lemma_absent(after, other);
                },
            }
        }
    }
}

/// The hypervisor, the allocator of addresses and what maps memory, as the
/// rest of the machine offers them.
pub trait MemoryHost {
    /// Memory of the host that is mapped and can be handed to the guest.
    type Mapping;

    /// Whether this host gains from allocations that are made ready.
    fn should_prepare_memory_region(&self) -> bool;

    /// Makes the allocation ready; gives the number of its first page and
    /// its slot.
    fn prepare_shared_memory_region(&mut self, alloc: Alloc) -> Result<(u64, MemSlot), Error>;

    /// Maps `size` bytes of a file, from `file_offset` on, at `offset`
    /// inside a slot.
    fn add_fd_mapping(
        &mut self,
        slot: MemSlot,
        offset: usize,
        size: usize,
        descriptor: RawDescriptor,
        file_offset: u64,
        prot: Protection,
    ) -> Result<(), Error>;

    /// Takes out what lies at `offset` inside a slot.
    fn remove_mapping(&mut self, slot: MemSlot, offset: usize, size: usize) -> Result<(), Error>;

    /// Maps the source into this process. Gives the mapping, its size,
    /// and the descriptor behind it where the IOMMU has to hear of it.
    fn map(&mut self, source: VmMemorySource, prot: Protection) -> Result<
        (Self::Mapping, u64, Option<RawDescriptor>),
        Error,
    >;

    /// The address of the guest `offset` bytes into an allocation, where
    /// `len` bytes from there on lie inside it.
    fn address_from_pci_offset(&mut self, allocation: Alloc, offset: u64, len: u64) -> Option<u64>;

    /// Hands a mapping to the guest at an address; gives its slot.
    fn add_memory_region(
        &mut self,
        guest_address: u64,
        mapping: Self::Mapping,
        read_only: bool,
        log_dirty_pages: bool,
    ) -> Result<MemSlot, Error>;

    /// Takes the memory of a slot from the guest.
    fn remove_memory_region(&mut self, slot: MemSlot) -> Result<(), Error>;

    /// Does what the balloon asks.
    fn handle_balloon_event(&mut self, event: BalloonEvent) -> Result<(), Error>;

    /// Ties an event to writes at an address.
    fn register_ioevent(&mut self, event: RawDescriptor, addr: u64, datamatch: Datamatch) -> Result<
        (),
        Error,
    >;

    /// Unties an event from writes at an address.
    fn unregister_ioevent(
        &mut self,
        event: RawDescriptor,
        addr: u64,
        datamatch: Datamatch,
    ) -> Result<(), Error>;
}

/// What the requests about memory keep for the virtual IOMMU: the way to
/// it, and the slots of the memory that it was told of.
pub struct VmMemoryRequestIommuClient<I> {
    tube: I,
    gpu_memory: BTreeSet<MemSlot>,
}

impl<I: IommuTube> VmMemoryRequestIommuClient<I> {
    /// The slots that the IOMMU was told of.
    pub closed spec fn spec_gpu_memory(&self) -> Set<MemSlot> {
        self.gpu_memory@
    }

    /// A client that has told the IOMMU of nothing yet.
    pub fn new(tube: I) -> (client: Self)
        ensures
            client.spec_gpu_memory() == Set::<MemSlot>::empty(),
    {
        VmMemoryRequestIommuClient { tube, gpu_memory: BTreeSet::new() }
    }

    /// Gives back the way to the IOMMU, and the slots that it was told of.
    pub fn into_parts(self) -> (parts: (I, BTreeSet<MemSlot>))
        ensures
            parts.1@ == self.spec_gpu_memory(),
    {
        (self.tube, self.gpu_memory)
    }

    /// Whether the IOMMU was told of the slot.
    pub fn knows(&self, slot: MemSlot) -> (known: bool)
        ensures
            known == self.spec_gpu_memory().contains(slot),
    {
        broadcast use {vstd::laws_cmp::group_laws_cmp, vstd::std_specs::btree::group_btree_axioms};

        self.gpu_memory.contains(&slot)
    }

    /// Takes note that the IOMMU was told of the slot.
    fn insert(&mut self, slot: MemSlot)
        ensures
            final(self).spec_gpu_memory() == old(self).spec_gpu_memory().insert(slot),
    {
        broadcast use {vstd::laws_cmp::group_laws_cmp, vstd::std_specs::btree::group_btree_axioms};

        let _ = self.gpu_memory.insert(slot);
    }

    /// Forgets the slot; says whether the IOMMU had been told of it.
    fn remove(&mut self, slot: MemSlot) -> (known: bool)
        ensures
            known == old(self).spec_gpu_memory().contains(slot),
            final(self).spec_gpu_memory() == old(self).spec_gpu_memory().remove(slot),
    {
        broadcast use {vstd::laws_cmp::group_laws_cmp, vstd::std_specs::btree::group_btree_axioms};

        self.gpu_memory.remove(&slot)
    }
}

/// What of a source is mapped into an allocation that was made ready:
/// descriptor, offset in the file and size. Only a file and shared memory
/// can be mapped so.
pub open spec fn spec_prepared_mapping(source: VmMemorySource) -> Option<(RawDescriptor, u64, usize)> {
    match source {
        VmMemorySource::Descriptor { descriptor, offset, size } => Some(
            (descriptor, offset, size as usize),
        ),
        VmMemorySource::SharedMemory { descriptor, size } => Some((descriptor, 0u64, size as usize)),
        _ => None,
    }
}

/// What of a source is mapped into an allocation that was made ready.
pub fn prepared_mapping(source: &VmMemorySource) -> (mapping: Option<(RawDescriptor, u64, usize)>)
    ensures
        mapping == spec_prepared_mapping(*source),
{
    match source {
        VmMemorySource::Descriptor { descriptor, offset, size } => Some(
            (*descriptor, *offset, *size as usize),
        ),
        VmMemorySource::SharedMemory { descriptor, size } => Some((*descriptor, 0, *size as usize)),
        _ => None,
    }
}

/// The name of the region that lies `offset` bytes into an allocation
/// whose first page has the number `pfn`; `None` where no page has that
/// number.
pub open spec fn spec_region_in_allocation(pfn: u64, offset: u64) -> Option<VmMemoryRegionId> {
    if pfn + offset / 4096 <= u64::MAX {
        Some(VmMemoryRegionId((pfn + offset / 4096) as u64))
    } else {
        None
    }
}

/// The name of the region that lies `offset` bytes into an allocation
/// whose first page has the number `pfn`.
pub fn region_in_allocation(pfn: u64, offset: u64) -> (id: Option<VmMemoryRegionId>)
    ensures
        id == spec_region_in_allocation(pfn, offset),
{
    assert(offset >> 12 == offset / 4096) by (bit_vector);
    match pfn.checked_add(offset >> 12) {
        Some(page) => Some(VmMemoryRegionId(page)),
        None => None,
    }
}

/// The answer to a request that hands nothing back.
pub fn response_of(result: Result<(), Error>) -> (response: VmMemoryResponse)
    ensures
        response == match result {
            Ok(_) => VmMemoryResponse::Done,
            Err(e) => VmMemoryResponse::Failed(e),
        },
{
    match result {
        Ok(_) => VmMemoryResponse::Done,
        Err(e) => VmMemoryResponse::Failed(e),
    }
}

/// Whether the IOMMU answered that it did what was asked.
pub fn iommu_agreed(answer: &Result<VirtioIOMMUResponse, ()>) -> (agreed: bool)
    ensures
        agreed == (*answer == Ok::<VirtioIOMMUResponse, ()>(
            VirtioIOMMUResponse::VfioResponse(VirtioIOMMUVfioResult::Done),
        )),
{
    match answer {
        Ok(VirtioIOMMUResponse::VfioResponse(VirtioIOMMUVfioResult::Done)) => true,
        _ => false,
    }
}

/// Whether the two states know the same regions and allocations.
pub open spec fn same_regions(a: &VmMemoryRegionState, b: &VmMemoryRegionState) -> bool {
    &&& forall|id: VmMemoryRegionId| a.spec_region(id) == b.spec_region(id)
    &&& forall|alloc: Alloc| a.spec_prepared(alloc) == b.spec_prepared(alloc)
}

/// Registers memory inside an allocation that was made ready. `None` where
/// the memory does not go into such an allocation, and nothing was done.
///
/// The region gets the name that [`spec_region_in_allocation`] gives; a
/// source that cannot be mapped so, or a name that no page has, is
/// answered with `EINVAL` before the host is asked for anything.
pub fn handle_prepared_region<H: MemoryHost>(
    vm: &mut H,
    region_state: &mut VmMemoryRegionState,
    source: &VmMemorySource,
    dest: &VmMemoryDestination,
    prot: Protection,
) -> (response: Option<VmMemoryResponse>)
    requires
        old(region_state).well_formed(),
    ensures
        final(region_state).well_formed(),
        final(region_state).spec_slot_map() == old(region_state).spec_slot_map(),
        response is None ==> final(region_state).spec_mapped_regions() == old(
            region_state,
        ).spec_mapped_regions(),
        match *dest {
            VmMemoryDestination::GuestPhysicalAddress(_) => response is None,
            VmMemoryDestination::ExistingAllocation { allocation, offset } => match old(
                region_state,
            ).spec_prepared(allocation) {
                None => response is None,
                Some((pfn, slot)) => match (
                    spec_prepared_mapping(*source),
                    spec_region_in_allocation(pfn, offset),
                ) {
                    (Some((_, _, size)), Some(id)) => match response {
                        Some(VmMemoryResponse::RegisterMemory(named)) => {
                            &&& named == id
                            &&& forall|r: VmMemoryRegionId|
                                final(region_state).spec_region(r) == if r == id {
                                    Some(MappedRegion { slot, part: Some((offset as usize, size)) })
                                } else {
                                    old(region_state).spec_region(r)
                                }
                        },
                        Some(VmMemoryResponse::Failed(_)) => same_regions(
                            final(region_state),
                            old(region_state),
                        ),
                        _ => false,
                    },
                    _ => response == Some(VmMemoryResponse::Failed(Error::new_spec(EINVAL)))
                        && same_regions(final(region_state), old(region_state)),
                },
            },
        },
{
    let (allocation, offset) = match dest {
        VmMemoryDestination::ExistingAllocation { allocation, offset } => (*allocation, *offset),
        VmMemoryDestination::GuestPhysicalAddress(_) => {
            return None;
        },
    };
    let (pfn, slot) = match region_state.prepared(allocation) {
        Some(info) => info,
        None => {
            return None;
        },
    };
    let (descriptor, file_offset, size) = match prepared_mapping(source) {
        Some(mapping) => mapping,
        None => {
            return Some(VmMemoryResponse::Failed(Error::new(EINVAL)));
        },
    };
    let id = match region_in_allocation(pfn, offset) {
        Some(id) => id,
        None => {
            return Some(VmMemoryResponse::Failed(Error::new(EINVAL)));
        },
    };
    if let Err(err) = vm.add_fd_mapping(slot, offset as usize, size, descriptor, file_offset, prot) {
        return Some(VmMemoryResponse::Failed(err));
    }
    region_state.insert_region(id, MappedRegion { slot, part: Some((offset as usize, size)) });
    Some(VmMemoryResponse::RegisterMemory(id))
}

impl VmMemoryDestination {
    /// The address of the guest at which `size` bytes go; `EINVAL` where
    /// they do not lie inside the allocation.
    pub fn allocate<H: MemoryHost>(self, allocator: &mut H, size: u64) -> (address: Result<u64, Error>)
        ensures
            match self {
                VmMemoryDestination::GuestPhysicalAddress(gpa) => address == Ok::<u64, Error>(gpa),
                VmMemoryDestination::ExistingAllocation { .. } => match address {
                    Ok(_) => true,
                    Err(e) => e == Error::new_spec(EINVAL),
                },
            },
    {
        match self {
            VmMemoryDestination::ExistingAllocation { allocation, offset } => {
                match allocator.address_from_pci_offset(allocation, offset, size) {
                    Some(addr) => Ok(addr),
                    None => Err(Error::new(EINVAL)),
                }
            },
            VmMemoryDestination::GuestPhysicalAddress(gpa) => Ok(gpa),
        }
    }
}

/// Whether the two states know the same regions, but for the region `id`.
pub open spec fn same_regions_but(
    a: &VmMemoryRegionState,
    b: &VmMemoryRegionState,
    id: VmMemoryRegionId,
) -> bool {
    &&& forall|r: VmMemoryRegionId| r != id ==> a.spec_region(r) == b.spec_region(r)
    &&& forall|alloc: Alloc| a.spec_prepared(alloc) == b.spec_prepared(alloc)
}

impl VmMemoryRequest {
    /// Carries the request out on the host, and gives the answer that goes
    /// back to whoever asked.
    ///
    /// What the host and the IOMMU answer decides between success and
    /// failure. Whatever they answer: memory is known as registered
    /// exactly where the answer names it, a region that is taken out is
    /// forgotten whether or not the host could let go of it, a region that
    /// is not known is answered with `EINVAL`, and no other request
    /// changes which regions are known.
    ///
    /// An allocation cannot be made ready in a machine with an IOMMU
    /// client.
    pub fn execute<H: MemoryHost, I: IommuTube>(
        self,
        vm: &mut H,
        iommu_client: &mut Option<VmMemoryRequestIommuClient<I>>,
        region_state: &mut VmMemoryRegionState,
    ) -> (response: VmMemoryResponse)
        requires
            old(region_state).well_formed(),
            self is PrepareSharedMemoryRegion ==> *old(iommu_client) is None,
        ensures
            final(region_state).well_formed(),
            *final(iommu_client) is Some == *old(iommu_client) is Some,
            match self {
                VmMemoryRequest::PrepareSharedMemoryRegion { alloc } => {
                    &&& final(region_state).spec_mapped_regions() == old(
                        region_state,
                    ).spec_mapped_regions()
                    &&& forall|a: Alloc|
                        a != alloc ==> final(region_state).spec_prepared(a) == old(
                            region_state,
                        ).spec_prepared(a)
                    &&& match response {
                        VmMemoryResponse::Done => true,
                        VmMemoryResponse::Failed(_) => same_regions(
                            final(region_state),
                            old(region_state),
                        ),
                        VmMemoryResponse::RegisterMemory(_) => false,
                    }
                },
                VmMemoryRequest::RegisterMemory { .. } => match response {
                    VmMemoryResponse::RegisterMemory(id) => {
                        &&& final(region_state).spec_region(id) is Some
                        &&& same_regions_but(final(region_state), old(region_state), id)
                    },
                    VmMemoryResponse::Failed(_) => same_regions(
                        final(region_state),
                        old(region_state),
                    ),
                    VmMemoryResponse::Done => false,
                },
                VmMemoryRequest::UnregisterMemory(id) => {
                    &&& !(response is RegisterMemory)
                    &&& old(region_state).spec_region(id) is None ==> response
                        == VmMemoryResponse::Failed(Error::new_spec(EINVAL))
                    &&& final(region_state).spec_region(id) is None
                    &&& same_regions_but(final(region_state), old(region_state), id)
                },
                _ => {
                    &&& !(response is RegisterMemory)
                    &&& same_regions(final(region_state), old(region_state))
                },
            },
    {
        match self {
            VmMemoryRequest::PrepareSharedMemoryRegion { alloc } => {
                if !vm.should_prepare_memory_region() {
                    return VmMemoryResponse::Done;
                }
                match vm.prepare_shared_memory_region(alloc) {
                    Ok(info) => {
                        region_state.insert_prepared(alloc, info);
                        VmMemoryResponse::Done
                    },
                    Err(e) => VmMemoryResponse::Failed(e),
                }
            },
            VmMemoryRequest::RegisterMemory { source, dest, prot } => {
                if let Some(response) = handle_prepared_region(vm, region_state, &source, &dest, prot) {
                    return response;
                }
                let (mapping, size, descriptor) = match vm.map(source, prot) {
                    Ok(mapped) => mapped,
                    Err(e) => {
                        return VmMemoryResponse::Failed(e);
                    },
                };
                let guest_address = match dest.allocate(vm, size) {
                    Ok(address) => address,
                    Err(e) => {
                        return VmMemoryResponse::Failed(e);
                    },
                };
                let read_only = prot.read && !prot.write;
                let slot = match vm.add_memory_region(guest_address, mapping, read_only, false) {
                    Ok(slot) => slot,
                    Err(e) => {
                        return VmMemoryResponse::Failed(e);
                    },
                };
                let id = VmMemoryRegionId::from_guest_address(guest_address);
                if let Some(dma_buf) = descriptor {
                    if let Some(mut client) = iommu_client.take() {
                        let request = VirtioIOMMURequest::VfioCommand(
                            VirtioIOMMUVfioCommand::VfioDmabufMap {
                                mem_slot: slot,
                                gfn: id.0,
                                size,
                                dma_buf,
                            },
                        );
                        let answer = virtio_iommu_request(&client.tube, &request);
                        if !iommu_agreed(&answer) {
                            *iommu_client = Some(client);
                            let _ = vm.remove_memory_region(slot);
                            return VmMemoryResponse::Failed(Error::new(EINVAL));
                        }
                        client.insert(slot);
                        *iommu_client = Some(client);
                    }
                }
                region_state.insert_region(id, MappedRegion { slot, part: None });
                VmMemoryResponse::RegisterMemory(id)
            },
            VmMemoryRequest::UnregisterMemory(id) => match region_state.remove_region(id) {
                Some(MappedRegion { slot, part: None }) => match vm.remove_memory_region(slot) {
                    Ok(_) => {
                        if let Some(mut client) = iommu_client.take() {
                            let told = client.remove(slot);
                            let response = if told {
                                let request = VirtioIOMMURequest::VfioCommand(
                                    VirtioIOMMUVfioCommand::VfioDmabufUnmap(slot),
                                );
                                let answer = virtio_iommu_request(&client.tube, &request);
                                if iommu_agreed(&answer) {
                                    VmMemoryResponse::Done
                                } else {
                                    VmMemoryResponse::Failed(Error::new(EINVAL))
                                }
                            } else {
                                VmMemoryResponse::Done
                            };
                            *iommu_client = Some(client);
                            response
                        } else {
                            VmMemoryResponse::Done
                        }
                    },
                    Err(e) => VmMemoryResponse::Failed(e),
                },
                Some(MappedRegion { slot, part: Some((offset, size)) }) => response_of(
                    vm.remove_mapping(slot, offset, size),
                ),
                None => VmMemoryResponse::Failed(Error::new(EINVAL)),
            },
            VmMemoryRequest::DynamicallyFreeMemoryRange { guest_address, size } => response_of(
                vm.handle_balloon_event(BalloonEvent::Inflate { guest_address, size }),
            ),
            VmMemoryRequest::DynamicallyReclaimMemoryRange { guest_address, size } => response_of(
                vm.handle_balloon_event(BalloonEvent::Deflate { guest_address, size }),
            ),
            VmMemoryRequest::BalloonTargetReached { size } => response_of(
                vm.handle_balloon_event(BalloonEvent::BalloonTargetReached(size)),
            ),
            VmMemoryRequest::IoEventWithAlloc { evt, allocation, offset, datamatch, register } => {
                let addr = match vm.address_from_pci_offset(allocation, offset, datamatch.len()) {
                    Some(addr) => addr,
                    None => {
                        return VmMemoryResponse::Failed(Error::new(EINVAL));
                    },
                };
                if register {
                    response_of(vm.register_ioevent(evt, addr, datamatch))
                } else {
                    response_of(vm.unregister_ioevent(evt, addr, datamatch))
                }
            },
            VmMemoryRequest::IoEventRaw(request) => {
                if request.register {
                    response_of(vm.register_ioevent(request.event, request.addr, request.datamatch))
                } else {
                    response_of(vm.unregister_ioevent(request.event, request.addr, request.datamatch))
                }
            },
        }
    }
}

} // verus!
