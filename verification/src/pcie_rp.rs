//! The root port of PCI Express: it is told which devices are plugged in
//! below it, and tells the guest when one comes or goes.
//!
//! The port itself, with its registers and interrupts, is reached through
//! [`PciePort`]. What is kept here is the list of devices below the port and
//! the round of removals that is under way.

use vstd::prelude::*;
use crate::bus::PciAddress;
use crate::vm_control::GpeNotify;
use crate::vm_control::PmeNotify;

verus! {

/// The device number of the root port.
pub const PCIE_RP_DID: u16 = 0x3420;

/// Slot status: the attention button was pressed.
pub const PCIE_SLTSTA_ABP: u16 = 0x0001;

/// Slot status: a device is present.
pub const PCIE_SLTSTA_PDS: u16 = 0x0040;

/// What kind of port a PCI Express port is.
#[derive(Clone, Copy, Debug, PartialEq, Eq, Structural)]
pub enum PcieDevicePortType {
    RootPort,
    UpstreamPort,
    DownstreamPort,
}

/// What a device that can be plugged in is known by.
#[derive(Clone, Copy, Debug, PartialEq, Eq, Structural)]
pub enum HotPlugKey {
    HostUpstreamPort { host_addr: PciAddress },
    HostDownstreamPort { host_addr: PciAddress },
    HostVfio { host_addr: PciAddress },
    GuestDevice { guest_addr: PciAddress },
}

/// A port of PCI Express, as the rest of the machine offers it. Nothing is
/// promised of what it does.
pub trait PciePort: Sized {
    /// A port of the host that a port of the guest stands for.
    type Host;

    /// A new port.
    fn new(
        device_id: u16,
        debug_label: String,
        primary_bus_num: u8,
        secondary_bus_num: u8,
        slot_implemented: bool,
        port_type: PcieDevicePortType,
    ) -> Self;

    /// A new port that stands for `pcie_host`.
    fn new_from_host(
        pcie_host: Self::Host,
        slot_implemented: bool,
        port_type: PcieDevicePortType,
    ) -> Result<Self, String>;

    /// Whether the guest has asked for the devices that were removed.
    fn removed_downstream_valid(&self) -> bool;

    /// Whether devices can be plugged into the port.
    fn hotplug_implemented(&self) -> bool;

    /// Sets bits of the slot status.
    fn set_slot_status(&mut self, flag: u16);

    /// Raises the interrupt that tells the guest of a change.
    fn trigger_hp_or_pme_interrupt(&mut self);

    /// Whether the port stands for a port of the host.
    fn is_host(&self) -> bool;

    /// Unplugs the device from the port of the host.
    fn hot_unplug(&mut self);

    /// The place of the port.
    fn get_address(&self) -> Option<PciAddress>;

    /// The number of the bus below the port.
    fn get_secondary_bus_number(&self) -> Option<u8>;

    /// The bus on which the device at `host_addr` of the host would lie in
    /// the guest, if the port takes it.
    fn is_match(&self, host_addr: PciAddress) -> Option<u8>;

    /// Makes the port of the host ready for a device.
    fn prepare_hotplug(&mut self);

    /// Whether the guest is to be woken.
    fn should_trigger_pme(&mut self) -> bool;

    /// Wakes the guest in the name of `requester_id`.
    fn inject_pme(&mut self, requester_id: u16);
}

/// Whether `a` comes before `b`: by bus, then by device, then by function.
pub open spec fn spec_before(a: PciAddress, b: PciAddress) -> bool {
    a.bus < b.bus || (a.bus == b.bus && (a.dev < b.dev || (a.dev == b.dev && a.func < b.func)))
}

/// Whether `a` comes before `b`.
pub fn before(a: PciAddress, b: PciAddress) -> (r: bool)
    ensures
        r == spec_before(a, b),
{
    a.bus < b.bus || (a.bus == b.bus && (a.dev < b.dev || (a.dev == b.dev && a.func < b.func)))
}

/// The number by which the function at `addr` wakes the guest.
pub open spec fn spec_pme_requester_id(addr: PciAddress) -> u16 {
    ((addr.bus as u16) << 8) | ((addr.dev as u16) << 3) | (addr.func as u16)
}

/// The number by which the function at `addr` wakes the guest.
pub fn pme_requester_id(addr: PciAddress) -> (id: u16)
    ensures
        id == spec_pme_requester_id(addr),
{
    ((addr.bus as u16) << 8) | ((addr.dev as u16) << 3) | (addr.func as u16)
}

/// The devices below a port: the place of each in the guest and what it is
/// known by, in the order of the places, each place once.
#[derive(Debug)]
pub struct DownstreamDevices {
    entries: Vec<(PciAddress, HotPlugKey)>,
}

/// The places of `entries`.
pub open spec fn places(entries: Seq<(PciAddress, HotPlugKey)>) -> Seq<PciAddress> {
    Seq::new(entries.len(), |i: int| entries[i].0)
}

/// Whether `entries` are in the order of their places, each place once.
pub open spec fn in_order(entries: Seq<(PciAddress, HotPlugKey)>) -> bool {
    forall|i: int, j: int| 0 <= i < j < entries.len() ==> spec_before(entries[i].0, entries[j].0)
}

impl DownstreamDevices {
    /// The devices, in the order of their places.
    pub closed spec fn spec_entries(&self) -> Seq<(PciAddress, HotPlugKey)> {
        self.entries@
    }

    /// The devices are in the order of their places, each place once.
    pub closed spec fn well_formed(&self) -> bool {
        in_order(self.entries@)
    }

    /// What the device at `addr` is known by, if there is one.
    pub open spec fn spec_get(&self, addr: PciAddress) -> Option<HotPlugKey> {
        if exists|i: int| 0 <= i < self.spec_entries().len() && self.spec_entries()[i].0 == addr {
            let i = choose|i: int|
                0 <= i < self.spec_entries().len() && self.spec_entries()[i].0 == addr;
            Some(self.spec_entries()[i].1)
        } else {
            None
        }
    }

    /// No devices.
    pub fn new() -> (devices: Self)
        ensures
            devices.well_formed(),
            devices.spec_entries().len() == 0,
    {
        DownstreamDevices { entries: Vec::new() }
    }

    /// Whether there is no device.
    pub fn is_empty(&self) -> (b: bool)
        ensures
            b == (self.spec_entries().len() == 0),
    {
        self.entries.len() == 0
    }

    /// Forgets all devices.
    pub fn clear(&mut self)
        ensures
            final(self).well_formed(),
            final(self).spec_entries().len() == 0,
    {
        self.entries = Vec::new();
    }

    /// Where `addr` stands or would stand: the number of places before it.
    fn lower_bound(&self, addr: PciAddress) -> (p: usize)
        requires
            self.well_formed(),
        ensures
            p <= self.spec_entries().len(),
            forall|i: int| 0 <= i < p ==> spec_before(self.spec_entries()[i].0, addr),
            forall|i: int|
                p <= i < self.spec_entries().len() ==> !spec_before(self.spec_entries()[i].0, addr),
    {
        let mut p: usize = 0;
        while p < self.entries.len() && before(self.entries[p].0, addr)
            invariant
                p <= self.entries@.len(),
                forall|i: int| 0 <= i < p ==> spec_before(self.entries@[i].0, addr),
            decreases self.entries@.len() - p,
        {
            p += 1;
        }
        proof {
            if p < self.entries@.len() {
                let at = self.entries@[p as int].0;
                assert forall|i: int| p <= i < self.entries@.len() implies !spec_before(
                    self.entries@[i].0,
                    addr,
                ) by {
                    if i > p {
                        assert(spec_before(at, self.entries@[i].0));
                    }
                }
            }
        }
        p
    }

    /// Whether a device stands at `addr`.
    pub fn contains(&self, addr: PciAddress) -> (b: bool)
        requires
            self.well_formed(),
        ensures
            b == exists|i: int|
                0 <= i < self.spec_entries().len() && self.spec_entries()[i].0 == addr,
    {
        let p = self.lower_bound(addr);
        if p < self.entries.len() && self.entries[p].0 == addr {
            true
        } else {
            proof {
                assert forall|i: int| 0 <= i < self.entries@.len() implies self.entries@[i].0
                    != addr by {
                    if i < p {
                        assert(spec_before(self.entries@[i].0, addr));
                    } else if i > p {
                        assert(spec_before(self.entries@[p as int].0, self.entries@[i].0));
                        assert(!spec_before(self.entries@[p as int].0, addr));
                    }
                }
            }
            false
        }
    }

    /// Puts the device known by `key` at `addr`, in place of the one that
    /// stood there, if one did. Every other device stays.
    pub fn insert(&mut self, addr: PciAddress, key: HotPlugKey)
        requires
            old(self).well_formed(),
        ensures
            final(self).well_formed(),
            forall|e: (PciAddress, HotPlugKey)|
                final(self).spec_entries().contains(e) <==> (e == (addr, key) || (old(self).spec_entries().contains(e) && e.0 != addr)),
    {
        let p = self.lower_bound(addr);
        let ghost before = self.entries@;
        if p < self.entries.len() && self.entries[p].0 == addr {
            self.entries.set(p, (addr, key));
            proof {
                let after = self.entries@;
                assert forall|i: int, j: int| 0 <= i < j < after.len() implies spec_before(
                    after[i].0,
                    after[j].0,
                ) by {
                    assert(after[i].0 == before[i].0 && after[j].0 == before[j].0);
                }
                assert forall|e: (PciAddress, HotPlugKey)| after.contains(e) <==> (e == (addr, key)
                    || (before.contains(e) && e.0 != addr)) by {
                    if after.contains(e) {
                        let i = choose|i: int| 0 <= i < after.len() && after[i] == e;
                        if i != p {
                            assert(before[i] == e);
                            if i < p {
                                assert(spec_before(before[i].0, before[p as int].0));
                            } else {
                                assert(spec_before(before[p as int].0, before[i].0));
                            }
                        }
                    }
                    if e == (addr, key) {
                        assert(after[p as int] == e);
                    }
                    if before.contains(e) && e.0 != addr {
                        let i = choose|i: int| 0 <= i < before.len() && before[i] == e;
                        assert(after[i] == e);
                    }
                }
            }
        } else {
            self.entries.insert(p, (addr, key));
            proof {
                let after = self.entries@;
                assert forall|i: int| 0 <= i < before.len() implies before[i].0 != addr by {
                    if i < p {
                        assert(spec_before(before[i].0, addr));
                    } else if i > p {
                        assert(spec_before(before[p as int].0, before[i].0));
                        assert(!spec_before(before[p as int].0, addr));
                    }
                }
                assert forall|i: int, j: int| 0 <= i < j < after.len() implies spec_before(
                    after[i].0,
                    after[j].0,
                ) by {
                    if j < p {
                        assert(after[i] == before[i] && after[j] == before[j]);
                    } else if j == p {
                        assert(after[i] == before[i]);
                    } else if i < p {
                        assert(after[i] == before[i] && after[j] == before[j - 1]);
                    } else if i == p {
                        assert(after[j] == before[j - 1]);
                        assert(!spec_before(before[j - 1].0, addr));
                        assert(before[j - 1].0 != addr);
                    } else {
                        assert(after[i] == before[i - 1] && after[j] == before[j - 1]);
                    }
                }
                assert forall|e: (PciAddress, HotPlugKey)| after.contains(e) <==> (e == (addr, key)
                    || (before.contains(e) && e.0 != addr)) by {
                    if after.contains(e) {
                        let i = choose|i: int| 0 <= i < after.len() && after[i] == e;
                        if i < p {
                            assert(before[i] == e);
                        } else if i > p {
                            assert(before[i - 1] == e);
                        }
                    }
                    if e == (addr, key) {
                        assert(after[p as int] == e);
                    }
                    if before.contains(e) && e.0 != addr {
                        let i = choose|i: int| 0 <= i < before.len() && before[i] == e;
                        if i < p {
                            assert(after[i] == e);
                        } else {
                            assert(after[i + 1] == e);
                        }
                    }
                }
            }
        }
    }

    /// Takes the device at `addr` out, and says what it was known by; or
    /// leaves everything as it is where no device stands there. Every other
    /// device stays.
    pub fn remove(&mut self, addr: PciAddress) -> (removed: Option<HotPlugKey>)
        requires
            old(self).well_formed(),
        ensures
            final(self).well_formed(),
            forall|e: (PciAddress, HotPlugKey)|
                final(self).spec_entries().contains(e) <==> (old(self).spec_entries().contains(e)
                    && e.0 != addr),
            match removed {
                Some(key) => old(self).spec_entries().contains((addr, key)),
                None => final(self).spec_entries() == old(self).spec_entries(),
            },
    {
        let p = self.lower_bound(addr);
        let ghost before = self.entries@;
        if p < self.entries.len() && self.entries[p].0 == addr {
            let entry = self.entries.remove(p);
            proof {
                let after = self.entries@;
                assert forall|i: int, j: int| 0 <= i < j < after.len() implies spec_before(
                    after[i].0,
                    after[j].0,
                ) by {
                    let bi = if i < p { i } else { i + 1 };
                    let bj = if j < p { j } else { j + 1 };
                    assert(after[i] == before[bi] && after[j] == before[bj]);
                }
                assert(before[p as int] == (addr, entry.1));
                assert forall|e: (PciAddress, HotPlugKey)| after.contains(e) <==> (before.contains(e)
                    && e.0 != addr) by {
                    if after.contains(e) {
                        let i = choose|i: int| 0 <= i < after.len() && after[i] == e;
                        let bi = if i < p { i } else { i + 1 };
                        assert(before[bi] == e);
                        if bi < p {
                            assert(spec_before(before[bi].0, before[p as int].0));
                        } else {
                            assert(spec_before(before[p as int].0, before[bi].0));
                        }
                    }
                    if before.contains(e) && e.0 != addr {
                        let i = choose|i: int| 0 <= i < before.len() && before[i] == e;
                        if i < p {
                            assert(after[i] == e);
                        } else {
                            assert(after[i - 1] == e);
                        }
                    }
                }
            }
            Some(entry.1)
        } else {
            proof {
                assert forall|i: int| 0 <= i < before.len() implies before[i].0 != addr by {
                    if i < p {
                        assert(spec_before(before[i].0, addr));
                    } else if i > p {
                        assert(spec_before(before[p as int].0, before[i].0));
                        assert(!spec_before(before[p as int].0, addr));
                    }
                }
            }
            None
        }
    }

    /// The place of the first device, in the order of the places, that is
    /// known by `key`.
    pub fn find_key(&self, key: HotPlugKey) -> (found: Option<PciAddress>)
        ensures
            match found {
                Some(addr) => exists|i: int|
                    0 <= i < self.spec_entries().len() && #[trigger] self.spec_entries()[i] == (
                        addr,
                        key,
                    ) && forall|j: int| 0 <= j < i ==> self.spec_entries()[j].1 != key,
                None => forall|i: int|
                    0 <= i < self.spec_entries().len() ==> self.spec_entries()[i].1 != key,
            },
    {
        let mut i: usize = 0;
        while i < self.entries.len()
            invariant
                i <= self.entries@.len(),
                forall|j: int| 0 <= j < i ==> self.entries@[j].1 != key,
            decreases self.entries@.len() - i,
        {
            if self.entries[i].1 == key {
                assert(self.entries@[i as int] == (self.entries@[i as int].0, key));
                return Some(self.entries[i].0);
            }
            i += 1;
        }
        None
    }

    /// The places of the devices, in order.
    pub fn addresses(&self) -> (out: Vec<PciAddress>)
        ensures
            out@ == places(self.spec_entries()),
    {
        let mut out: Vec<PciAddress> = Vec::new();
        let mut i: usize = 0;
        while i < self.entries.len()
            invariant
                i <= self.entries@.len(),
                out@ == places(self.entries@.subrange(0, i as int)),
            decreases self.entries@.len() - i,
        {
            out.push(self.entries[i].0);
            assert(out@ =~= places(self.entries@.subrange(0, i + 1)));
            i += 1;
        }
        assert(self.entries@.subrange(0, i as int) =~= self.entries@);
        out
    }
}

/// The text of an error with what was being done in front of it.
pub open spec fn spec_with_context(context: Seq<char>, cause: Seq<char>) -> Seq<char> {
    context + ": "@ + cause
}

/// A root port of PCI Express.
pub struct PcieRootPort<P> {
    pcie_port: P,
    downstream_devices: DownstreamDevices,
    hotplug_out_begin: bool,
    removed_downstream: Vec<PciAddress>,
}

impl<P: PciePort> PcieRootPort<P> {
    /// The devices below the port.
    pub closed spec fn spec_downstream(&self) -> Seq<(PciAddress, HotPlugKey)> {
        self.downstream_devices.spec_entries()
    }

    /// Whether a round of removals is under way.
    pub closed spec fn spec_hotplug_out_begin(&self) -> bool {
        self.hotplug_out_begin
    }

    /// The devices that left in the last round of removals.
    pub closed spec fn spec_removed_downstream(&self) -> Seq<PciAddress> {
        self.removed_downstream@
    }

    /// The devices below the port are in the order of their places, each
    /// place once.
    pub closed spec fn well_formed(&self) -> bool {
        self.downstream_devices.well_formed()
    }

    /// Whether nothing has been plugged in or out yet.
    pub open spec fn is_fresh(&self) -> bool {
        &&& self.well_formed()
        &&& self.spec_downstream().len() == 0
        &&& !self.spec_hotplug_out_begin()
        &&& self.spec_removed_downstream().len() == 0
    }

    /// Whether the port keeps the same devices and the same round as
    /// `other`.
    pub open spec fn same_devices(&self, other: &Self) -> bool {
        &&& self.spec_downstream() == other.spec_downstream()
        &&& self.spec_hotplug_out_begin() == other.spec_hotplug_out_begin()
        &&& self.spec_removed_downstream() == other.spec_removed_downstream()
    }

    /// A new root port with the bus `secondary_bus_num` below it.
    pub fn new(secondary_bus_num: u8, slot_implemented: bool) -> (port: Self)
        ensures
            port.is_fresh(),
    {
        PcieRootPort {
            pcie_port: P::new(
                PCIE_RP_DID,
                "PcieRootPort".to_owned(),
                0,
                secondary_bus_num,
                slot_implemented,
                PcieDevicePortType::RootPort,
            ),
            downstream_devices: DownstreamDevices::new(),
            hotplug_out_begin: false,
            removed_downstream: Vec::new(),
        }
    }

    /// A new root port that stands for the root port `pcie_host` of the
    /// host.
    pub fn new_from_host(pcie_host: P::Host, slot_implemented: bool) -> (r: Result<Self, String>)
        ensures
            match r {
                Ok(port) => port.is_fresh(),
                Err(e) => exists|cause: Seq<char>|
                    e@ == #[trigger] spec_with_context("PciePort::new_from_host failed"@, cause),
            },
    {
        match P::new_from_host(pcie_host, slot_implemented, PcieDevicePortType::RootPort) {
            Ok(pcie_port) => Ok(
                PcieRootPort {
                    pcie_port,
                    downstream_devices: DownstreamDevices::new(),
                    hotplug_out_begin: false,
                    removed_downstream: Vec::new(),
                },
            ),
            Err(cause) => {
                let mut e = "PciePort::new_from_host failed".to_owned();
                e.push_str(": ");
                e.push_str(cause.as_str());
                assert(e@ =~= spec_with_context("PciePort::new_from_host failed"@, cause@));
                Err(e)
            },
        }
    }

    /// The devices that left in the last round of removals where the
    /// guest has asked for them, which `asked` says; none where it has not.
    pub fn removed_devices(&self, asked: bool) -> (removed: Vec<PciAddress>)
        ensures
            removed@ == if asked {
                self.spec_removed_downstream()
            } else {
                Seq::<PciAddress>::empty()
            },
    {
        let mut removed: Vec<PciAddress> = Vec::new();
        if asked {
            let mut i: usize = 0;
            while i < self.removed_downstream.len()
                invariant
                    i <= self.removed_downstream@.len(),
                    removed@ == self.removed_downstream@.subrange(0, i as int),
                decreases self.removed_downstream@.len() - i,
            {
                removed.push(self.removed_downstream[i]);
                assert(removed@ =~= self.removed_downstream@.subrange(0, i + 1));
                i += 1;
            }
            assert(self.removed_downstream@.subrange(0, i as int) =~= self.removed_downstream@);
        }
        removed
    }

    /// The devices that left in the last round of removals, once the guest
    /// has asked for them; none before that. The port says whether the
    /// guest has asked.
    pub fn get_removed_devices_impl(&self) -> (removed: Vec<PciAddress>)
        ensures
            removed@ == self.spec_removed_downstream() || removed@.len() == 0,
    {
        self.removed_devices(self.pcie_port.removed_downstream_valid())
    }

    /// Whether devices can be plugged into the port.
    pub fn hotplug_implemented_impl(&self) -> bool {
        self.pcie_port.hotplug_implemented()
    }

    /// Whether the port itself was plugged in: a root port never is.
    pub fn hotplugged_impl(&self) -> (b: bool)
        ensures
            !b,
    {
        false
    }

    /// Tells the guest that the device at `addr` was plugged in. Nothing
    /// happens where the port does not know of a device at `addr`.
    pub fn hot_plug(&mut self, addr: PciAddress)
        requires
            old(self).well_formed(),
        ensures
            final(self).well_formed(),
            final(self).same_devices(old(self)),
    {
        if !self.downstream_devices.contains(addr) {
            return ;
        }
        self.pcie_port.set_slot_status(PCIE_SLTSTA_PDS | PCIE_SLTSTA_ABP);
        self.pcie_port.trigger_hp_or_pme_interrupt();
    }

    /// Takes the device at `addr` out. Nothing happens where the port does
    /// not know of a device at `addr`.
    ///
    /// The first removal of a round tells the guest, and with this device
    /// every other device below the port counts as removed: they all go in
    /// the same interrupt. The round lasts until the next device is plugged
    /// in.
    pub fn hot_unplug(&mut self, addr: PciAddress)
        requires
            old(self).well_formed(),
        ensures
            final(self).well_formed(),
            forall|e: (PciAddress, HotPlugKey)|
                final(self).spec_downstream().contains(e) <==> (old(self).spec_downstream().contains(
                    e,
                ) && e.0 != addr),
            if exists|key: HotPlugKey| old(self).spec_downstream().contains((addr, key)) {
                &&& final(self).spec_hotplug_out_begin()
                &&& final(self).spec_removed_downstream() == if old(self).spec_hotplug_out_begin() {
                    old(self).spec_removed_downstream()
                } else {
                    seq![addr] + places(final(self).spec_downstream())
                }
            } else {
                final(self).same_devices(old(self))
            },
    {
        let ghost before = self.downstream_devices.spec_entries();
        let removed = self.downstream_devices.remove(addr);
        if removed.is_none() {
            proof {
                assert forall|key: HotPlugKey| !before.contains((addr, key)) by {
                    if before.contains((addr, key)) {
                        assert(self.downstream_devices.spec_entries().contains((addr, key)));
                    }
                }
            }
            return ;
        }
        if !self.hotplug_out_begin {
            let mut gone: Vec<PciAddress> = Vec::new();
            gone.push(addr);
            // All the devices that remain go in the same interrupt.
            let mut rest = self.downstream_devices.addresses();
            let ghost rest_before = rest@;
            gone.append(&mut rest);
            assert(gone@ =~= seq![addr] + rest_before);
            self.removed_downstream = gone;
            self.pcie_port.set_slot_status(PCIE_SLTSTA_ABP);
            self.pcie_port.trigger_hp_or_pme_interrupt();
            if self.pcie_port.is_host() {
                self.pcie_port.hot_unplug()
            }
        }
        self.hotplug_out_begin = true;
    }

    /// The place of the port.
    pub fn get_address(&self) -> Option<PciAddress> {
        self.pcie_port.get_address()
    }

    /// The number of the bus below the port.
    pub fn get_secondary_bus_number(&self) -> Option<u8> {
        self.pcie_port.get_secondary_bus_number()
    }

    /// The bus on which the device at `host_addr` of the host would lie in
    /// the guest, if the port takes it.
    pub fn is_match(&self, host_addr: PciAddress) -> Option<u8> {
        self.pcie_port.is_match(host_addr)
    }

    /// Whether `after` is `before` with the device known by `hotplug_key`
    /// due at `guest_addr`: the device stands at its place, in the stead of
    /// what stood there. A round of removals has ended, and what was left
    /// of it is forgotten.
    pub open spec fn with_hotplug_device(
        before: &Self,
        after: &Self,
        hotplug_key: HotPlugKey,
        guest_addr: PciAddress,
    ) -> bool {
        &&& !after.spec_hotplug_out_begin()
        &&& forall|e: (PciAddress, HotPlugKey)|
            after.spec_downstream().contains(e) <==> (e == (guest_addr, hotplug_key) || (
            !before.spec_hotplug_out_begin() && before.spec_downstream().contains(e) && e.0
                != guest_addr))
        &&& after.spec_removed_downstream() == if before.spec_hotplug_out_begin() {
            Seq::<PciAddress>::empty()
        } else {
            before.spec_removed_downstream()
        }
    }

    /// Takes note that the device known by `hotplug_key` will be plugged
    /// in at `guest_addr`, on a port into which devices can be plugged.
    pub fn expect_hotplug_device(&mut self, hotplug_key: HotPlugKey, guest_addr: PciAddress)
        requires
            old(self).well_formed(),
        ensures
            final(self).well_formed(),
            Self::with_hotplug_device(old(self), final(self), hotplug_key, guest_addr),
    {
        // The next round of plugging in begins.
        if self.hotplug_out_begin {
            self.hotplug_out_begin = false;
            self.downstream_devices.clear();
            self.removed_downstream = Vec::new();
        }
        let ghost cleared = self.downstream_devices.spec_entries();
        self.downstream_devices.insert(guest_addr, hotplug_key);
        proof {
            if old(self).spec_hotplug_out_begin() {
                assert forall|e: (PciAddress, HotPlugKey)| !cleared.contains(e) by {}
            }
        }
    }

    /// Takes note that the device known by `hotplug_key` will be plugged
    /// in at `guest_addr`. Nothing happens where no device can be plugged
    /// into the port, which the port says. A round of removals ends here:
    /// what was left of it is forgotten.
    pub fn add_hotplug_device(&mut self, hotplug_key: HotPlugKey, guest_addr: PciAddress)
        requires
            old(self).well_formed(),
        ensures
            final(self).well_formed(),
            final(self).same_devices(old(self)) || Self::with_hotplug_device(
                old(self),
                final(self),
                hotplug_key,
                guest_addr,
            ),
    {
        if !self.pcie_port.hotplug_implemented() {
            return ;
        }
        self.expect_hotplug_device(hotplug_key, guest_addr);
    }

    /// The place in the guest of the device known by `hotplug_key`: the
    /// first such place, in the order of the places.
    pub fn get_hotplug_device(&self, hotplug_key: HotPlugKey) -> (found: Option<PciAddress>)
        ensures
            match found {
                Some(addr) => exists|i: int|
                    0 <= i < self.spec_downstream().len() && #[trigger] self.spec_downstream()[i]
                        == (addr, hotplug_key) && forall|j: int|
                        0 <= j < i ==> self.spec_downstream()[j].1 != hotplug_key,
                None => forall|i: int|
                    0 <= i < self.spec_downstream().len() ==> self.spec_downstream()[i].1
                        != hotplug_key,
            },
    {
        self.downstream_devices.find_key(hotplug_key)
    }

    /// Whether no device is below the port.
    pub fn is_empty(&self) -> (b: bool)
        ensures
            b == (self.spec_downstream().len() == 0),
    {
        self.downstream_devices.is_empty()
    }

    /// What the port itself is known by: a root port is not plugged in, so
    /// by nothing.
    pub fn get_hotplug_key(&self) -> (key: Option<HotPlugKey>)
        ensures
            key is None,
    {
        None
    }
}

impl<P: PciePort> GpeNotify for PcieRootPort<P> {
    /// The general-purpose event of the port fired: where devices can be
    /// plugged in, the port of the host is made ready and the guest is woken
    /// if need be.
    fn notify(&mut self)
        ensures
            final(self).same_devices(old(self)),
            old(self).well_formed() ==> final(self).well_formed(),
    {
        if !self.pcie_port.hotplug_implemented() {
            return ;
        }
        if self.pcie_port.is_host() {
            self.pcie_port.prepare_hotplug();
        }
        if self.pcie_port.should_trigger_pme() {
            if let Some(addr) = self.pcie_port.get_address() {
                self.pcie_port.inject_pme(pme_requester_id(addr));
            }
        }
    }
}

impl<P: PciePort> PmeNotify for PcieRootPort<P> {
    /// A function below the port asks to wake the guest.
    fn notify(&mut self, requester_id: u16)
        ensures
            final(self).same_devices(old(self)),
            old(self).well_formed() ==> final(self).well_formed(),
    {
        self.pcie_port.inject_pme(requester_id);
    }
}

} // verus!
