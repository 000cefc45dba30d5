use std::cell::RefCell;

use vmm_devices::bus::RawDescriptor;
use vmm_devices::errno::Error;
use vmm_devices::errno::EINVAL;
use vmm_devices::errno::EIO;
use vmm_devices::vm_control::memory::region_in_allocation;
use vmm_devices::vm_control::memory::Alloc;
use vmm_devices::vm_control::memory::BalloonEvent;
use vmm_devices::vm_control::memory::Datamatch;
use vmm_devices::vm_control::memory::IoEventUpdateRequest;
use vmm_devices::vm_control::memory::MappedRegion;
use vmm_devices::vm_control::memory::MemoryHost;
use vmm_devices::vm_control::memory::Protection;
use vmm_devices::vm_control::memory::VmMemoryDestination;
use vmm_devices::vm_control::memory::VmMemoryRegionState;
use vmm_devices::vm_control::memory::VmMemoryRequest;
use vmm_devices::vm_control::memory::VmMemoryRequestIommuClient;
use vmm_devices::vm_control::virtio_iommu_request;
use vmm_devices::vm_control::virtio_iommu_request_async;
use vmm_devices::vm_control::IommuTube;
use vmm_devices::vm_control::MemSlot;
use vmm_devices::vm_control::VirtioIOMMURequest;
use vmm_devices::vm_control::VirtioIOMMUResponse;
use vmm_devices::vm_control::VirtioIOMMUVfioCommand;
use vmm_devices::vm_control::VirtioIOMMUVfioResult;
use vmm_devices::vm_control::VmMemoryRegionId;
use vmm_devices::vm_control::VmMemoryResponse;
use vmm_devices::vm_control::VmMemorySource;

/// A host that writes down what it was asked for.
struct Host {
    prepares: bool,
    next_slot: MemSlot,
    fail_add: bool,
    log: Vec<String>,
}

impl Host {
    fn new() -> Host {
        Host { prepares: true, next_slot: 7, fail_add: false, log: Vec::new() }
    }
}

const BAR: Alloc = Alloc::PciBar { bus: 0, dev: 3, func: 0, bar: 2 };
const BAR_BASE: u64 = 0x4000_0000;
const BAR_SIZE: u64 = 0x10_0000;

impl MemoryHost for Host {
    type Mapping = u64;

    fn should_prepare_memory_region(&self) -> bool {
        self.prepares
    }

    fn prepare_shared_memory_region(&mut self, alloc: Alloc) -> Result<(u64, MemSlot), Error> {
        self.log.push(format!("prepare {:?}", alloc));
        if alloc == BAR {
            Ok((BAR_BASE >> 12, 3))
        } else {
            Err(Error::new(EINVAL))
        }
    }

    fn add_fd_mapping(
        &mut self,
        slot: MemSlot,
        offset: usize,
        size: usize,
        descriptor: RawDescriptor,
        file_offset: u64,
        prot: Protection,
    ) -> Result<(), Error> {
        self.log.push(format!(
            "add_fd_mapping {} {:#x} {:#x} {} {:#x} {}",
            slot, offset, size, descriptor, file_offset, prot.write
        ));
        if self.fail_add {
            Err(Error::new(EIO))
        } else {
            Ok(())
        }
    }

    fn remove_mapping(&mut self, slot: MemSlot, offset: usize, size: usize) -> Result<(), Error> {
        self.log.push(format!("remove_mapping {} {:#x} {:#x}", slot, offset, size));
        Ok(())
    }

    fn map(
        &mut self,
        source: VmMemorySource,
        _prot: Protection,
    ) -> Result<(u64, u64, Option<RawDescriptor>), Error> {
        match source {
            VmMemorySource::SharedMemory { descriptor, size } => Ok((1, size, Some(descriptor))),
            VmMemorySource::Descriptor { descriptor, size, .. } => Ok((2, size, Some(descriptor))),
            VmMemorySource::Vulkan { .. } => Err(Error::new(EINVAL)),
            VmMemorySource::ExternalMapping { size, .. } => Ok((4, size, None)),
        }
    }

    fn address_from_pci_offset(&mut self, allocation: Alloc, offset: u64, len: u64) -> Option<u64> {
        if allocation == BAR && offset + len <= BAR_SIZE {
            Some(BAR_BASE + offset)
        } else {
            None
        }
    }

    fn add_memory_region(
        &mut self,
        guest_address: u64,
        mapping: u64,
        read_only: bool,
        log_dirty_pages: bool,
    ) -> Result<MemSlot, Error> {
        self.log.push(format!(
            "add_memory_region {:#x} {} {} {}",
            guest_address, mapping, read_only, log_dirty_pages
        ));
        if self.fail_add {
            return Err(Error::new(EIO));
        }
        self.next_slot += 1;
        Ok(self.next_slot)
    }

    fn remove_memory_region(&mut self, slot: MemSlot) -> Result<(), Error> {
        self.log.push(format!("remove_memory_region {}", slot));
        Ok(())
    }

    fn handle_balloon_event(&mut self, event: BalloonEvent) -> Result<(), Error> {
        self.log.push(format!("balloon {:?}", event));
        Ok(())
    }

    fn register_ioevent(
        &mut self,
        event: RawDescriptor,
        addr: u64,
        datamatch: Datamatch,
    ) -> Result<(), Error> {
        self.log.push(format!("register {} {:#x} {:?}", event, addr, datamatch));
        Ok(())
    }

    fn unregister_ioevent(
        &mut self,
        event: RawDescriptor,
        addr: u64,
        datamatch: Datamatch,
    ) -> Result<(), Error> {
        self.log.push(format!("unregister {} {:#x} {:?}", event, addr, datamatch));
        Ok(())
    }
}

/// An IOMMU that agrees or not, and writes down what it was told.
struct Iommu {
    agrees: bool,
    told: RefCell<Vec<String>>,
}

impl Iommu {
    fn new(agrees: bool) -> Iommu {
        Iommu { agrees, told: RefCell::new(Vec::new()) }
    }
}

impl IommuTube for Iommu {
    fn send(&self, request: &VirtioIOMMURequest) -> Result<(), Error> {
        let told = match request {
            VirtioIOMMURequest::VfioCommand(VirtioIOMMUVfioCommand::VfioDmabufMap {
                mem_slot,
                gfn,
                size,
                dma_buf,
            }) => format!("map {} {:#x} {:#x} {}", mem_slot, gfn, size, dma_buf),
            VirtioIOMMURequest::VfioCommand(VirtioIOMMUVfioCommand::VfioDmabufUnmap(slot)) => {
                format!("unmap {}", slot)
            }
            _ => "other".to_string(),
        };
        self.told.borrow_mut().push(told);
        Ok(())
    }

    fn recv(&self) -> Result<VirtioIOMMUResponse, Error> {
        if self.agrees {
            Ok(VirtioIOMMUResponse::VfioResponse(VirtioIOMMUVfioResult::Done))
        } else {
            Ok(VirtioIOMMUResponse::VfioResponse(VirtioIOMMUVfioResult::InvalidParam))
        }
    }
}

/// A way to the IOMMU on which nothing passes.
struct Severed {
    sends: bool,
}

impl IommuTube for Severed {
    fn send(&self, _request: &VirtioIOMMURequest) -> Result<(), Error> {
        if self.sends {
            Ok(())
        } else {
            Err(Error::new(EIO))
        }
    }

    fn recv(&self) -> Result<VirtioIOMMUResponse, Error> {
        Err(Error::new(EINVAL))
    }
}

#[test]
fn requests_to_the_iommu() {
    let request = VirtioIOMMURequest::VfioCommand(VirtioIOMMUVfioCommand::VfioDmabufUnmap(3));
    let iommu = Iommu::new(true);
    assert_eq!(virtio_iommu_request_async(&iommu, &request), VirtioIOMMUResponse::Done);
    assert_eq!(
        virtio_iommu_request(&iommu, &request),
        Ok(VirtioIOMMUResponse::VfioResponse(VirtioIOMMUVfioResult::Done))
    );
    assert_eq!(iommu.told.borrow().len(), 2);
    assert_eq!(
        virtio_iommu_request_async(&Severed { sends: false }, &request),
        VirtioIOMMUResponse::Failed(Error::new(EIO))
    );
    assert_eq!(
        virtio_iommu_request(&Severed { sends: false }, &request),
        Ok(VirtioIOMMUResponse::Failed(Error::new(EIO)))
    );
    assert_eq!(
        virtio_iommu_request(&Severed { sends: true }, &request),
        Ok(VirtioIOMMUResponse::Failed(Error::new(EINVAL)))
    );
}

fn no_iommu() -> Option<VmMemoryRequestIommuClient<Iommu>> {
    None
}

#[test]
fn register_and_unregister_at_an_address() {
    let mut host = Host::new();
    let mut state = VmMemoryRegionState::new();
    let mut iommu = no_iommu();
    let response = VmMemoryRequest::RegisterMemory {
        source: VmMemorySource::ExternalMapping { ptr: 0x1000, size: 0x2000 },
        dest: VmMemoryDestination::GuestPhysicalAddress(0x8000_3000),
        prot: Protection::read(),
    }
    .execute(&mut host, &mut iommu, &mut state);
    assert_eq!(response, VmMemoryResponse::RegisterMemory(VmMemoryRegionId(0x8_0003)));
    assert_eq!(host.log, vec!["add_memory_region 0x80003000 4 true false".to_string()]);
    assert_eq!(
        state.region(VmMemoryRegionId(0x8_0003)),
        Some(MappedRegion { slot: 8, part: None })
    );

    let response = VmMemoryRequest::UnregisterMemory(VmMemoryRegionId(0x8_0003))
        .execute(&mut host, &mut iommu, &mut state);
    assert_eq!(response, VmMemoryResponse::Done);
    assert_eq!(host.log[1], "remove_memory_region 8");
    assert_eq!(state.region(VmMemoryRegionId(0x8_0003)), None);
}

#[test]
fn unregistering_an_unknown_region_is_invalid() {
    let mut host = Host::new();
    let mut state = VmMemoryRegionState::default();
    let mut iommu = no_iommu();
    let response = VmMemoryRequest::UnregisterMemory(VmMemoryRegionId(5))
        .execute(&mut host, &mut iommu, &mut state);
    assert_eq!(response, VmMemoryResponse::Failed(Error::new(EINVAL)));
    assert!(host.log.is_empty());
}

#[test]
fn registering_inside_a_prepared_allocation_maps_into_its_slot() {
    let mut host = Host::new();
    let mut state = VmMemoryRegionState::new();
    let mut iommu = no_iommu();
    let response = VmMemoryRequest::PrepareSharedMemoryRegion { alloc: BAR }
        .execute(&mut host, &mut iommu, &mut state);
    assert_eq!(response, VmMemoryResponse::Done);
    assert_eq!(state.prepared(BAR), Some((0x4_0000, 3)));

    let response = VmMemoryRequest::RegisterMemory {
        source: VmMemorySource::Descriptor { descriptor: 11, offset: 0x200, size: 0x3000 },
        dest: VmMemoryDestination::ExistingAllocation { allocation: BAR, offset: 0x5000 },
        prot: Protection::read_write(),
    }
    .execute(&mut host, &mut iommu, &mut state);
    assert_eq!(response, VmMemoryResponse::RegisterMemory(VmMemoryRegionId(0x4_0005)));
    assert_eq!(host.log[1], "add_fd_mapping 3 0x5000 0x3000 11 0x200 true");
    assert_eq!(
        state.region(VmMemoryRegionId(0x4_0005)),
        Some(MappedRegion { slot: 3, part: Some((0x5000, 0x3000)) })
    );

    let response = VmMemoryRequest::UnregisterMemory(VmMemoryRegionId(0x4_0005))
        .execute(&mut host, &mut iommu, &mut state);
    assert_eq!(response, VmMemoryResponse::Done);
    assert_eq!(host.log[2], "remove_mapping 3 0x5000 0x3000");
    assert_eq!(state.region(VmMemoryRegionId(0x4_0005)), None);
    assert_eq!(state.prepared(BAR), Some((0x4_0000, 3)));
}

#[test]
fn only_files_and_shared_memory_go_into_a_prepared_allocation() {
    let mut host = Host::new();
    let mut state = VmMemoryRegionState::new();
    let mut iommu = no_iommu();
    VmMemoryRequest::PrepareSharedMemoryRegion { alloc: BAR }
        .execute(&mut host, &mut iommu, &mut state);
    let response = VmMemoryRequest::RegisterMemory {
        source: VmMemorySource::ExternalMapping { ptr: 0, size: 0x1000 },
        dest: VmMemoryDestination::ExistingAllocation { allocation: BAR, offset: 0 },
        prot: Protection::read(),
    }
    .execute(&mut host, &mut iommu, &mut state);
    assert_eq!(response, VmMemoryResponse::Failed(Error::new(EINVAL)));
    assert_eq!(host.log.len(), 1);
}

#[test]
fn a_host_without_use_for_it_prepares_nothing() {
    let mut host = Host::new();
    host.prepares = false;
    let mut state = VmMemoryRegionState::new();
    let mut iommu = no_iommu();
    let response = VmMemoryRequest::PrepareSharedMemoryRegion { alloc: BAR }
        .execute(&mut host, &mut iommu, &mut state);
    assert_eq!(response, VmMemoryResponse::Done);
    assert_eq!(state.prepared(BAR), None);
    assert!(host.log.is_empty());
}

#[test]
fn a_failed_registration_leaves_no_region() {
    let mut host = Host::new();
    host.fail_add = true;
    let mut state = VmMemoryRegionState::new();
    let mut iommu = no_iommu();
    let response = VmMemoryRequest::RegisterMemory {
        source: VmMemorySource::SharedMemory { descriptor: 4, size: 0x1000 },
        dest: VmMemoryDestination::ExistingAllocation { allocation: BAR, offset: 0x1000 },
        prot: Protection::read_write(),
    }
    .execute(&mut host, &mut iommu, &mut state);
    assert_eq!(response, VmMemoryResponse::Failed(Error::new(EIO)));
    assert_eq!(state.region(VmMemoryRegionId(0x4_0001)), None);

    let response = VmMemoryRequest::RegisterMemory {
        source: VmMemorySource::SharedMemory { descriptor: 4, size: 0x1000 },
        dest: VmMemoryDestination::ExistingAllocation { allocation: BAR, offset: BAR_SIZE },
        prot: Protection::read_write(),
    }
    .execute(&mut host, &mut iommu, &mut state);
    assert_eq!(response, VmMemoryResponse::Failed(Error::new(EINVAL)));
}

#[test]
fn the_iommu_hears_of_memory_with_a_descriptor() {
    let mut host = Host::new();
    let mut state = VmMemoryRegionState::new();
    let mut iommu = Some(VmMemoryRequestIommuClient::new(Iommu::new(true)));
    let response = VmMemoryRequest::RegisterMemory {
        source: VmMemorySource::SharedMemory { descriptor: 9, size: 0x4000 },
        dest: VmMemoryDestination::GuestPhysicalAddress(0x9000_0000),
        prot: Protection::read_write(),
    }
    .execute(&mut host, &mut iommu, &mut state);
    assert_eq!(response, VmMemoryResponse::RegisterMemory(VmMemoryRegionId(0x9_0000)));
    assert!(iommu.as_ref().unwrap().knows(8));
    assert!(!iommu.as_ref().unwrap().knows(9));

    let response = VmMemoryRequest::UnregisterMemory(VmMemoryRegionId(0x9_0000))
        .execute(&mut host, &mut iommu, &mut state);
    assert_eq!(response, VmMemoryResponse::Done);
    assert!(!iommu.as_ref().unwrap().knows(8));
    let (channel, _) = iommu.unwrap().into_parts();
    assert_eq!(
        channel.told.into_inner(),
        vec!["map 8 0x90000 0x4000 9".to_string(), "unmap 8".to_string()]
    );
}

#[test]
fn an_iommu_that_refuses_undoes_the_registration() {
    let mut host = Host::new();
    let mut state = VmMemoryRegionState::new();
    let mut iommu = Some(VmMemoryRequestIommuClient::new(Iommu::new(false)));
    let response = VmMemoryRequest::RegisterMemory {
        source: VmMemorySource::SharedMemory { descriptor: 9, size: 0x4000 },
        dest: VmMemoryDestination::GuestPhysicalAddress(0x9000_0000),
        prot: Protection::read_write(),
    }
    .execute(&mut host, &mut iommu, &mut state);
    assert_eq!(response, VmMemoryResponse::Failed(Error::new(EINVAL)));
    assert_eq!(host.log.last().unwrap(), "remove_memory_region 8");
    assert_eq!(state.region(VmMemoryRegionId(0x9_0000)), None);
    assert!(!iommu.as_ref().unwrap().knows(8));
}

#[test]
fn balloon_and_event_requests_go_to_the_host() {
    let mut host = Host::new();
    let mut state = VmMemoryRegionState::new();
    let mut iommu = no_iommu();
    let done = VmMemoryResponse::Done;
    assert_eq!(
        VmMemoryRequest::DynamicallyFreeMemoryRange { guest_address: 0x1000, size: 0x2000 }
            .execute(&mut host, &mut iommu, &mut state),
        done
    );
    assert_eq!(
        VmMemoryRequest::DynamicallyReclaimMemoryRange { guest_address: 0x1000, size: 0x2000 }
            .execute(&mut host, &mut iommu, &mut state),
        done
    );
    assert_eq!(
        VmMemoryRequest::BalloonTargetReached { size: 77 }.execute(&mut host, &mut iommu, &mut state),
        done
    );
    assert_eq!(
        VmMemoryRequest::IoEventWithAlloc {
            evt: 5,
            allocation: BAR,
            offset: 0x10,
            datamatch: Datamatch::U32(Some(1)),
            register: true,
        }
        .execute(&mut host, &mut iommu, &mut state),
        done
    );
    assert_eq!(
        VmMemoryRequest::IoEventWithAlloc {
            evt: 5,
            allocation: BAR,
            offset: BAR_SIZE - 2,
            datamatch: Datamatch::U32(None),
            register: true,
        }
        .execute(&mut host, &mut iommu, &mut state),
        VmMemoryResponse::Failed(Error::new(EINVAL))
    );
    assert_eq!(
        VmMemoryRequest::IoEventRaw(IoEventUpdateRequest {
            event: 6,
            addr: 0xfee0,
            datamatch: Datamatch::AnyLength,
            register: false,
        })
        .execute(&mut host, &mut iommu, &mut state),
        done
    );
    assert_eq!(
        host.log,
        vec![
            "balloon Inflate { guest_address: 4096, size: 8192 }".to_string(),
            "balloon Deflate { guest_address: 4096, size: 8192 }".to_string(),
            "balloon BalloonTargetReached(77)".to_string(),
            "register 5 0x40000010 U32(Some(1))".to_string(),
            "unregister 6 0xfee0 AnyLength".to_string(),
        ]
    );
}

#[test]
fn widths_of_matched_writes() {
    assert_eq!(Datamatch::AnyLength.len(), 1);
    assert_eq!(Datamatch::U8(None).len(), 1);
    assert_eq!(Datamatch::U16(Some(3)).len(), 2);
    assert_eq!(Datamatch::U32(None).len(), 4);
    assert_eq!(Datamatch::U64(Some(9)).len(), 8);
}

#[test]
fn names_of_regions_inside_an_allocation() {
    assert_eq!(region_in_allocation(0x100, 0x2fff), Some(VmMemoryRegionId(0x102)));
    assert_eq!(region_in_allocation(u64::MAX, 0xfff), Some(VmMemoryRegionId(u64::MAX)));
    assert_eq!(region_in_allocation(u64::MAX, 0x1000), None);
}

#[test]
fn a_region_state_replaces_and_forgets() {
    let mut state = VmMemoryRegionState::new();
    state.insert_region(VmMemoryRegionId(1), MappedRegion { slot: 1, part: None });
    state.insert_region(VmMemoryRegionId(2), MappedRegion { slot: 2, part: None });
    state.insert_region(VmMemoryRegionId(1), MappedRegion { slot: 3, part: Some((0, 16)) });
    assert_eq!(state.region(VmMemoryRegionId(1)), Some(MappedRegion { slot: 3, part: Some((0, 16)) }));
    assert_eq!(state.remove_region(VmMemoryRegionId(1)), Some(MappedRegion { slot: 3, part: Some((0, 16)) }));
    assert_eq!(state.remove_region(VmMemoryRegionId(1)), None);
    assert_eq!(state.region(VmMemoryRegionId(2)), Some(MappedRegion { slot: 2, part: None }));
    state.insert_prepared(Alloc::Fb, (10, 1));
    state.insert_prepared(Alloc::Fb, (20, 2));
    assert_eq!(state.prepared(Alloc::Fb), Some((20, 2)));
    assert_eq!(state.prepared(Alloc::Anon(0)), None);
}
