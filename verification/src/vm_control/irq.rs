//! Carrying out a request about interrupts: which set-up the interrupt chip
//! is asked for, and what the request is answered with.

use vstd::prelude::*;
use crate::bus::RawDescriptor;
use crate::errno::Error;
use crate::errno::EINVAL;
use crate::vm_control::VmIrqRequest;
use crate::vm_control::VmIrqResponse;

verus! {

/// What the interrupt chip is asked to set up.
#[derive(Debug)]
pub enum IrqSetup {
    /// Tie the interrupt `gsi` to the event `irqfd` of a queue of a device.
    Event { gsi: u32, irqfd: RawDescriptor, device_id: u32, queue_id: usize, device_name: String },
    /// Route the interrupt `gsi` as a message.
    Route { gsi: u32, msi_address: u64, msi_data: u32 },
    /// Untie the interrupt `gsi` from the event `irqfd`.
    UnRegister { gsi: u32, irqfd: RawDescriptor },
}

/// An [`IrqSetup`] with its text as a sequence.
pub enum IrqSetupView {
    Event { gsi: u32, irqfd: RawDescriptor, device_id: u32, queue_id: usize, device_name: Seq<char> },
    Route { gsi: u32, msi_address: u64, msi_data: u32 },
    UnRegister { gsi: u32, irqfd: RawDescriptor },
}

impl View for IrqSetup {
    type V = IrqSetupView;

    open spec fn view(&self) -> IrqSetupView {
        match *self {
            IrqSetup::Event { gsi, irqfd, device_id, queue_id, device_name } => IrqSetupView::Event {
                gsi,
                irqfd,
                device_id,
                queue_id,
                device_name: device_name@,
            },
            IrqSetup::Route { gsi, msi_address, msi_data } => IrqSetupView::Route {
                gsi,
                msi_address,
                msi_data,
            },
            IrqSetup::UnRegister { gsi, irqfd } => IrqSetupView::UnRegister { gsi, irqfd },
        }
    }
}

/// The interrupt chip, as the rest of the machine offers it.
pub trait IrqChipSetup {
    /// Sets up what is asked for.
    fn set_up_irq(&mut self, setup: IrqSetup) -> Result<(), Error>;
}

/// Where the numbers of interrupts come from.
pub trait IrqAllocator {
    /// A number that is free, if there is one.
    fn allocate_irq(&mut self) -> Option<u32>;

    /// Gives a number back.
    fn release_irq(&mut self, irq: u32);
}

impl VmIrqRequest {
    /// What the interrupt chip is asked to set up for the request, where
    /// `allocated` is the free number that was taken for it: nothing where a
    /// number was needed and none was free.
    pub open spec fn spec_setup_for(&self, allocated: Option<u32>) -> Option<IrqSetupView> {
        match *self {
            VmIrqRequest::AllocateOneMsi { irqfd, device_id, queue_id, device_name } => match allocated {
                Some(irq_num) => Some(
                    IrqSetupView::Event {
                        gsi: irq_num,
                        irqfd,
                        device_id,
                        queue_id,
                        device_name: device_name@,
                    },
                ),
                None => None,
            },
            VmIrqRequest::AllocateOneMsiAtGsi {
                irqfd,
                gsi,
                device_id,
                queue_id,
                device_name,
            } => Some(
                IrqSetupView::Event { gsi, irqfd, device_id, queue_id, device_name: device_name@ },
            ),
            VmIrqRequest::AddMsiRoute { gsi, msi_address, msi_data } => Some(
                IrqSetupView::Route { gsi, msi_address, msi_data },
            ),
            VmIrqRequest::ReleaseOneIrq { gsi, irqfd } => Some(IrqSetupView::UnRegister { gsi, irqfd }),
        }
    }

    /// What the request is answered with, where `allocated` is the free
    /// number that was taken for it and `set_up` is what the interrupt chip
    /// said, if it was asked: the number that was taken; success; or the
    /// failure of the chip. Giving a number back always succeeds. Without a
    /// free number the request is an invalid one.
    pub open spec fn spec_response_for(
        &self,
        allocated: Option<u32>,
        set_up: Option<Result<(), Error>>,
    ) -> VmIrqResponse {
        match *self {
            VmIrqRequest::ReleaseOneIrq { .. } => VmIrqResponse::Done,
            VmIrqRequest::AllocateOneMsi { .. } => match (allocated, set_up) {
                (Some(irq_num), Some(Ok(()))) => VmIrqResponse::AllocateOneMsi { gsi: irq_num },
                (Some(_), Some(Err(e))) => VmIrqResponse::Failed(e),
                _ => VmIrqResponse::Failed(Error::new_spec(EINVAL)),
            },
            _ => match set_up {
                Some(Ok(())) => VmIrqResponse::Done,
                Some(Err(e)) => VmIrqResponse::Failed(e),
                None => VmIrqResponse::Failed(Error::new_spec(EINVAL)),
            },
        }
    }

    /// What the interrupt chip is asked to set up for the request.
    pub fn setup_for(&self, allocated: Option<u32>) -> (setup: Option<IrqSetup>)
        ensures
            match setup {
                Some(s) => self.spec_setup_for(allocated) == Some(s@),
                None => self.spec_setup_for(allocated) is None,
            },
    {
        match self {
            VmIrqRequest::AllocateOneMsi { irqfd, device_id, queue_id, device_name } => match allocated {
                Some(irq_num) => Some(
                    IrqSetup::Event {
                        gsi: irq_num,
                        irqfd: *irqfd,
                        device_id: *device_id,
                        queue_id: *queue_id,
                        device_name: device_name.clone(),
                    },
                ),
                None => None,
            },
            VmIrqRequest::AllocateOneMsiAtGsi {
                irqfd,
                gsi,
                device_id,
                queue_id,
                device_name,
            } => Some(
                IrqSetup::Event {
                    gsi: *gsi,
                    irqfd: *irqfd,
                    device_id: *device_id,
                    queue_id: *queue_id,
                    device_name: device_name.clone(),
                },
            ),
            VmIrqRequest::AddMsiRoute { gsi, msi_address, msi_data } => Some(
                IrqSetup::Route { gsi: *gsi, msi_address: *msi_address, msi_data: *msi_data },
            ),
            VmIrqRequest::ReleaseOneIrq { gsi, irqfd } => Some(
                IrqSetup::UnRegister { gsi: *gsi, irqfd: *irqfd },
            ),
        }
    }

    /// What the request is answered with.
    pub fn response_for(&self, allocated: Option<u32>, set_up: Option<Result<(), Error>>) -> (response:
        VmIrqResponse)
        ensures
            response == self.spec_response_for(allocated, set_up),
    {
        match self {
            VmIrqRequest::ReleaseOneIrq { .. } => VmIrqResponse::Done,
            VmIrqRequest::AllocateOneMsi { .. } => match (allocated, set_up) {
                (Some(irq_num), Some(Ok(()))) => VmIrqResponse::AllocateOneMsi { gsi: irq_num },
                (Some(_), Some(Err(e))) => VmIrqResponse::Failed(e),
                _ => VmIrqResponse::Failed(Error::new(EINVAL)),
            },
            _ => match set_up {
                Some(Ok(())) => VmIrqResponse::Done,
                Some(Err(e)) => VmIrqResponse::Failed(e),
                None => VmIrqResponse::Failed(Error::new(EINVAL)),
            },
        }
    }

    /// Carries the request out: takes a free number where one is needed,
    /// asks the interrupt chip for the set-up, gives the number back where
    /// the request releases one, and answers.
    pub fn execute<C: IrqChipSetup, A: IrqAllocator>(&self, chip: &mut C, sys_allocator: &mut A) -> (response:
        VmIrqResponse)
        ensures
            exists|allocated: Option<u32>, set_up: Option<Result<(), Error>>|
                response == #[trigger] self.spec_response_for(allocated, set_up) && (set_up is Some
                    <==> self.spec_setup_for(allocated) is Some),
    {
        let allocated = match self {
            VmIrqRequest::AllocateOneMsi { .. } => sys_allocator.allocate_irq(),
            _ => None,
        };
        let set_up = match self.setup_for(allocated) {
            Some(setup) => Some(chip.set_up_irq(setup)),
            None => None,
        };
        if let VmIrqRequest::ReleaseOneIrq { gsi, .. } = self {
            sys_allocator.release_irq(*gsi);
        }
        let response = self.response_for(allocated, set_up);
        assert(response == self.spec_response_for(allocated, set_up));
        response
    }
}

} // verus!
