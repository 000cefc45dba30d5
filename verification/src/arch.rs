//! What a device on the platform bus takes of the machine.

use vstd::prelude::*;

verus! {

/// The kind of IOMMU behind which a device sits.
#[derive(Clone, Copy, Debug, PartialEq, Eq, Structural)]
pub enum IommuDevType {
    NoIommu,
    VirtioIommu,
    CoIommu,
    PkvmPviommu,
}

/// The resources of one device on the platform bus.
#[derive(Debug)]
pub struct PlatformBusResources {
    /// The label of the device in the device tree.
    pub dt_symbol: String,
    /// Start address and size of each region.
    pub regions: Vec<(u64, u64)>,
    /// Number and flags of each interrupt.
    pub irqs: Vec<(u32, u32)>,
    /// Kind, identifier and IDs of each IOMMU.
    pub iommus: Vec<(IommuDevType, Option<u32>, Vec<u32>)>,
}

impl PlatformBusResources {
    /// Flag of an interrupt that fires on an edge.
    pub const IRQ_TRIGGER_EDGE: u32 = 1;

    /// Flag of an interrupt that fires on a level.
    pub const IRQ_TRIGGER_LEVEL: u32 = 4;

    /// The resources of the device labelled `symbol`, none so far.
    pub fn new(symbol: String) -> (resources: Self)
        ensures
            resources.dt_symbol == symbol,
            resources.regions@.len() == 0,
            resources.irqs@.len() == 0,
            resources.iommus@.len() == 0,
    {
        PlatformBusResources {
            dt_symbol: symbol,
            regions: Vec::new(),
            irqs: Vec::new(),
            iommus: Vec::new(),
        }
    }

    /// The flag of an interrupt of a device: one that masks itself fires
    /// on a level, any other on an edge.
    pub fn irq_trigger(automask: bool) -> (flags: u32)
        ensures
            flags == if automask {
                Self::IRQ_TRIGGER_LEVEL
            } else {
                Self::IRQ_TRIGGER_EDGE
            },
    {
        if automask {
            Self::IRQ_TRIGGER_LEVEL
        } else {
            Self::IRQ_TRIGGER_EDGE
        }
    }

    /// Takes note of an interrupt of the device: its number in the
    /// machine, and whether it masks itself.
    pub fn add_irq(&mut self, irq_num: u32, automask: bool)
        ensures
            final(self).irqs@ == old(self).irqs@.push(
                (
                    irq_num,
                    if automask {
                        Self::IRQ_TRIGGER_LEVEL
                    } else {
                        Self::IRQ_TRIGGER_EDGE
                    },
                ),
            ),
            final(self).dt_symbol == old(self).dt_symbol,
            final(self).regions == old(self).regions,
            final(self).iommus == old(self).iommus,
    {
        self.irqs.push((irq_num, Self::irq_trigger(automask)));
    }
}

} // verus!
