//! The GICv3 with ITS that the Microsoft Hypervisor gives a VM.

use crate::arch::aarch64::gic::{Error, Result, Vgic, VgicConfig};
use crate::arch::aarch64::gic::GicState;
use crate::{CpuState, HypervisorType};
use vstd::prelude::*;

verus! {

pub struct MshvGicV3Its {
    /// GIC distributor address
    dist_addr: u64,
    /// GIC distributor size
    dist_size: u64,
    /// GIC distributors address
    redists_addr: u64,
    /// GIC distributors size
    redists_size: u64,
    /// GIC MSI address
    msi_addr: u64,
    /// GIC MSI size
    msi_size: u64,
    /// Number of CPUs handled by the device
    vcpu_count: u64,
    /// Number of interrupts that the device was configured for
    nr_irqs: u32,
}

impl MshvGicV3Its {
    /// Device trees specific constants
    pub const ARCH_GIC_V3_MAINT_IRQ: u32 = 9;

    /// The configuration that the controller was made with.
    pub closed spec fn placement(&self) -> VgicConfig {
        VgicConfig {
            vcpu_count: self.vcpu_count,
            dist_addr: self.dist_addr,
            dist_size: self.dist_size,
            redists_addr: self.redists_addr,
            redists_size: self.redists_size,
            msi_addr: self.msi_addr,
            msi_size: self.msi_size,
            nr_irqs: self.nr_irqs,
        }
    }

    /// Makes the controller of a VM of the Microsoft Hypervisor, placed as
    /// `config` says. A VM of another hypervisor is refused.
    pub fn new(vm: HypervisorType, config: VgicConfig) -> (res: Result<MshvGicV3Its>)
        ensures
            vm != HypervisorType::Mshv ==> res == Result::<MshvGicV3Its>::Err(Error::WrongVmType),
            vm == HypervisorType::Mshv ==> res is Ok && res->Ok_0.placement() == config,
    {
        match vm {
            HypervisorType::Mshv => {},
            _ => {
                return Err(Error::WrongVmType);
            },
        }
        let gic_device = MshvGicV3Its {
            dist_addr: config.dist_addr,
            dist_size: config.dist_size,
            redists_addr: config.redists_addr,
            redists_size: config.redists_size,
            msi_addr: config.msi_addr,
            msi_size: config.msi_size,
            vcpu_count: config.vcpu_count,
            nr_irqs: config.nr_irqs,
        };
        Ok(gic_device)
    }
}

impl Vgic for MshvGicV3Its {
    open spec fn config(&self) -> VgicConfig {
        self.placement()
    }

    open spec fn backend(&self) -> HypervisorType {
        HypervisorType::Mshv
    }

    fn fdt_compatibility(&self) -> (name: &'static str)
        ensures
            name@ == "arm,gic-v3"@,
    {
        "arm,gic-v3"
    }

    fn msi_compatible(&self) -> (compatible: bool)
        ensures
            compatible,
    {
        true
    }

    fn msi_compatibility(&self) -> (name: &'static str)
        ensures
            name@ == "arm,gic-v2m-frame"@,
    {
        "arm,gic-v2m-frame"
    }

    fn fdt_maint_irq(&self) -> (irq: u32)
        ensures
            irq == 9,
    {
        MshvGicV3Its::ARCH_GIC_V3_MAINT_IRQ
    }

    fn vcpu_count(&self) -> (count: u64) {
        self.vcpu_count
    }

    fn device_properties(&self) -> (properties: [u64; 4]) {
        [self.dist_addr, self.dist_size, self.redists_addr, self.redists_size]
    }

    fn msi_properties(&self) -> (properties: [u64; 2]) {
        [self.msi_addr, self.msi_size]
    }

    fn set_gicr_typers(&mut self, _vcpu_states: &[CpuState]) -> (res: Result<()>)
        ensures
            res == Result::<()>::Err(Error::NotSupported),
            *final(self) == *old(self),
    {
        Err(Error::NotSupported)
    }

    fn hypervisor_type(&self) -> (backend: HypervisorType) {
        HypervisorType::Mshv
    }

    /// Save the state of GICv3ITS.
    fn state(&self) -> (res: Result<GicState>)
        ensures
            res == Result::<GicState>::Err(Error::NotSupported),
    {
        Err(Error::NotSupported)
    }

    /// Restore the state of GICv3ITS.
    fn set_state(&mut self, _state: &GicState) -> (res: Result<()>)
        ensures
            res == Result::<()>::Err(Error::NotSupported),
            *final(self) == *old(self),
    {
        Err(Error::NotSupported)
    }

    /// Saves GIC internal data tables into RAM, including:
    /// - RDIST pending tables
    /// - ITS tables into guest RAM.
    fn save_data_tables(&self) -> (res: Result<()>)
        ensures
            res == Result::<()>::Err(Error::NotSupported),
    {
        Err(Error::NotSupported)
    }
}

} // verus!
