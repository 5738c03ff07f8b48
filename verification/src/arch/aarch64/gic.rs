//! The virtual interrupt controller of a VM, whatever hypervisor runs it.

use crate::{CpuState, HypervisorType};
use vstd::prelude::*;

verus! {

/// Errors of a virtual interrupt controller that are no fault of the host.
#[derive(Debug, Copy, Clone, PartialEq, Eq, Structural)]
pub enum Error {
    /// The VM belongs to another hypervisor than the controller asked for: a
    /// mistake of the caller, not of the host.
    WrongVmType,
    /// The hypervisor of this controller cannot do what was asked. It will
    /// not be able to later either.
    NotSupported,
}

/// Result type of a virtual interrupt controller.
pub type Result<T> = core::result::Result<T, Error>;

/// Where the interrupt controller of a VM lies in guest physical memory, and
/// how many vCPUs it serves.
#[derive(Debug, Copy, Clone, PartialEq, Eq, Structural)]
pub struct VgicConfig {
    pub vcpu_count: u64,
    pub dist_addr: u64,
    pub dist_size: u64,
    pub redists_addr: u64,
    pub redists_size: u64,
    pub msi_addr: u64,
    pub msi_size: u64,
    pub nr_irqs: u32,
}

/// A snapshot of an interrupt controller: bytes that only the backend that
/// took them can read.
#[derive(Debug, Clone, PartialEq, Eq)]
pub struct GicState {
    pub backend: HypervisorType,
    pub data: Vec<u8>,
}

/// Hypervisor agnostic interface for a virtualized GIC.
pub trait Vgic {
    /// Where the controller was placed, and for how many vCPUs.
    spec fn config(&self) -> VgicConfig;

    /// The hypervisor that this controller belongs to.
    spec fn backend(&self) -> HypervisorType;

    /// Returns the fdt compatibility property of the device.
    fn fdt_compatibility(&self) -> &'static str;

    /// Returns whether the GIC device is MSI compatible or not.
    fn msi_compatible(&self) -> bool;

    /// Returns the MSI compatibility property of the device.
    fn msi_compatibility(&self) -> &'static str;

    /// Returns the maint_irq fdt property of the device.
    fn fdt_maint_irq(&self) -> u32;

    /// Returns the number of vCPUs this GIC handles.
    fn vcpu_count(&self) -> (count: u64)
        ensures
            count == self.config().vcpu_count,
    ;

    /// Returns an array with GIC device properties: address and size of the
    /// distributor, then of the redistributors.
    fn device_properties(&self) -> (properties: [u64; 4])
        ensures
            properties@ == seq![
                self.config().dist_addr,
                self.config().dist_size,
                self.config().redists_addr,
                self.config().redists_size,
            ],
    ;

    /// Returns the MSI reg property of the device: address and size of the
    /// MSI frame.
    fn msi_properties(&self) -> (properties: [u64; 2])
        ensures
            properties@ == seq![self.config().msi_addr, self.config().msi_size],
    ;

    /// Takes the values of GICR_TYPER for each vCPU from the states of the
    /// vCPUs. The placement of the controller stays as it is.
    fn set_gicr_typers(&mut self, vcpu_states: &[CpuState]) -> (res: Result<()>)
        ensures
            final(self).config() == old(self).config(),
    ;

    /// The hypervisor that this controller belongs to.
    fn hypervisor_type(&self) -> (backend: HypervisorType)
        ensures
            backend == self.backend(),
    ;

    /// Save the state of the controller.
    fn state(&self) -> (res: Result<GicState>)
        ensures
            res matches Ok(state) ==> state.backend == self.backend(),
    ;

    /// Restore the state of the controller. The placement of the controller
    /// stays as it is.
    fn set_state(&mut self, state: &GicState) -> (res: Result<()>)
        ensures
            final(self).config() == old(self).config(),
    ;

    /// Saves GIC internal data tables into RAM.
    fn save_data_tables(&self) -> Result<()>;
}

} // verus!
