//! The Microsoft Hypervisor backend.

use crate::StandardRegisters;
use vstd::prelude::*;

pub mod aarch64;

verus! {

/// One vCPU of the Microsoft Hypervisor, as the layers above it see it: its
/// core registers, and the memory-mapped I/O of its VM if the VM has any.
pub struct MshvVcpu<V> {
    pub regs: StandardRegisters,
    pub vm_ops: Option<V>,
}

/// One entry of the interrupt routing table of the Microsoft Hypervisor: the
/// message that signals interrupt `gsi`.
#[derive(Debug, Copy, Clone, PartialEq, Eq, Structural)]
pub struct MshvMsiRoutingEntry {
    pub gsi: u32,
    pub address_lo: u32,
    pub address_hi: u32,
    pub data: u32,
}

/// The reference time of a partition, the clock state that the Microsoft
/// Hypervisor saves and restores.
#[derive(Debug, Copy, Clone, PartialEq, Eq, Structural)]
pub struct MshvClockData {
    pub ref_time: u64,
}

} // verus!
