//! AArch64 definitions shared by the hypervisor backends: the backend-neutral
//! register model.

use vstd::prelude::*;

pub mod gic;
pub mod regs;

verus! {

/// The core registers of one vCPU in the backend-neutral model.
#[derive(Debug, Copy, Clone, PartialEq, Eq)]
pub struct StandardRegisters {
    /// The general-purpose registers `x0` to `x30`.
    pub gpr: [u64; 31],
    pub sp: u64,
    pub pc: u64,
    pub pstate: u64,
    pub sp_el1: u64,
    pub elr_el1: u64,
    /// The saved program status registers.
    pub spsr: [u64; 5],
    /// The floating-point and vector registers `v0` to `v31`.
    pub vregs: [u128; 32],
    /// Floating-point status; the hardware register is 32 bits wide.
    pub fpsr: u64,
    /// Floating-point control; the hardware register is 32 bits wide.
    pub fpcr: u64,
}

impl StandardRegisters {
    /// The status fields hold nothing above their 32 hardware bits.
    pub open spec fn valid(self) -> bool {
        self.fpsr <= u32::MAX && self.fpcr <= u32::MAX
    }
}

/// One extended register: its identifier, and the address of its value.
#[derive(Debug, Copy, Clone, PartialEq, Eq, Structural)]
pub struct Register {
    pub id: u64,
    pub addr: u64,
}

/// What a vCPU is reset to: the target CPU type and the feature bits.
#[derive(Debug, Copy, Clone, PartialEq, Eq)]
pub struct VcpuInit {
    pub target: u32,
    pub features: [u32; 7],
}

} // verus!
