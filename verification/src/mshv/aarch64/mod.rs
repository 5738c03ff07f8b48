//! The Microsoft Hypervisor on AArch64.

use vstd::prelude::*;

pub mod emulator;
pub mod gic;

verus! {

/// The core registers of a vCPU as the Microsoft Hypervisor lays them out.
#[derive(Debug, Copy, Clone, PartialEq, Eq)]
pub struct MshvStandardRegisters {
    /// The general-purpose registers `x0` to `x30`.
    pub regs: [u64; 31],
    pub sp: u64,
    pub pc: u64,
    pub pstate: u64,
    pub sp_el1: u64,
    pub elr_el1: u64,
    pub fpsr: u64,
    pub fpcr: u64,
}

impl MshvStandardRegisters {
    /// Every register holds zero.
    pub open spec fn is_zero(self) -> bool {
        &&& forall|i: int| 0 <= i < 31 ==> self.regs[i] == 0
        &&& self.sp == 0
        &&& self.pc == 0
        &&& self.pstate == 0
        &&& self.sp_el1 == 0
        &&& self.elr_el1 == 0
        &&& self.fpsr == 0
        &&& self.fpcr == 0
    }
}

impl Default for MshvStandardRegisters {
    fn default() -> (regs: Self)
        ensures
            regs.is_zero(),
    {
        MshvStandardRegisters {
            regs: [0u64; 31],
            sp: 0,
            pc: 0,
            pstate: 0,
            sp_el1: 0,
            elr_el1: 0,
            fpsr: 0,
            fpcr: 0,
        }
    }
}

/// The state of one vCPU that a snapshot keeps.
#[derive(Debug, Copy, Clone, PartialEq, Eq)]
pub struct VcpuMshvState {
    pub regs: MshvStandardRegisters,
}

} // verus!
