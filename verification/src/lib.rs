//! A hardware-virtualization abstraction layer for AArch64 guests.
//!
//! The layer puts two hypervisors, KVM and the Microsoft Hypervisor, behind
//! one set of types, and holds what of their work is plain computation:
//!
//! - `kvm::aarch64` converts between the kernel's register layouts and a
//!   backend-neutral model, builds and classifies register identifiers, and
//!   checks the capabilities of the host;
//! - `arch::aarch64::gic` and `mshv::aarch64::gic` describe the virtual
//!   interrupt controller of a VM;
//! - `mshv::aarch64::emulator` performs the load or store of a guest that
//!   trapped with a syndrome that describes it, against the device model that
//!   `vm::VmOps` stands for.
//!
//! Nothing here talks to a kernel: what a host answers comes in as values,
//! and what is to be done to a vCPU goes out as values.

use vstd::prelude::*;

pub mod arch;
pub mod bytes;
pub mod kvm;
pub mod mshv;
pub mod vm;

use crate::kvm::aarch64::{KvmRegs, VcpuKvmState};
use crate::kvm::{KvmClockData, KvmIrqRoutingEntry, KvmMpState};
use crate::mshv::aarch64::{MshvStandardRegisters, VcpuMshvState};
use crate::mshv::{MshvClockData, MshvMsiRoutingEntry};
use core::mem::size_of;

verus! {

/// The hypervisor backend behind a handle.
#[derive(Debug, Copy, Clone, PartialEq, Eq, Structural)]
pub enum HypervisorType {
    Kvm,
    Mshv,
}

/// Why no hypervisor could be had.
#[derive(Debug, Copy, Clone, PartialEq, Eq, Structural)]
pub enum HypervisorError {
    /// The host could not say whether a hypervisor is there.
    HypervisorAvailableCheck,
    /// No supported hypervisor is there.
    HypervisorCreate,
}

/// The hypervisor to use on a host where asking for KVM gave `kvm_available`
/// and asking for the Microsoft Hypervisor gave `mshv_available`: KVM if it
/// is there, the Microsoft Hypervisor if KVM is not. Whether the second is
/// there matters only once the first is known to be absent.
pub open spec fn spec_new(
    kvm_available: Result<bool, HypervisorError>,
    mshv_available: Result<bool, HypervisorError>,
) -> Result<HypervisorType, HypervisorError> {
    match kvm_available {
        Err(e) => Err(e),
        Ok(true) => Ok(HypervisorType::Kvm),
        Ok(false) => match mshv_available {
            Err(e) => Err(e),
            Ok(true) => Ok(HypervisorType::Mshv),
            Ok(false) => Err(HypervisorError::HypervisorCreate),
        },
    }
}

/// Picks the hypervisor of this host from what the host said of each.
#[verifier::when_used_as_spec(spec_new)]
pub fn new(
    kvm_available: Result<bool, HypervisorError>,
    mshv_available: Result<bool, HypervisorError>,
) -> (res: Result<HypervisorType, HypervisorError>)
    ensures
        res == spec_new(kvm_available, mshv_available),
{
    if kvm_available? {
        return Ok(HypervisorType::Kvm);
    }
    if mshv_available? {
        return Ok(HypervisorType::Mshv);
    }
    Err(HypervisorError::HypervisorCreate)
}

/// How many elements of `element` bytes it takes to hold `size` bytes.
pub open spec fn elements_for(size: nat, element: nat) -> nat {
    ((size + element - 1) / (element as int)) as nat
}

/// The count of `elements_for` is the least that is enough.
pub proof fn lemma_elements_for(size: nat, element: nat)
    requires
        element > 0,
    ensures
        elements_for(size, element) * element >= size,
        size > 0 ==> (elements_for(size, element) - 1) * element < size,
        size == 0 ==> elements_for(size, element) == 0,
{
    let total = (size + element - 1) as int;
    let e = element as int;
    vstd::arithmetic::div_mod::lemma_fundamental_div_mod(total, e);
    vstd::arithmetic::div_mod::lemma_mod_bound(total, e);
    assert(((total / e) - 1) * e == (total / e) * e - e) by (nonlinear_arith);
    if size == 0 {
        vstd::arithmetic::div_mod::lemma_basic_div(total, e);
    } else {
        vstd::arithmetic::div_mod::lemma_div_pos_is_pos(total, e);
    }
}

// Returns a `Vec<T>` with a size in bytes at least as large as `size_in_bytes`.
fn vec_with_size_in_bytes<T: Default>(size_in_bytes: usize) -> (v: Vec<T>)
    requires
        vstd::layout::size_of::<T>() > 0,
        size_in_bytes + vstd::layout::size_of::<T>() <= usize::MAX,
    ensures
        v@.len() == elements_for(size_in_bytes as nat, vstd::layout::size_of::<T>()),
        forall|i: int| 0 <= i < v@.len() ==> call_ensures(T::default, (), #[trigger] v@[i]),
{
    let rounded_size = (size_in_bytes + size_of::<T>() - 1) / size_of::<T>();
    let mut v: Vec<T> = Vec::with_capacity(rounded_size);
    let mut i: usize = 0;
    while i < rounded_size
        invariant
            i <= rounded_size,
            v@.len() == i,
            forall|j: int| 0 <= j < v@.len() ==> call_ensures(T::default, (), #[trigger] v@[j]),
        decreases rounded_size - i,
    {
        v.push(T::default());
        i += 1;
    }
    v
}

/// A vector of `T` that is large enough to hold one `T` followed by `count`
/// values of `F`, every element the default of `T`.
///
/// The kernel has many structures that end in an array of unknown length.
/// Such a structure is kept as the first element of a `Vec` of itself: the
/// elements after it are the room for the array, aligned as the structure is.
pub fn vec_with_array_field<T: Default, F>(count: usize) -> (v: Vec<T>)
    requires
        vstd::layout::size_of::<T>() > 0,
        count * vstd::layout::size_of::<F>() + 2 * vstd::layout::size_of::<T>() <= usize::MAX,
    ensures
        v@.len() == elements_for(
            vstd::layout::size_of::<T>() + (count as nat) * vstd::layout::size_of::<F>(),
            vstd::layout::size_of::<T>(),
        ),
        forall|i: int| 0 <= i < v@.len() ==> call_ensures(T::default, (), #[trigger] v@[i]),
{
    let element_space = count * size_of::<F>();
    let vec_size_bytes = size_of::<T>() + element_space;
    vec_with_size_in_bytes(vec_size_bytes)
}

/// User memory region structure
#[derive(Debug, Copy, Clone, PartialEq, Eq, Structural)]
pub struct UserMemoryRegion {
    pub slot: u32,
    pub guest_phys_addr: u64,
    pub memory_size: u64,
    pub userspace_addr: u64,
    pub flags: u32,
}

impl Default for UserMemoryRegion {
    fn default() -> (region: Self)
        ensures
            region == (UserMemoryRegion {
                slot: 0,
                guest_phys_addr: 0,
                memory_size: 0,
                userspace_addr: 0,
                flags: 0,
            }),
    {
        UserMemoryRegion { slot: 0, guest_phys_addr: 0, memory_size: 0, userspace_addr: 0, flags: 0 }
    }
}

/// Flag of a user memory region: the guest may read it.
pub const USER_MEMORY_REGION_READ: u32 = 1;

/// Flag of a user memory region: the guest may write it.
pub const USER_MEMORY_REGION_WRITE: u32 = 1 << 1;

/// Flag of a user memory region: the guest may execute from it.
pub const USER_MEMORY_REGION_EXECUTE: u32 = 1 << 2;

/// Flag of a user memory region: writes to it are logged.
pub const USER_MEMORY_REGION_LOG_DIRTY: u32 = 1 << 3;

/// Flag of a user memory region: its size may be changed.
pub const USER_MEMORY_REGION_ADJUSTABLE: u32 = 1 << 4;

/// Each flag of a user memory region is a bit of its own, so that any of
/// them can be set together.
pub proof fn lemma_user_memory_region_flags()
    ensures
        USER_MEMORY_REGION_READ == 0x01,
        USER_MEMORY_REGION_WRITE == 0x02,
        USER_MEMORY_REGION_EXECUTE == 0x04,
        USER_MEMORY_REGION_LOG_DIRTY == 0x08,
        USER_MEMORY_REGION_ADJUSTABLE == 0x10,
{
    assert(1u32 << 1 == 0x02 && 1u32 << 2 == 0x04 && 1u32 << 3 == 0x08 && 1u32 << 4 == 0x10)
        by (bit_vector);
}

/// The multiprocessor state of a vCPU. The Microsoft Hypervisor has none.
#[derive(Debug, Copy, Clone, PartialEq, Eq, Structural)]
pub enum MpState {
    Kvm(KvmMpState),
    Mshv,
}

/// The address that an I/O event is bound to.
#[derive(Debug, Copy, Clone, PartialEq, Eq, Structural)]
pub enum IoEventAddress {
    Pio(u64),
    Mmio(u64),
}

/// The clock of a VM, in the form of the backend that runs it.
#[derive(Debug, Copy, Clone, PartialEq, Eq)]
pub enum ClockData {
    Kvm(KvmClockData),
    Mshv(MshvClockData),
}

impl ClockData {
    /// The backend whose form the clock has.
    pub open spec fn backend(&self) -> HypervisorType {
        match self {
            ClockData::Kvm(_) => HypervisorType::Kvm,
            ClockData::Mshv(_) => HypervisorType::Mshv,
        }
    }

    /// The backend whose form the clock has.
    #[verifier::when_used_as_spec(backend)]
    pub fn hypervisor_type(&self) -> (backend: HypervisorType)
        ensures
            backend == self.backend(),
    {
        match self {
            ClockData::Kvm(_) => HypervisorType::Kvm,
            ClockData::Mshv(_) => HypervisorType::Mshv,
        }
    }

    /// This clock with the flags that only describe how it was read cleared,
    /// as it must be before it is restored. Only the clock of KVM has any.
    pub open spec fn spec_reset_flags(self) -> Self {
        match self {
            ClockData::Kvm(s) => ClockData::Kvm(KvmClockData { flags: 0, ..s }),
            ClockData::Mshv(s) => ClockData::Mshv(s),
        }
    }

    /// Clears the flags that only describe how the clock was read.
    pub fn reset_flags(&mut self)
        ensures
            *final(self) == old(self).spec_reset_flags(),
            final(self).backend() == old(self).backend(),
    {
        match self {
            ClockData::Kvm(s) => s.flags = 0,
            _ => {},
        }
    }
}

/// One entry of the interrupt routing table, in the form of the backend that
/// takes it.
#[derive(Debug, Copy, Clone, PartialEq, Eq)]
pub enum IrqRoutingEntry {
    Kvm(KvmIrqRoutingEntry),
    Mshv(MshvMsiRoutingEntry),
}

/// The state of one vCPU that a snapshot keeps, in the form of the backend
/// that ran it.
#[derive(Debug, Clone, PartialEq, Eq)]
pub enum CpuState {
    Kvm(VcpuKvmState),
    Mshv(VcpuMshvState),
}

impl CpuState {
    /// The state is one that its backend can have handed out.
    pub open spec fn wf(&self) -> bool {
        match self {
            CpuState::Kvm(s) => s.wf(),
            CpuState::Mshv(_) => true,
        }
    }

    /// The backend whose form the state has.
    pub open spec fn backend(&self) -> HypervisorType {
        match self {
            CpuState::Kvm(_) => HypervisorType::Kvm,
            CpuState::Mshv(_) => HypervisorType::Mshv,
        }
    }

    /// The backend whose form the state has. A state is of use only to the
    /// backend that it came from.
    #[verifier::when_used_as_spec(backend)]
    pub fn hypervisor_type(&self) -> (backend: HypervisorType)
        ensures
            backend == self.backend(),
    {
        match self {
            CpuState::Kvm(_) => HypervisorType::Kvm,
            CpuState::Mshv(_) => HypervisorType::Mshv,
        }
    }
}

/// The core registers of a vCPU, in the layout of the backend that runs it.
#[derive(Debug, Copy, Clone, PartialEq, Eq)]
pub enum StandardRegisters {
    Kvm(KvmRegs),
    Mshv(MshvStandardRegisters),
}

impl StandardRegisters {
    /// The backend whose layout the registers have.
    pub open spec fn backend(&self) -> HypervisorType {
        match self {
            StandardRegisters::Kvm(_) => HypervisorType::Kvm,
            StandardRegisters::Mshv(_) => HypervisorType::Mshv,
        }
    }

    /// The backend whose layout the registers have.
    #[verifier::when_used_as_spec(backend)]
    pub fn hypervisor_type(&self) -> (backend: HypervisorType)
        ensures
            backend == self.backend(),
    {
        match self {
            StandardRegisters::Kvm(_) => HypervisorType::Kvm,
            StandardRegisters::Mshv(_) => HypervisorType::Mshv,
        }
    }

    /// The general-purpose registers `x0` to `x30`.
    pub open spec fn spec_get_regs(&self) -> [u64; 31] {
        match self {
            StandardRegisters::Kvm(s) => s.regs.regs,
            StandardRegisters::Mshv(s) => s.regs,
        }
    }

    /// The stack pointer.
    pub open spec fn spec_get_sp(&self) -> u64 {
        match self {
            StandardRegisters::Kvm(s) => s.regs.sp,
            StandardRegisters::Mshv(s) => s.sp,
        }
    }

    /// The program counter.
    pub open spec fn spec_get_pc(&self) -> u64 {
        match self {
            StandardRegisters::Kvm(s) => s.regs.pc,
            StandardRegisters::Mshv(s) => s.pc,
        }
    }

    /// The processor state.
    pub open spec fn spec_get_pstate(&self) -> u64 {
        match self {
            StandardRegisters::Kvm(s) => s.regs.pstate,
            StandardRegisters::Mshv(s) => s.pstate,
        }
    }

    /// These registers with `val` for the general-purpose registers.
    pub open spec fn spec_set_regs(self, val: [u64; 31]) -> Self {
        match self {
            StandardRegisters::Kvm(s) => StandardRegisters::Kvm(
                KvmRegs { regs: crate::kvm::aarch64::UserPtRegs { regs: val, ..s.regs }, ..s },
            ),
            StandardRegisters::Mshv(s) => StandardRegisters::Mshv(
                MshvStandardRegisters { regs: val, ..s },
            ),
        }
    }

    /// These registers with `val` for the stack pointer.
    pub open spec fn spec_set_sp(self, val: u64) -> Self {
        match self {
            StandardRegisters::Kvm(s) => StandardRegisters::Kvm(
                KvmRegs { regs: crate::kvm::aarch64::UserPtRegs { sp: val, ..s.regs }, ..s },
            ),
            StandardRegisters::Mshv(s) => StandardRegisters::Mshv(
                MshvStandardRegisters { sp: val, ..s },
            ),
        }
    }

    /// These registers with `val` for the program counter.
    pub open spec fn spec_set_pc(self, val: u64) -> Self {
        match self {
            StandardRegisters::Kvm(s) => StandardRegisters::Kvm(
                KvmRegs { regs: crate::kvm::aarch64::UserPtRegs { pc: val, ..s.regs }, ..s },
            ),
            StandardRegisters::Mshv(s) => StandardRegisters::Mshv(
                MshvStandardRegisters { pc: val, ..s },
            ),
        }
    }

    /// These registers with `val` for the processor state.
    pub open spec fn spec_set_pstate(self, val: u64) -> Self {
        match self {
            StandardRegisters::Kvm(s) => StandardRegisters::Kvm(
                KvmRegs { regs: crate::kvm::aarch64::UserPtRegs { pstate: val, ..s.regs }, ..s },
            ),
            StandardRegisters::Mshv(s) => StandardRegisters::Mshv(
                MshvStandardRegisters { pstate: val, ..s },
            ),
        }
    }

    /// The KVM registers inside. To ask for them of registers of another
    /// backend is a mistake of the caller.
    pub fn kvm(self) -> (regs: KvmRegs)
        requires
            self.backend() == HypervisorType::Kvm,
        ensures
            self == StandardRegisters::Kvm(regs),
    {
        match self {
            StandardRegisters::Kvm(s) => s,
            StandardRegisters::Mshv(_) => vstd::pervasive::unreached(),
        }
    }

    /// The registers of the Microsoft Hypervisor inside. To ask for them of
    /// registers of another backend is a mistake of the caller.
    pub fn mshv(self) -> (regs: MshvStandardRegisters)
        requires
            self.backend() == HypervisorType::Mshv,
        ensures
            self == StandardRegisters::Mshv(regs),
    {
        match self {
            StandardRegisters::Mshv(s) => s,
            StandardRegisters::Kvm(_) => vstd::pervasive::unreached(),
        }
    }

    /// KVM registers that are all zero.
    pub fn get_default_kvm() -> (regs: Self)
        ensures
            regs matches StandardRegisters::Kvm(s) && s.is_zero(),
    {
        StandardRegisters::Kvm(KvmRegs::default())
    }

    /// Registers of the Microsoft Hypervisor that are all zero.
    pub fn get_default_mshv() -> (regs: Self)
        ensures
            regs matches StandardRegisters::Mshv(s) && s.is_zero(),
    {
        StandardRegisters::Mshv(MshvStandardRegisters::default())
    }

    #[verifier::when_used_as_spec(spec_get_regs)]
    pub fn get_regs(&self) -> (val: [u64; 31])
        ensures
            val == self.spec_get_regs(),
    {
        match self {
            StandardRegisters::Kvm(s) => s.regs.regs,
            StandardRegisters::Mshv(s) => s.regs,
        }
    }

    #[verifier::when_used_as_spec(spec_get_sp)]
    pub fn get_sp(&self) -> (val: u64)
        ensures
            val == self.spec_get_sp(),
    {
        match self {
            StandardRegisters::Kvm(s) => s.regs.sp,
            StandardRegisters::Mshv(s) => s.sp,
        }
    }

    #[verifier::when_used_as_spec(spec_get_pc)]
    pub fn get_pc(&self) -> (val: u64)
        ensures
            val == self.spec_get_pc(),
    {
        match self {
            StandardRegisters::Kvm(s) => s.regs.pc,
            StandardRegisters::Mshv(s) => s.pc,
        }
    }

    #[verifier::when_used_as_spec(spec_get_pstate)]
    pub fn get_pstate(&self) -> (val: u64)
        ensures
            val == self.spec_get_pstate(),
    {
        match self {
            StandardRegisters::Kvm(s) => s.regs.pstate,
            StandardRegisters::Mshv(s) => s.pstate,
        }
    }

    pub fn set_regs(&mut self, val: [u64; 31])
        ensures
            *final(self) == old(self).spec_set_regs(val),
    {
        match self {
            StandardRegisters::Kvm(s) => s.regs.regs = val,
            StandardRegisters::Mshv(s) => s.regs = val,
        }
    }

    pub fn set_sp(&mut self, val: u64)
        ensures
            *final(self) == old(self).spec_set_sp(val),
    {
        match self {
            StandardRegisters::Kvm(s) => s.regs.sp = val,
            StandardRegisters::Mshv(s) => s.sp = val,
        }
    }

    pub fn set_pc(&mut self, val: u64)
        ensures
            *final(self) == old(self).spec_set_pc(val),
    {
        match self {
            StandardRegisters::Kvm(s) => s.regs.pc = val,
            StandardRegisters::Mshv(s) => s.pc = val,
        }
    }

    pub fn set_pstate(&mut self, val: u64)
        ensures
            *final(self) == old(self).spec_set_pstate(val),
    {
        match self {
            StandardRegisters::Kvm(s) => s.regs.pstate = val,
            StandardRegisters::Mshv(s) => s.pstate = val,
        }
    }
}

} // verus!
