//! The KVM backend.

use vstd::prelude::*;

pub mod aarch64;

verus! {

/// A capability of the host kernel that this layer asks about.
#[derive(Debug, Copy, Clone, PartialEq, Eq, Structural)]
pub enum Cap {
    /// A vCPU run can be told to return at once.
    ImmediateExit,
    /// Guest accesses to an address can signal an event fd.
    Ioeventfd,
    /// The kernel emulates the interrupt controller.
    Irqchip,
    /// An event fd can inject an interrupt.
    Irqfd,
    /// The interrupt routing table can be set.
    IrqRouting,
    /// The multiprocessor state of a vCPU can be read and written.
    MpState,
    /// Single extended registers can be read and written.
    OneReg,
    /// Guest memory can be backed by memory of this process.
    UserMemory,
    /// Guest debugging. Some kernels implement it and do not say so.
    SetGuestDebug,
}

/// Errors of the KVM backend.
#[derive(Debug, Copy, Clone, PartialEq, Eq, Structural)]
pub enum KvmError {
    /// The host lacks a capability that this layer cannot work without.
    CapabilityMissing(Cap),
}

/// Result type of the KVM backend.
pub type KvmResult<T> = Result<T, KvmError>;

/// The kernel's `kvm_mp_state`.
#[derive(Debug, Copy, Clone, PartialEq, Eq, Structural)]
pub struct KvmMpState {
    pub mp_state: u32,
}

/// The kernel's `kvm_clock_data`.
#[derive(Debug, Copy, Clone, PartialEq, Eq)]
pub struct KvmClockData {
    pub clock: u64,
    pub flags: u32,
    pub pad0: u32,
    pub realtime: u64,
    pub host_tsc: u64,
    pub pad: [u32; 4],
}

/// The kernel's `kvm_irq_routing_entry`. What `u` means depends on `type_`,
/// and nothing here reads it.
#[derive(Debug, Copy, Clone, PartialEq, Eq)]
pub struct KvmIrqRoutingEntry {
    pub gsi: u32,
    pub type_: u32,
    pub flags: u32,
    pub pad: u32,
    pub u: [u32; 8],
}

/// What an open KVM handle answers when asked for each capability.
#[derive(Debug, Copy, Clone, PartialEq, Eq, Structural)]
pub struct Kvm {
    pub immediate_exit: bool,
    pub ioeventfd: bool,
    pub irqchip: bool,
    pub irqfd: bool,
    pub irq_routing: bool,
    pub mp_state: bool,
    pub one_reg: bool,
    pub user_memory: bool,
    pub set_guest_debug: bool,
}

impl Kvm {
    /// Whether the host has capability `c`.
    pub open spec fn spec_check_extension(&self, c: Cap) -> bool {
        match c {
            Cap::ImmediateExit => self.immediate_exit,
            Cap::Ioeventfd => self.ioeventfd,
            Cap::Irqchip => self.irqchip,
            Cap::Irqfd => self.irqfd,
            Cap::IrqRouting => self.irq_routing,
            Cap::MpState => self.mp_state,
            Cap::OneReg => self.one_reg,
            Cap::UserMemory => self.user_memory,
            Cap::SetGuestDebug => self.set_guest_debug,
        }
    }

    /// Checks if a particular capability is available.
    #[verifier::when_used_as_spec(spec_check_extension)]
    pub fn check_extension(&self, c: Cap) -> (available: bool)
        ensures
            available == self.spec_check_extension(c),
    {
        match c {
            Cap::ImmediateExit => self.immediate_exit,
            Cap::Ioeventfd => self.ioeventfd,
            Cap::Irqchip => self.irqchip,
            Cap::Irqfd => self.irqfd,
            Cap::IrqRouting => self.irq_routing,
            Cap::MpState => self.mp_state,
            Cap::OneReg => self.one_reg,
            Cap::UserMemory => self.user_memory,
            Cap::SetGuestDebug => self.set_guest_debug,
        }
    }
}

} // verus!
