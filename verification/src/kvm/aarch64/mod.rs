//! KVM on AArch64: the kernel's register layouts, their conversion to the
//! backend-neutral model, and the encoding of register identifiers.

use crate::arch::aarch64::{Register, StandardRegisters, VcpuInit};
use crate::kvm::{Cap, Kvm, KvmError, KvmMpState, KvmResult};
use vstd::prelude::*;
use vstd::std_specs::convert::FromSpecImpl;

verus! {

/// Architecture tag of an AArch64 register identifier.
pub const KVM_REG_ARM64: u64 = 0x6000_0000_0000_0000;

/// The bits of a register identifier that hold its size tag.
pub const KVM_REG_SIZE_MASK: u64 = 0x00f0_0000_0000_0000;

/// Size tag of a 32-bit register.
pub const KVM_REG_SIZE_U32: u64 = 0x0020_0000_0000_0000;

/// Size tag of a 64-bit register.
pub const KVM_REG_SIZE_U64: u64 = 0x0030_0000_0000_0000;

/// Size tag of a 128-bit register.
pub const KVM_REG_SIZE_U128: u64 = 0x0040_0000_0000_0000;

/// The bits of a register identifier that hold its class tag.
pub const KVM_REG_ARM_COPROC_MASK: u32 = 0x0fff_0000;

/// Class tag of the core registers.
pub const KVM_REG_ARM_CORE: u32 = 0x0010_0000;

/// Size in bytes of the kernel's `kvm_regs`; every core register lies below it.
pub const KVM_REGS_SIZE: usize = 864;

/// The kernel's `user_pt_regs`.
#[derive(Debug, Copy, Clone, PartialEq, Eq)]
pub struct UserPtRegs {
    pub regs: [u64; 31],
    pub sp: u64,
    pub pc: u64,
    pub pstate: u64,
}

/// The kernel's `user_fpsimd_state`.
#[derive(Debug, Copy, Clone, PartialEq, Eq)]
pub struct UserFpsimdState {
    pub vregs: [u128; 32],
    pub fpsr: u32,
    pub fpcr: u32,
    pub reserved: [u32; 2],
}

/// The kernel's `kvm_regs`.
#[derive(Debug, Copy, Clone, PartialEq, Eq)]
pub struct KvmRegs {
    pub regs: UserPtRegs,
    pub sp_el1: u64,
    pub elr_el1: u64,
    pub spsr: [u64; 5],
    pub fp_regs: UserFpsimdState,
}

/// The kernel's `kvm_one_reg`.
#[derive(Debug, Copy, Clone, PartialEq, Eq, Structural)]
pub struct KvmOneReg {
    pub id: u64,
    pub addr: u64,
}

/// The kernel's `kvm_vcpu_init`.
#[derive(Debug, Copy, Clone, PartialEq, Eq)]
pub struct KvmVcpuInit {
    pub target: u32,
    pub features: [u32; 7],
}

/// The state of one vCPU that a snapshot keeps.
#[derive(Debug, Clone, PartialEq, Eq)]
pub struct VcpuKvmState {
    pub mp_state: KvmMpState,
    pub core_regs: KvmRegs,
    /// The system registers. The core registers are in `core_regs` and have
    /// no place here.
    pub sys_regs: Vec<KvmOneReg>,
}

impl VcpuKvmState {
    /// The list of system registers holds system registers only: none of
    /// its identifiers is that of a core register, and each has the size of
    /// a system register.
    pub open spec fn wf(&self) -> bool {
        forall|i: int|
            0 <= i < self.sys_regs@.len() ==> !is_core_register(#[trigger] self.sys_regs@[i].id)
                && has_system_register_size(self.sys_regs@[i].id)
    }

    /// Whether the list of system registers holds system registers only.
    pub fn is_well_formed(&self) -> (yes: bool)
        ensures
            yes == self.wf(),
    {
        let mut i: usize = 0;
        while i < self.sys_regs.len()
            invariant
                i <= self.sys_regs@.len(),
                forall|j: int|
                    0 <= j < i ==> !is_core_register(#[trigger] self.sys_regs@[j].id)
                        && has_system_register_size(self.sys_regs@[j].id),
            decreases self.sys_regs@.len() - i,
        {
            let id = self.sys_regs[i].id;
            if !is_known_register(id) || !is_system_register(id) {
                return false;
            }
            i += 1;
        }
        true
    }
}

impl Default for VcpuKvmState {
    fn default() -> (state: Self)
        ensures
            state.mp_state.mp_state == 0,
            state.core_regs.is_zero(),
            state.sys_regs@.len() == 0,
            state.wf(),
    {
        VcpuKvmState {
            mp_state: KvmMpState { mp_state: 0 },
            core_regs: KvmRegs::default(),
            sys_regs: Vec::new(),
        }
    }
}

impl KvmRegs {
    /// Every register holds zero.
    pub open spec fn is_zero(self) -> bool {
        &&& forall|i: int| 0 <= i < 31 ==> self.regs.regs[i] == 0
        &&& self.regs.sp == 0
        &&& self.regs.pc == 0
        &&& self.regs.pstate == 0
        &&& self.sp_el1 == 0
        &&& self.elr_el1 == 0
        &&& forall|i: int| 0 <= i < 5 ==> self.spsr[i] == 0
        &&& forall|i: int| 0 <= i < 32 ==> self.fp_regs.vregs[i] == 0
        &&& self.fp_regs.fpsr == 0
        &&& self.fp_regs.fpcr == 0
        &&& self.valid()
    }

    /// The reserved words are zero: the neutral model has no place for them,
    /// and a conversion out of it clears them.
    pub open spec fn valid(self) -> bool {
        self.fp_regs.reserved[0] == 0 && self.fp_regs.reserved[1] == 0
    }
}

impl Default for KvmRegs {
    fn default() -> (regs: Self)
        ensures
            regs.is_zero(),
    {
        KvmRegs {
            regs: UserPtRegs { regs: [0u64; 31], sp: 0, pc: 0, pstate: 0 },
            sp_el1: 0,
            elr_el1: 0,
            spsr: [0u64; 5],
            fp_regs: UserFpsimdState {
                vregs: [0u128; 32],
                fpsr: 0,
                fpcr: 0,
                reserved: [0u32, 0u32],
            },
        }
    }
}

/// The native registers that hold what `regs` holds: every field copied, the
/// two status fields narrowed to their 32 bits, the reserved words zero.
pub open spec fn to_native(regs: StandardRegisters) -> KvmRegs {
    KvmRegs {
        regs: UserPtRegs { regs: regs.gpr, sp: regs.sp, pc: regs.pc, pstate: regs.pstate },
        sp_el1: regs.sp_el1,
        elr_el1: regs.elr_el1,
        spsr: regs.spsr,
        fp_regs: UserFpsimdState {
            vregs: regs.vregs,
            fpsr: regs.fpsr as u32,
            fpcr: regs.fpcr as u32,
            reserved: [0u32, 0u32],
        },
    }
}

/// The neutral registers that hold what `regs` holds: every field copied, the
/// two status fields widened with zeros.
pub open spec fn from_native(regs: KvmRegs) -> StandardRegisters {
    StandardRegisters {
        gpr: regs.regs.regs,
        sp: regs.regs.sp,
        pc: regs.regs.pc,
        pstate: regs.regs.pstate,
        sp_el1: regs.sp_el1,
        elr_el1: regs.elr_el1,
        spsr: regs.spsr,
        vregs: regs.fp_regs.vregs,
        fpsr: regs.fp_regs.fpsr as u64,
        fpcr: regs.fp_regs.fpcr as u64,
    }
}

impl From<StandardRegisters> for KvmRegs {
    fn from(regs: StandardRegisters) -> (native: Self) {
        KvmRegs {
            regs: UserPtRegs { regs: regs.gpr, sp: regs.sp, pc: regs.pc, pstate: regs.pstate },
            sp_el1: regs.sp_el1,
            elr_el1: regs.elr_el1,
            spsr: regs.spsr,
            fp_regs: UserFpsimdState {
                vregs: regs.vregs,
                fpsr: regs.fpsr as u32,
                fpcr: regs.fpcr as u32,
                reserved: [0u32, 0u32],
            },
        }
    }
}

impl FromSpecImpl<StandardRegisters> for KvmRegs {
    open spec fn obeys_from_spec() -> bool {
        true
    }

    open spec fn from_spec(regs: StandardRegisters) -> Self {
        to_native(regs)
    }
}

impl From<KvmRegs> for StandardRegisters {
    fn from(regs: KvmRegs) -> (neutral: Self) {
        StandardRegisters {
            gpr: regs.regs.regs,
            sp: regs.regs.sp,
            pc: regs.regs.pc,
            pstate: regs.regs.pstate,
            sp_el1: regs.sp_el1,
            elr_el1: regs.elr_el1,
            spsr: regs.spsr,
            vregs: regs.fp_regs.vregs,
            fpsr: regs.fp_regs.fpsr as u64,
            fpcr: regs.fp_regs.fpcr as u64,
        }
    }
}

impl FromSpecImpl<KvmRegs> for StandardRegisters {
    open spec fn obeys_from_spec() -> bool {
        true
    }

    open spec fn from_spec(regs: KvmRegs) -> Self {
        from_native(regs)
    }
}

/// The native form of one register: identifier and address, copied.
pub open spec fn register_to_native(reg: Register) -> KvmOneReg {
    KvmOneReg { id: reg.id, addr: reg.addr }
}

/// The neutral form of one register: identifier and address, copied.
pub open spec fn register_from_native(reg: KvmOneReg) -> Register {
    Register { id: reg.id, addr: reg.addr }
}

/// The native form of a reset descriptor: target and features, copied.
pub open spec fn vcpu_init_to_native(vcpu_init: VcpuInit) -> KvmVcpuInit {
    KvmVcpuInit { target: vcpu_init.target, features: vcpu_init.features }
}

/// The neutral form of a reset descriptor: target and features, copied.
pub open spec fn vcpu_init_from_native(vcpu_init: KvmVcpuInit) -> VcpuInit {
    VcpuInit { target: vcpu_init.target, features: vcpu_init.features }
}

impl From<Register> for KvmOneReg {
    fn from(reg: Register) -> (native: Self) {
        KvmOneReg { id: reg.id, addr: reg.addr }
    }
}

impl FromSpecImpl<Register> for KvmOneReg {
    open spec fn obeys_from_spec() -> bool {
        true
    }

    open spec fn from_spec(reg: Register) -> Self {
        register_to_native(reg)
    }
}

impl From<KvmOneReg> for Register {
    fn from(reg: KvmOneReg) -> (neutral: Self) {
        Register { id: reg.id, addr: reg.addr }
    }
}

impl FromSpecImpl<KvmOneReg> for Register {
    open spec fn obeys_from_spec() -> bool {
        true
    }

    open spec fn from_spec(reg: KvmOneReg) -> Self {
        register_from_native(reg)
    }
}

impl From<VcpuInit> for KvmVcpuInit {
    fn from(vcpu_init: VcpuInit) -> (native: Self) {
        KvmVcpuInit { target: vcpu_init.target, features: vcpu_init.features }
    }
}

impl FromSpecImpl<VcpuInit> for KvmVcpuInit {
    open spec fn obeys_from_spec() -> bool {
        true
    }

    open spec fn from_spec(vcpu_init: VcpuInit) -> Self {
        vcpu_init_to_native(vcpu_init)
    }
}

impl From<KvmVcpuInit> for VcpuInit {
    fn from(vcpu_init: KvmVcpuInit) -> (neutral: Self) {
        VcpuInit { target: vcpu_init.target, features: vcpu_init.features }
    }
}

impl FromSpecImpl<KvmVcpuInit> for VcpuInit {
    open spec fn obeys_from_spec() -> bool {
        true
    }

    open spec fn from_spec(vcpu_init: KvmVcpuInit) -> Self {
        vcpu_init_from_native(vcpu_init)
    }
}

/// Converting native registers to the neutral model and back gives the same
/// registers, whenever their reserved words are zero.
pub proof fn lemma_native_round_trip(regs: KvmRegs)
    requires
        regs.valid(),
    ensures
        to_native(from_native(regs)) == regs,
{
    let back = to_native(from_native(regs));
    assert(back.fp_regs.reserved =~= regs.fp_regs.reserved);
}

/// Converting neutral registers to the native layout and back gives the same
/// registers, whenever the status fields fit their 32 hardware bits.
pub proof fn lemma_neutral_round_trip(regs: StandardRegisters)
    requires
        regs.valid(),
    ensures
        from_native(to_native(regs)) == regs,
        to_native(regs).valid(),
{
}

/// Widening the native status fields adds only zeros.
pub proof fn lemma_from_native_valid(regs: KvmRegs)
    ensures
        from_native(regs).valid(),
        from_native(regs).fpsr == regs.fp_regs.fpsr,
        from_native(regs).fpcr == regs.fp_regs.fpcr,
{
}

/// A single register and a reset descriptor survive conversion in either
/// direction unchanged.
pub proof fn lemma_register_round_trip(
    reg: Register,
    native: KvmOneReg,
    vcpu_init: VcpuInit,
    native_init: KvmVcpuInit,
)
    ensures
        register_from_native(register_to_native(reg)) == reg,
        register_to_native(register_from_native(native)) == native,
        vcpu_init_from_native(vcpu_init_to_native(vcpu_init)) == vcpu_init,
        vcpu_init_to_native(vcpu_init_from_native(native_init)) == native_init,
{
}

/// Whether `size` is the tag of a register that is 32, 64 or 128 bits wide.
pub open spec fn is_core_size_tag(size: u64) -> bool {
    size == KVM_REG_SIZE_U32 || size == KVM_REG_SIZE_U64 || size == KVM_REG_SIZE_U128
}

/// The identifier of the core register of size tag `size` that lies `offset`
/// bytes into the kernel's `kvm_regs`: architecture tag, size tag, core class
/// tag, and the offset counted in 32-bit words.
pub open spec fn spec_arm64_core_reg_id(size: u64, offset: usize) -> u64 {
    KVM_REG_ARM64 | (KVM_REG_ARM_CORE as u64) | size | ((offset / 4) as u64)
}

/// The identifier of a core register, from its size tag and its byte offset
/// in the kernel's `kvm_regs`.
#[verifier::when_used_as_spec(spec_arm64_core_reg_id)]
pub fn arm64_core_reg_id(size: u64, offset: usize) -> (id: u64)
    ensures
        id == spec_arm64_core_reg_id(size, offset),
{
    KVM_REG_ARM64 | (KVM_REG_ARM_CORE as u64) | size | ((offset / 4) as u64)
}

/// Whether the class tag of `regid` is that of the core registers.
pub open spec fn is_core_register(regid: u64) -> bool {
    (regid & (KVM_REG_ARM_COPROC_MASK as u64)) == (KVM_REG_ARM_CORE as u64)
}

/// Whether the size tag of `regid` is one that a system register can have:
/// 32 or 64 bits.
pub open spec fn has_system_register_size(regid: u64) -> bool {
    (regid & KVM_REG_SIZE_MASK) == KVM_REG_SIZE_U32 || (regid & KVM_REG_SIZE_MASK)
        == KVM_REG_SIZE_U64
}

/// Whether `regid` is an identifier that the host kernel can hand out: a core
/// register, or a register of another class with a system register's size.
pub open spec fn spec_is_known_register(regid: u64) -> bool {
    is_core_register(regid) || has_system_register_size(regid)
}

/// Whether `regid` is a core register or carries a system register's size.
/// Any other identifier is a breach of the host kernel's contract.
#[verifier::when_used_as_spec(spec_is_known_register)]
pub fn is_known_register(regid: u64) -> (known: bool)
    ensures
        known == spec_is_known_register(regid),
{
    if (regid & (KVM_REG_ARM_COPROC_MASK as u64)) == (KVM_REG_ARM_CORE as u64) {
        return true;
    }
    let size = regid & KVM_REG_SIZE_MASK;
    size == KVM_REG_SIZE_U32 || size == KVM_REG_SIZE_U64
}

/// Specifies whether a particular register is a system register or not.
/// The kernel splits the registers on aarch64 in core registers and system
/// registers, so the system registers are those that are not core registers.
pub fn is_system_register(regid: u64) -> (system: bool)
    requires
        spec_is_known_register(regid),
    ensures
        system == !is_core_register(regid),
{
    if (regid & (KVM_REG_ARM_COPROC_MASK as u64)) == (KVM_REG_ARM_CORE as u64) {
        return false;
    }
    true
}

/// No identifier built for a core register is taken for a system register:
/// the size tag and the word offset leave the class tag as it was set.
pub proof fn lemma_core_reg_id_is_core(size: u64, offset: usize)
    requires
        is_core_size_tag(size),
        offset < KVM_REGS_SIZE,
    ensures
        is_core_register(spec_arm64_core_reg_id(size, offset)),
        spec_is_known_register(spec_arm64_core_reg_id(size, offset)),
        spec_arm64_core_reg_id(size, offset) & KVM_REG_SIZE_MASK == size,
{
    let word = (offset / 4) as u64;
    assert(((0x6000_0000_0000_0000u64 | 0x0010_0000u64 | size | word) & 0x0fff_0000u64)
        == 0x0010_0000u64 && ((0x6000_0000_0000_0000u64 | 0x0010_0000u64 | size | word)
        & 0x00f0_0000_0000_0000u64) == size) by (bit_vector)
        requires
            size == 0x0020_0000_0000_0000u64 || size == 0x0030_0000_0000_0000u64 || size
                == 0x0040_0000_0000_0000u64,
            word < 0x1_0000u64,
    ;
}

/// A core register, named by its place in the kernel's `kvm_regs`.
#[derive(Debug, Copy, Clone, PartialEq, Eq, Structural)]
pub enum CoreRegister {
    /// A general-purpose register, `x0` to `x30`.
    X(u8),
    Sp,
    Pc,
    Pstate,
    SpEl1,
    ElrEl1,
    /// One of the five saved program status registers.
    Spsr(u8),
    /// A floating-point and vector register, `v0` to `v31`.
    V(u8),
    Fpsr,
    Fpcr,
}

impl CoreRegister {
    /// The register exists: its number is one that its kind has.
    pub open spec fn valid(self) -> bool {
        match self {
            CoreRegister::X(n) => n < 31,
            CoreRegister::Spsr(n) => n < 5,
            CoreRegister::V(n) => n < 32,
            _ => true,
        }
    }

    /// Where the register lies in the kernel's `kvm_regs`, in bytes from its
    /// start.
    pub open spec fn spec_offset(self) -> usize {
        match self {
            CoreRegister::X(n) => (8 * n) as usize,
            CoreRegister::Sp => 248,
            CoreRegister::Pc => 256,
            CoreRegister::Pstate => 264,
            CoreRegister::SpEl1 => 272,
            CoreRegister::ElrEl1 => 280,
            CoreRegister::Spsr(n) => (288 + 8 * n) as usize,
            CoreRegister::V(n) => (336 + 16 * n) as usize,
            CoreRegister::Fpsr => 848,
            CoreRegister::Fpcr => 852,
        }
    }

    /// The size tag of the register: 128 bits for the vector registers, 32
    /// for the two floating-point status registers, 64 for the others.
    pub open spec fn spec_size_tag(self) -> u64 {
        match self {
            CoreRegister::V(_) => KVM_REG_SIZE_U128,
            CoreRegister::Fpsr | CoreRegister::Fpcr => KVM_REG_SIZE_U32,
            _ => KVM_REG_SIZE_U64,
        }
    }

    /// The identifier under which the kernel knows the register.
    pub open spec fn spec_id(self) -> u64 {
        spec_arm64_core_reg_id(self.spec_size_tag(), self.spec_offset())
    }

    /// Where the register lies in the kernel's `kvm_regs`.
    pub fn offset(self) -> (offset: usize)
        requires
            self.valid(),
        ensures
            offset == self.spec_offset(),
            offset < KVM_REGS_SIZE,
    {
        match self {
            CoreRegister::X(n) => 8 * (n as usize),
            CoreRegister::Sp => 248,
            CoreRegister::Pc => 256,
            CoreRegister::Pstate => 264,
            CoreRegister::SpEl1 => 272,
            CoreRegister::ElrEl1 => 280,
            CoreRegister::Spsr(n) => 288 + 8 * (n as usize),
            CoreRegister::V(n) => 336 + 16 * (n as usize),
            CoreRegister::Fpsr => 848,
            CoreRegister::Fpcr => 852,
        }
    }

    /// The size tag of the register.
    pub fn size_tag(self) -> (size: u64)
        ensures
            size == self.spec_size_tag(),
            is_core_size_tag(size),
    {
        match self {
            CoreRegister::V(_) => KVM_REG_SIZE_U128,
            CoreRegister::Fpsr | CoreRegister::Fpcr => KVM_REG_SIZE_U32,
            _ => KVM_REG_SIZE_U64,
        }
    }

    /// The identifier under which the kernel knows the register.
    pub fn id(self) -> (id: u64)
        requires
            self.valid(),
        ensures
            id == self.spec_id(),
            is_core_register(id),
    {
        proof {
            lemma_core_reg_id_is_core(self.spec_size_tag(), self.spec_offset());
        }
        arm64_core_reg_id(self.size_tag(), self.offset())
    }
}

/// Two core registers with one identifier are one register.
pub proof fn lemma_core_register_ids_differ(a: CoreRegister, b: CoreRegister)
    requires
        a.valid(),
        b.valid(),
        a.spec_id() == b.spec_id(),
    ensures
        a == b,
{
    let wa = (a.spec_offset() / 4) as u64;
    let wb = (b.spec_offset() / 4) as u64;
    let sa = a.spec_size_tag();
    let sb = b.spec_size_tag();
    assert(wa == wb) by (bit_vector)
        requires
            wa < 0x1_0000u64,
            wb < 0x1_0000u64,
            sa == 0x0020_0000_0000_0000u64 || sa == 0x0030_0000_0000_0000u64 || sa
                == 0x0040_0000_0000_0000u64,
            sb == 0x0020_0000_0000_0000u64 || sb == 0x0030_0000_0000_0000u64 || sb
                == 0x0040_0000_0000_0000u64,
            (0x6000_0000_0000_0000u64 | 0x0010_0000u64 | sa | wa) == (0x6000_0000_0000_0000u64
                | 0x0010_0000u64 | sb | wb),
    ;
}

/// The capabilities that the host must have, in the order in which they are
/// checked. Guest debugging is needed too but is not asked for: some kernels
/// implement it without the capability flag.
pub open spec fn spec_required_kvm_extensions() -> Seq<Cap> {
    seq![
        Cap::ImmediateExit,
        Cap::Ioeventfd,
        Cap::Irqchip,
        Cap::Irqfd,
        Cap::IrqRouting,
        Cap::MpState,
        Cap::OneReg,
        Cap::UserMemory,
    ]
}

/// The capabilities that the host must have, in the order in which they are
/// checked.
pub fn required_kvm_extensions() -> (required: [Cap; 8])
    ensures
        required@ == spec_required_kvm_extensions(),
{
    [
        Cap::ImmediateExit,
        Cap::Ioeventfd,
        Cap::Irqchip,
        Cap::Irqfd,
        Cap::IrqRouting,
        Cap::MpState,
        Cap::OneReg,
        Cap::UserMemory,
    ]
}

/// Whether the required capability at place `i` is the first that `kvm`
/// lacks.
pub open spec fn is_first_missing(kvm: Kvm, i: int) -> bool {
    &&& 0 <= i < spec_required_kvm_extensions().len()
    &&& !kvm.spec_check_extension(spec_required_kvm_extensions()[i])
    &&& forall|j: int|
        0 <= j < i ==> kvm.spec_check_extension(#[trigger] spec_required_kvm_extensions()[j])
}

/// Guest debugging is not among the required capabilities: whether the host
/// says that it has it changes nothing of the check.
pub proof fn lemma_guest_debug_not_required(kvm: Kvm, set_guest_debug: bool)
    ensures
        !spec_required_kvm_extensions().contains(Cap::SetGuestDebug),
        forall|i: int|
            is_first_missing(kvm, i) <==> is_first_missing(
                Kvm { set_guest_debug: set_guest_debug, ..kvm },
                i,
            ),
{
    let other = Kvm { set_guest_debug: set_guest_debug, ..kvm };
    let required = spec_required_kvm_extensions();
    assert forall|j: int| 0 <= j < required.len() implies required[j] != Cap::SetGuestDebug
        && kvm.spec_check_extension(#[trigger] required[j]) == other.spec_check_extension(
        required[j],
    ) by {}
}

/// No two required capabilities are both the first that a host lacks: the
/// host decides which capability the check names.
pub proof fn lemma_first_missing_is_unique(kvm: Kvm, i: int, j: int)
    requires
        is_first_missing(kvm, i),
        is_first_missing(kvm, j),
    ensures
        i == j,
{
}

/// Checks that the host has every required capability. The first one that is
/// missing, in the order of `required_kvm_extensions`, is reported.
pub fn check_required_kvm_extensions(kvm: &Kvm) -> (res: KvmResult<()>)
    ensures
        res is Ok <==> forall|i: int|
            0 <= i < spec_required_kvm_extensions().len() ==> kvm.spec_check_extension(
                #[trigger] spec_required_kvm_extensions()[i],
            ),
        forall|i: int|
            is_first_missing(*kvm, i) ==> res == KvmResult::<()>::Err(
                KvmError::CapabilityMissing(spec_required_kvm_extensions()[i]),
            ),
{
    let required = required_kvm_extensions();
    let mut i: usize = 0;
    while i < 8
        invariant
            i <= 8,
            required@ == spec_required_kvm_extensions(),
            forall|j: int|
                0 <= j < i ==> kvm.spec_check_extension(
                    #[trigger] spec_required_kvm_extensions()[j],
                ),
        decreases 8 - i,
    {
        let cap = required[i];
        if !kvm.check_extension(cap) {
            return Err(KvmError::CapabilityMissing(cap));
        }
        i += 1;
    }
    Ok(())
}

} // verus!
