use hypervisor::arch::aarch64::{Register, StandardRegisters, VcpuInit};
use hypervisor::kvm::aarch64::{
    arm64_core_reg_id, check_required_kvm_extensions, is_known_register, is_system_register,
    required_kvm_extensions, CoreRegister, KvmOneReg, KvmRegs, KvmVcpuInit, UserFpsimdState, UserPtRegs,
    VcpuKvmState, KVM_REGS_SIZE, KVM_REG_ARM64, KVM_REG_ARM_COPROC_MASK, KVM_REG_ARM_CORE,
    KVM_REG_SIZE_MASK, KVM_REG_SIZE_U128, KVM_REG_SIZE_U32, KVM_REG_SIZE_U64,
};
use hypervisor::kvm::{Cap, Kvm, KvmError, KvmMpState};

fn neutral() -> StandardRegisters {
    let mut gpr = [0u64; 31];
    for i in 0..31 {
        gpr[i] = 0x0101_0101_0101_0101 * (i as u64 + 1);
    }
    let mut vregs = [0u128; 32];
    for i in 0..32 {
        vregs[i] = (u128::MAX / 37) * (i as u128 + 1);
    }
    StandardRegisters {
        gpr,
        sp: 0x1111,
        pc: 0x2222,
        pstate: 0x3c5,
        sp_el1: 0x4444,
        elr_el1: 0x5555,
        spsr: [1, 2, 3, 4, u64::MAX],
        vregs,
        fpsr: 0x0800_009f,
        fpcr: 0xffff_ffff,
    }
}

fn native() -> KvmRegs {
    let n = neutral();
    KvmRegs {
        regs: UserPtRegs { regs: n.gpr, sp: 0x1111, pc: 0x2222, pstate: 0x3c5 },
        sp_el1: 0x4444,
        elr_el1: 0x5555,
        spsr: [1, 2, 3, 4, u64::MAX],
        fp_regs: UserFpsimdState { vregs: n.vregs, fpsr: 0x0800_009f, fpcr: 0xffff_ffff, reserved: [0, 0] },
    }
}

fn host_with_all() -> Kvm {
    Kvm {
        immediate_exit: true,
        ioeventfd: true,
        irqchip: true,
        irqfd: true,
        irq_routing: true,
        mp_state: true,
        one_reg: true,
        user_memory: true,
        set_guest_debug: true,
    }
}

fn host_without(cap: Cap) -> Kvm {
    let mut kvm = host_with_all();
    match cap {
        Cap::ImmediateExit => kvm.immediate_exit = false,
        Cap::Ioeventfd => kvm.ioeventfd = false,
        Cap::Irqchip => kvm.irqchip = false,
        Cap::Irqfd => kvm.irqfd = false,
        Cap::IrqRouting => kvm.irq_routing = false,
        Cap::MpState => kvm.mp_state = false,
        Cap::OneReg => kvm.one_reg = false,
        Cap::UserMemory => kvm.user_memory = false,
        Cap::SetGuestDebug => kvm.set_guest_debug = false,
    }
    kvm
}

#[test]
fn neutral_registers_map_field_by_field() {
    assert_eq!(KvmRegs::from(neutral()), native());
    assert_eq!(StandardRegisters::from(native()), neutral());
}

#[test]
fn registers_survive_a_round_trip() {
    assert_eq!(StandardRegisters::from(KvmRegs::from(neutral())), neutral());
    assert_eq!(KvmRegs::from(StandardRegisters::from(native())), native());
    let zero = KvmRegs::default();
    assert_eq!(KvmRegs::from(StandardRegisters::from(zero)), zero);
}

#[test]
fn status_fields_are_narrowed_to_32_bits_and_widened_with_zeros() {
    let mut wide = neutral();
    wide.fpsr = 0xdead_beef_0000_0001;
    wide.fpcr = 0x1_0000_0000;
    let narrowed = KvmRegs::from(wide);
    assert_eq!(narrowed.fp_regs.fpsr, 1);
    assert_eq!(narrowed.fp_regs.fpcr, 0);
    let mut top = native();
    top.fp_regs.fpsr = 0x8000_0000;
    top.fp_regs.fpcr = 0xffff_ffff;
    let widened = StandardRegisters::from(top);
    assert_eq!(widened.fpsr, 0x8000_0000);
    assert_eq!(widened.fpcr, 0xffff_ffff);
}

#[test]
fn reserved_words_are_cleared() {
    let mut odd = native();
    odd.fp_regs.reserved = [7, 9];
    let back = KvmRegs::from(StandardRegisters::from(odd));
    assert_eq!(back.fp_regs.reserved, [0, 0]);
    assert_eq!(back, native());
}

#[test]
fn single_registers_and_reset_descriptors_map_unchanged() {
    let reg = Register { id: 0x6030_0000_0013_df1a, addr: 0x7fff_1234_5678 };
    let native = KvmOneReg::from(reg);
    assert_eq!(native, KvmOneReg { id: 0x6030_0000_0013_df1a, addr: 0x7fff_1234_5678 });
    assert_eq!(Register::from(native), reg);
    let init = VcpuInit { target: 5, features: [1, 2, 4, 8, 16, 32, u32::MAX] };
    let native = KvmVcpuInit::from(init);
    assert_eq!(native, KvmVcpuInit { target: 5, features: [1, 2, 4, 8, 16, 32, u32::MAX] });
    assert_eq!(VcpuInit::from(native), init);
}

#[test]
fn constants_are_those_of_the_kernel() {
    assert_eq!(KVM_REG_ARM64, kvm_bindings::KVM_REG_ARM64);
    assert_eq!(KVM_REG_SIZE_MASK, kvm_bindings::KVM_REG_SIZE_MASK);
    assert_eq!(KVM_REG_SIZE_U32, kvm_bindings::KVM_REG_SIZE_U32);
    assert_eq!(KVM_REG_SIZE_U64, kvm_bindings::KVM_REG_SIZE_U64);
    assert_eq!(KVM_REG_SIZE_U128, kvm_bindings::KVM_REG_SIZE_U128);
    assert_eq!(KVM_REG_ARM_COPROC_MASK, 268369920);
    assert_eq!(KVM_REG_ARM_CORE, 1048576);
    assert_eq!(KVM_REGS_SIZE, 864);
}

#[test]
fn core_register_identifiers() {
    assert_eq!(arm64_core_reg_id(KVM_REG_SIZE_U64, 0), 0x6030_0000_0010_0000);
    assert_eq!(arm64_core_reg_id(KVM_REG_SIZE_U64, 8), 0x6030_0000_0010_0002);
    assert_eq!(arm64_core_reg_id(KVM_REG_SIZE_U64, 256), 0x6030_0000_0010_0040);
    assert_eq!(arm64_core_reg_id(KVM_REG_SIZE_U128, 336), 0x6040_0000_0010_0054);
    assert_eq!(arm64_core_reg_id(KVM_REG_SIZE_U32, 848), 0x6020_0000_0010_00d4);
    assert_eq!(arm64_core_reg_id(KVM_REG_SIZE_U32, 852), 0x6020_0000_0010_00d5);
}

#[test]
fn no_core_register_is_a_system_register() {
    for size in [KVM_REG_SIZE_U32, KVM_REG_SIZE_U64, KVM_REG_SIZE_U128] {
        for offset in 0..KVM_REGS_SIZE {
            let id = arm64_core_reg_id(size, offset);
            assert!(is_known_register(id));
            assert!(!is_system_register(id));
            assert_eq!(id & KVM_REG_SIZE_MASK, size);
        }
    }
}

#[test]
fn system_registers_of_a_known_size_are_system_registers() {
    let mpidr_el1 = 0x6030_0000_0013_c005u64;
    assert!(is_known_register(mpidr_el1));
    assert!(is_system_register(mpidr_el1));
    let narrow = (mpidr_el1 & !KVM_REG_SIZE_MASK) | KVM_REG_SIZE_U32;
    assert!(is_known_register(narrow));
    assert!(is_system_register(narrow));
}

#[test]
fn a_system_register_of_another_size_is_not_known() {
    let base = 0x6000_0000_0013_c005u64;
    assert!(!is_known_register(base | KVM_REG_SIZE_U128));
    assert!(!is_known_register(base));
    assert!(!is_known_register(base | 0x0010_0000_0000_0000));
    assert!(!is_known_register(base | KVM_REG_SIZE_MASK));
    assert!(is_known_register(0x6000_0000_0010_0000 | KVM_REG_SIZE_MASK));
}

#[test]
fn the_required_capabilities_in_their_order() {
    assert_eq!(
        required_kvm_extensions(),
        [
            Cap::ImmediateExit,
            Cap::Ioeventfd,
            Cap::Irqchip,
            Cap::Irqfd,
            Cap::IrqRouting,
            Cap::MpState,
            Cap::OneReg,
            Cap::UserMemory,
        ]
    );
}

#[test]
fn a_host_with_every_capability_passes() {
    assert_eq!(check_required_kvm_extensions(&host_with_all()), Ok(()));
}

#[test]
fn each_missing_capability_is_named() {
    for cap in required_kvm_extensions() {
        let kvm = host_without(cap);
        assert!(!kvm.check_extension(cap));
        assert_eq!(check_required_kvm_extensions(&kvm), Err(KvmError::CapabilityMissing(cap)));
    }
}

#[test]
fn the_first_missing_capability_is_reported() {
    let required = required_kvm_extensions();
    for i in 0..required.len() {
        for j in i + 1..required.len() {
            let mut kvm = host_without(required[i]);
            let other = host_without(required[j]);
            kvm.immediate_exit &= other.immediate_exit;
            kvm.ioeventfd &= other.ioeventfd;
            kvm.irqchip &= other.irqchip;
            kvm.irqfd &= other.irqfd;
            kvm.irq_routing &= other.irq_routing;
            kvm.mp_state &= other.mp_state;
            kvm.one_reg &= other.one_reg;
            kvm.user_memory &= other.user_memory;
            assert_eq!(
                check_required_kvm_extensions(&kvm),
                Err(KvmError::CapabilityMissing(required[i]))
            );
        }
    }
    let none = Kvm {
        immediate_exit: false,
        ioeventfd: false,
        irqchip: false,
        irqfd: false,
        irq_routing: false,
        mp_state: false,
        one_reg: false,
        user_memory: false,
        set_guest_debug: false,
    };
    assert_eq!(
        check_required_kvm_extensions(&none),
        Err(KvmError::CapabilityMissing(Cap::ImmediateExit))
    );
}

#[test]
fn guest_debug_may_be_missing() {
    let kvm = host_without(Cap::SetGuestDebug);
    assert!(!kvm.check_extension(Cap::SetGuestDebug));
    assert_eq!(check_required_kvm_extensions(&kvm), Ok(()));
}

#[test]
fn the_state_of_a_vcpu_holds_system_registers_only() {
    let mut state = VcpuKvmState::default();
    assert_eq!(state.mp_state, KvmMpState { mp_state: 0 });
    assert_eq!(state.core_regs, KvmRegs::default());
    assert!(state.sys_regs.is_empty());
    assert!(state.is_well_formed());
    state.sys_regs.push(KvmOneReg { id: 0x6030_0000_0013_c005, addr: 1 });
    state.sys_regs.push(KvmOneReg { id: 0x6020_0000_0013_c005, addr: 2 });
    assert!(state.is_well_formed());
    state.sys_regs.push(KvmOneReg { id: arm64_core_reg_id(KVM_REG_SIZE_U64, 256), addr: 3 });
    assert!(!state.is_well_formed());
    state.sys_regs.pop();
    state.sys_regs.push(KvmOneReg { id: 0x6040_0000_0013_c005, addr: 3 });
    assert!(!state.is_well_formed());
}

fn core_registers() -> Vec<CoreRegister> {
    let mut all = Vec::new();
    for n in 0..31 {
        all.push(CoreRegister::X(n));
    }
    all.extend([
        CoreRegister::Sp,
        CoreRegister::Pc,
        CoreRegister::Pstate,
        CoreRegister::SpEl1,
        CoreRegister::ElrEl1,
    ]);
    for n in 0..5 {
        all.push(CoreRegister::Spsr(n));
    }
    for n in 0..32 {
        all.push(CoreRegister::V(n));
    }
    all.extend([CoreRegister::Fpsr, CoreRegister::Fpcr]);
    all
}

#[test]
fn core_registers_lie_where_the_kernel_puts_them() {
    assert_eq!(CoreRegister::X(0).offset(), 0);
    assert_eq!(CoreRegister::X(30).offset(), 240);
    assert_eq!(CoreRegister::Sp.offset(), 248);
    assert_eq!(CoreRegister::Pc.offset(), 256);
    assert_eq!(CoreRegister::Pstate.offset(), 264);
    assert_eq!(CoreRegister::SpEl1.offset(), 272);
    assert_eq!(CoreRegister::ElrEl1.offset(), 280);
    assert_eq!(CoreRegister::Spsr(0).offset(), 288);
    assert_eq!(CoreRegister::Spsr(4).offset(), 320);
    assert_eq!(CoreRegister::V(0).offset(), 336);
    assert_eq!(CoreRegister::V(31).offset(), 832);
    assert_eq!(CoreRegister::Fpsr.offset(), 848);
    assert_eq!(CoreRegister::Fpcr.offset(), 852);
    assert_eq!(CoreRegister::X(7).size_tag(), KVM_REG_SIZE_U64);
    assert_eq!(CoreRegister::Spsr(1).size_tag(), KVM_REG_SIZE_U64);
    assert_eq!(CoreRegister::V(7).size_tag(), KVM_REG_SIZE_U128);
    assert_eq!(CoreRegister::Fpsr.size_tag(), KVM_REG_SIZE_U32);
    assert_eq!(CoreRegister::Fpcr.size_tag(), KVM_REG_SIZE_U32);
}

#[test]
fn core_registers_have_the_identifiers_of_the_kernel() {
    assert_eq!(CoreRegister::X(0).id(), 0x6030_0000_0010_0000);
    assert_eq!(CoreRegister::X(30).id(), 0x6030_0000_0010_003c);
    assert_eq!(CoreRegister::Sp.id(), 0x6030_0000_0010_003e);
    assert_eq!(CoreRegister::Pc.id(), 0x6030_0000_0010_0040);
    assert_eq!(CoreRegister::Pstate.id(), 0x6030_0000_0010_0042);
    assert_eq!(CoreRegister::SpEl1.id(), 0x6030_0000_0010_0044);
    assert_eq!(CoreRegister::ElrEl1.id(), 0x6030_0000_0010_0046);
    assert_eq!(CoreRegister::Spsr(0).id(), 0x6030_0000_0010_0048);
    assert_eq!(CoreRegister::V(0).id(), 0x6040_0000_0010_0054);
    assert_eq!(CoreRegister::V(1).id(), 0x6040_0000_0010_0058);
    assert_eq!(CoreRegister::Fpsr.id(), 0x6020_0000_0010_00d4);
    assert_eq!(CoreRegister::Fpcr.id(), 0x6020_0000_0010_00d5);
}

#[test]
fn core_registers_are_told_apart_by_their_identifiers() {
    let all = core_registers();
    assert_eq!(all.len(), 75);
    for (i, a) in all.iter().enumerate() {
        assert!(!is_system_register(a.id()));
        assert!(a.offset() < KVM_REGS_SIZE);
        for b in &all[i + 1..] {
            assert_ne!(a.id(), b.id());
        }
    }
}
