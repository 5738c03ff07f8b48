use hypervisor::kvm::aarch64::KvmRegs;
use hypervisor::kvm::{KvmClockData, KvmIrqRoutingEntry, KvmMpState};
use hypervisor::mshv::aarch64::MshvStandardRegisters;
use hypervisor::mshv::{MshvClockData, MshvMsiRoutingEntry};
use hypervisor::{
    new, vec_with_array_field, ClockData, HypervisorError, HypervisorType, IoEventAddress,
    IrqRoutingEntry, MpState, StandardRegisters, UserMemoryRegion, USER_MEMORY_REGION_ADJUSTABLE,
    USER_MEMORY_REGION_EXECUTE, USER_MEMORY_REGION_LOG_DIRTY, USER_MEMORY_REGION_READ,
    USER_MEMORY_REGION_WRITE,
};

#[test]
fn kvm_is_taken_where_it_is_there() {
    assert_eq!(new(Ok(true), Ok(true)), Ok(HypervisorType::Kvm));
    assert_eq!(new(Ok(true), Ok(false)), Ok(HypervisorType::Kvm));
    assert_eq!(new(Ok(true), Err(HypervisorError::HypervisorAvailableCheck)), Ok(HypervisorType::Kvm));
}

#[test]
fn the_microsoft_hypervisor_is_taken_where_kvm_is_not_there() {
    assert_eq!(new(Ok(false), Ok(true)), Ok(HypervisorType::Mshv));
}

#[test]
fn no_hypervisor_is_an_error() {
    assert_eq!(new(Ok(false), Ok(false)), Err(HypervisorError::HypervisorCreate));
}

#[test]
fn a_failed_probe_is_handed_on() {
    let failed = Err(HypervisorError::HypervisorAvailableCheck);
    assert_eq!(new(failed, Ok(true)), Err(HypervisorError::HypervisorAvailableCheck));
    assert_eq!(new(Ok(false), failed), Err(HypervisorError::HypervisorAvailableCheck));
}

#[test]
fn a_vector_with_room_for_an_array_behind_its_first_element() {
    // One u64 header and `count` u32 entries behind it.
    assert_eq!(vec_with_array_field::<u64, u32>(0), vec![0u64]);
    assert_eq!(vec_with_array_field::<u64, u32>(1), vec![0u64; 2]);
    assert_eq!(vec_with_array_field::<u64, u32>(2), vec![0u64; 2]);
    assert_eq!(vec_with_array_field::<u64, u32>(3), vec![0u64; 3]);
    assert_eq!(vec_with_array_field::<u64, u32>(100).len(), 51);
    assert_eq!(vec_with_array_field::<u32, u64>(3), vec![0u32; 7]);
    assert_eq!(vec_with_array_field::<u8, u8>(5), vec![0u8; 6]);
    assert_eq!(vec_with_array_field::<(u32, u32), [u8; 3]>(5), vec![(0u32, 0u32); 3]);
    let regions = vec_with_array_field::<UserMemoryRegion, u8>(1);
    assert_eq!(regions, vec![UserMemoryRegion::default(), UserMemoryRegion::default()]);
}

#[test]
fn memory_region_flags_are_single_bits() {
    assert_eq!(USER_MEMORY_REGION_READ, 0b00001);
    assert_eq!(USER_MEMORY_REGION_WRITE, 0b00010);
    assert_eq!(USER_MEMORY_REGION_EXECUTE, 0b00100);
    assert_eq!(USER_MEMORY_REGION_LOG_DIRTY, 0b01000);
    assert_eq!(USER_MEMORY_REGION_ADJUSTABLE, 0b10000);
    let region = UserMemoryRegion {
        slot: 3,
        guest_phys_addr: 0x4000_0000,
        memory_size: 0x1000,
        userspace_addr: 0x7f00_0000_0000,
        flags: USER_MEMORY_REGION_READ | USER_MEMORY_REGION_WRITE | USER_MEMORY_REGION_LOG_DIRTY,
    };
    assert_eq!(region.flags, 0b01011);
    assert_eq!(
        UserMemoryRegion::default(),
        UserMemoryRegion { slot: 0, guest_phys_addr: 0, memory_size: 0, userspace_addr: 0, flags: 0 }
    );
}

#[test]
fn resetting_the_flags_of_a_kvm_clock_clears_only_them() {
    let data = KvmClockData {
        clock: 0x1234,
        flags: 0x6,
        pad0: 9,
        realtime: 77,
        host_tsc: 88,
        pad: [1, 2, 3, 4],
    };
    let mut clock = ClockData::Kvm(data);
    clock.reset_flags();
    assert_eq!(clock, ClockData::Kvm(KvmClockData { flags: 0, ..data }));
    clock.reset_flags();
    assert_eq!(clock, ClockData::Kvm(KvmClockData { flags: 0, ..data }));
}

#[test]
fn resetting_the_flags_of_another_clock_changes_nothing() {
    let mut clock = ClockData::Mshv(MshvClockData { ref_time: 0xffff });
    clock.reset_flags();
    assert_eq!(clock, ClockData::Mshv(MshvClockData { ref_time: 0xffff }));
}

#[test]
fn default_registers_are_zero() {
    assert_eq!(StandardRegisters::get_default_kvm(), StandardRegisters::Kvm(KvmRegs::default()));
    let kvm = StandardRegisters::get_default_kvm().kvm();
    assert_eq!(kvm.regs.regs, [0u64; 31]);
    assert_eq!((kvm.regs.sp, kvm.regs.pc, kvm.regs.pstate, kvm.sp_el1, kvm.elr_el1), (0, 0, 0, 0, 0));
    assert_eq!(kvm.spsr, [0u64; 5]);
    assert_eq!(kvm.fp_regs.vregs, [0u128; 32]);
    assert_eq!((kvm.fp_regs.fpsr, kvm.fp_regs.fpcr, kvm.fp_regs.reserved), (0, 0, [0, 0]));
    let mshv = StandardRegisters::get_default_mshv().mshv();
    assert_eq!(mshv, MshvStandardRegisters::default());
    assert_eq!(mshv.regs, [0u64; 31]);
    assert_eq!((mshv.sp, mshv.pc, mshv.pstate, mshv.sp_el1), (0, 0, 0, 0));
    assert_eq!((mshv.elr_el1, mshv.fpsr, mshv.fpcr), (0, 0, 0));
}

#[test]
fn register_accessors_reach_the_registers_of_either_backend() {
    for mut regs in [StandardRegisters::get_default_kvm(), StandardRegisters::get_default_mshv()] {
        let start = regs;
        let mut gprs = [0u64; 31];
        gprs[30] = 30;
        gprs[0] = 1;
        regs.set_regs(gprs);
        assert_eq!(regs.get_regs(), gprs);
        assert_eq!((regs.get_sp(), regs.get_pc(), regs.get_pstate()), (0, 0, 0));
        regs.set_sp(0x10);
        assert_eq!((regs.get_sp(), regs.get_pc(), regs.get_pstate()), (0x10, 0, 0));
        regs.set_pc(0x20);
        assert_eq!((regs.get_sp(), regs.get_pc(), regs.get_pstate()), (0x10, 0x20, 0));
        regs.set_pstate(0x30);
        assert_eq!((regs.get_sp(), regs.get_pc(), regs.get_pstate()), (0x10, 0x20, 0x30));
        assert_eq!(regs.get_regs(), gprs);
        assert_eq!(regs.hypervisor_type(), start.hypervisor_type());
    }
    let mut regs = StandardRegisters::get_default_kvm();
    regs.set_pc(5);
    let mut expected = KvmRegs::default();
    expected.regs.pc = 5;
    assert_eq!(regs.kvm(), expected);
}

#[test]
fn values_of_either_backend() {
    assert_ne!(MpState::Kvm(KvmMpState { mp_state: 1 }), MpState::Mshv);
    assert_ne!(IoEventAddress::Pio(0x3f8), IoEventAddress::Mmio(0x3f8));
    let kvm = IrqRoutingEntry::Kvm(KvmIrqRoutingEntry { gsi: 5, type_: 2, flags: 0, pad: 0, u: [0; 8] });
    let mshv = IrqRoutingEntry::Mshv(MshvMsiRoutingEntry {
        gsi: 5,
        address_lo: 0xfee0_0000,
        address_hi: 0,
        data: 0x21,
    });
    assert_ne!(kvm, mshv);
}

#[test]
fn values_know_their_backend() {
    assert_eq!(StandardRegisters::get_default_kvm().hypervisor_type(), HypervisorType::Kvm);
    assert_eq!(StandardRegisters::get_default_mshv().hypervisor_type(), HypervisorType::Mshv);
    let mut clock = ClockData::Mshv(MshvClockData { ref_time: 1 });
    assert_eq!(clock.hypervisor_type(), HypervisorType::Mshv);
    clock.reset_flags();
    assert_eq!(clock.hypervisor_type(), HypervisorType::Mshv);
    let clock = ClockData::Kvm(KvmClockData {
        clock: 0,
        flags: 0,
        pad0: 0,
        realtime: 0,
        host_tsc: 0,
        pad: [0; 4],
    });
    assert_eq!(clock.hypervisor_type(), HypervisorType::Kvm);
    let kvm = hypervisor::CpuState::Kvm(hypervisor::kvm::aarch64::VcpuKvmState::default());
    assert_eq!(kvm.hypervisor_type(), HypervisorType::Kvm);
    let mshv = hypervisor::CpuState::Mshv(hypervisor::mshv::aarch64::VcpuMshvState {
        regs: MshvStandardRegisters::default(),
    });
    assert_eq!(mshv.hypervisor_type(), HypervisorType::Mshv);
}
