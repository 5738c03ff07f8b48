//! Emulation of guest loads and stores that trapped to the hypervisor with a
//! syndrome that describes them.

use crate::arch::aarch64::regs::{EsrEl2, ExceptionClass, IssDataAbort};
use crate::bytes::{
    le_bytes, le_value, lemma_le_value_bound, lemma_pow256_positive, lemma_pow256_values,
    load_value, pow256, power_of_256, store_bytes,
};
use crate::mshv::MshvVcpu;
use crate::vm::{HypervisorVmError, VmOps};
use crate::StandardRegisters;
use vstd::prelude::*;

verus! {

/// Whether the syndrome describes an access that can be emulated from it
/// alone: its class is a data abort, from the same or a lower exception
/// level, and it says that its description of the access is valid.
pub open spec fn spec_decodable(syndrome: u64) -> bool {
    let esr = EsrEl2(syndrome);
    ExceptionClass(esr.spec_ec()).spec_is_data_abort() && IssDataAbort(esr.spec_iss()).spec_isv()
}

/// Whether the syndrome describes an access that can be emulated from it
/// alone.
#[verifier::when_used_as_spec(spec_decodable)]
pub fn decodable(syndrome: u64) -> (yes: bool)
    ensures
        yes == spec_decodable(syndrome),
{
    let esr = EsrEl2::from(syndrome);
    ExceptionClass(esr.ec()).is_data_abort() && IssDataAbort::from(esr.iss()).isv()
}

/// The description of the access that the syndrome carries.
pub open spec fn spec_access(syndrome: u64) -> IssDataAbort {
    IssDataAbort(EsrEl2(syndrome).spec_iss())
}

/// Size of the access in bytes: two to the power of the size field.
pub open spec fn spec_access_size(iss: IssDataAbort) -> nat {
    if iss.spec_sas() == 0 {
        1
    } else if iss.spec_sas() == 1 {
        2
    } else if iss.spec_sas() == 2 {
        4
    } else {
        8
    }
}

/// Size of the access in bytes.
pub fn access_size(iss: IssDataAbort) -> (len: usize)
    ensures
        len == spec_access_size(iss),
{
    let sas: u8 = iss.sas();
    assert(1usize << sas == (if sas == 0 {
        1usize
    } else if sas == 1 {
        2usize
    } else if sas == 2 {
        4usize
    } else {
        8usize
    })) by (bit_vector)
        requires
            sas < 4,
    ;
    1usize << sas
}

/// What a store takes from register `index`: the register's value, or zero
/// from index 31, the zero register.
pub open spec fn spec_source_value(gprs: [u64; 31], index: u8) -> u64 {
    if index < 31 {
        gprs[index as int]
    } else {
        0
    }
}

/// The bytes that a store hands to the device: the low bytes of its register,
/// as many as the access is wide, least significant first.
pub open spec fn spec_store_data(regs: StandardRegisters, iss: IssDataAbort) -> Seq<u8> {
    le_bytes(spec_source_value(regs.spec_get_regs(), iss.spec_srt()) as nat, spec_access_size(iss))
}

/// The bytes that a store hands to the device.
pub fn store_data(regs: &StandardRegisters, iss: IssDataAbort) -> (data: Vec<u8>)
    ensures
        data@ == spec_store_data(*regs, iss),
{
    let gprs = regs.get_regs();
    let index = iss.srt();
    let value: u64 = if index < 31 {
        gprs[index as usize]
    } else {
        0
    };
    store_bytes(value, access_size(iss))
}

/// The value `raw`, read from `len` bytes as a signed number in two's
/// complement, as a 64-bit register holds it.
pub open spec fn sign_extended(raw: nat, len: nat) -> nat {
    if 2 * raw >= pow256(len) {
        (raw + pow256(8) - pow256(len)) as nat
    } else {
        raw
    }
}

/// The number that `raw` stands for where `len` bytes hold a signed number in
/// two's complement.
pub open spec fn signed_value(raw: nat, len: nat) -> int {
    if 2 * raw >= pow256(len) {
        raw - pow256(len)
    } else {
        raw as int
    }
}

/// Sign extension keeps the signed number: the eight bytes of the register
/// stand for what the bytes of the access stood for.
pub proof fn lemma_sign_extended(raw: nat, len: nat)
    requires
        1 <= len <= 8,
        raw < pow256(len),
    ensures
        sign_extended(raw, len) < pow256(8),
        signed_value(sign_extended(raw, len), 8) == signed_value(raw, len),
        len == 8 ==> sign_extended(raw, len) == raw,
{
    lemma_pow256_values();
}

/// What a load of `data` leaves in its register: the number that the bytes
/// spell; where the syndrome asks for sign extension, that number
/// sign-extended from the width of the access, and cut to 32 bits where the
/// register is not 64 bits wide.
pub open spec fn spec_loaded_value(data: Seq<u8>, iss: IssDataAbort) -> u64 {
    let raw = le_value(data);
    if iss.spec_sse() {
        let wide = sign_extended(raw, data.len());
        if iss.spec_sf() {
            wide as u64
        } else {
            (wide % 0x1_0000_0000) as u64
        }
    } else {
        raw as u64
    }
}

/// What a load of `data` leaves in its register.
pub fn loaded_value(data: &[u8], iss: IssDataAbort) -> (value: u64)
    requires
        1 <= data@.len() <= 8,
    ensures
        value == spec_loaded_value(data@, iss),
{
    let len = data.len();
    let mut value = load_value(data);
    proof {
        lemma_le_value_bound(data@);
        lemma_pow256_values();
    }
    if iss.sse() {
        if len < 8 {
            let limit = power_of_256(len);
            assert(limit >= 0x100) by {
                reveal_with_fuel(pow256, 10);
            }
            if value >= limit / 2 {
                value = value + (u64::MAX - limit + 1);
            }
        }
        if !iss.sf() {
            let wide = value;
            assert(wide & 0xffff_ffff == wide % 0x1_0000_0000) by (bit_vector);
            value = value & 0xffff_ffff;
        }
    }
    value
}

/// The registers with `value` loaded into register `index`. Index 31 names
/// no register to load into, and the value is dropped.
pub open spec fn spec_load_into(gprs: [u64; 31], index: u8, value: u64) -> [u64; 31] {
    if index < 31 {
        vstd::array::spec_array_update(gprs, index as int, value)
    } else {
        gprs
    }
}

/// The address of the instruction after the trapped one, which is four bytes
/// long if the syndrome says so and two bytes long if not. The address wraps
/// at two to the power 64.
pub open spec fn spec_next_pc(pc: u64, esr: EsrEl2) -> u64 {
    if esr.spec_il() {
        pc.wrapping_add(4)
    } else {
        pc.wrapping_add(2)
    }
}

/// The registers of the vCPU once the access that `syndrome` describes is
/// done: a load has put what `data` gives into its register, a store has
/// changed none, and the program counter is past the instruction.
pub open spec fn spec_complete(
    regs: StandardRegisters,
    syndrome: u64,
    data: Seq<u8>,
) -> StandardRegisters {
    let iss = spec_access(syndrome);
    let gprs = if iss.spec_wnr() {
        regs.spec_get_regs()
    } else {
        spec_load_into(regs.spec_get_regs(), iss.spec_srt(), spec_loaded_value(data, iss))
    };
    regs.spec_set_pc(spec_next_pc(regs.spec_get_pc(), EsrEl2(syndrome))).spec_set_regs(gprs)
}

/// The registers of the vCPU once the access that `syndrome` describes is
/// done, where `data` is what the device gave to a load.
pub fn complete_access(regs: &StandardRegisters, syndrome: u64, data: &[u8]) -> (done: StandardRegisters)
    requires
        !spec_access(syndrome).spec_wnr() ==> 1 <= data@.len() <= 8,
    ensures
        done == spec_complete(*regs, syndrome, data@),
{
    let esr = EsrEl2::from(syndrome);
    let iss = IssDataAbort::from(esr.iss());
    let mut done = *regs;
    let mut gprs = done.get_regs();
    if !iss.wnr() {
        let index = iss.srt();
        let value = loaded_value(data, iss);
        if index < 31 {
            gprs[index as usize] = value;
        }
    }
    let pc = done.get_pc();
    done.set_pc(
        if esr.il() {
            pc.wrapping_add(4)
        } else {
            pc.wrapping_add(2)
        },
    );
    done.set_regs(gprs);
    done
}

/// A store from register 31 hands the device zeros: that index names the
/// zero register, not a general-purpose register.
pub proof fn lemma_store_from_zero_register(regs: StandardRegisters, iss: IssDataAbort)
    requires
        iss.spec_srt() == 31,
    ensures
        spec_store_data(regs, iss) == Seq::new(spec_access_size(iss), |i: int| 0u8),
{
    assert forall|i: int| 0 <= i < spec_access_size(iss) implies spec_store_data(regs, iss)[i]
        == 0u8 by {
        lemma_pow256_positive(i as nat);
        vstd::arithmetic::div_mod::lemma_basic_div(0, pow256(i as nat) as int);
    }
}

/// What an access leaves of the registers: the program counter is past the
/// instruction; a load into a register below 31 has set that register and no
/// other; a store, and a load into register 31, have set none. The stack
/// pointer, the processor state and the backend of the registers stay.
pub proof fn lemma_complete_access(regs: StandardRegisters, syndrome: u64, data: Seq<u8>)
    ensures
        ({
            let done = spec_complete(regs, syndrome, data);
            let iss = spec_access(syndrome);
            &&& done.spec_get_pc() == spec_next_pc(regs.spec_get_pc(), EsrEl2(syndrome))
            &&& done.spec_get_sp() == regs.spec_get_sp()
            &&& done.spec_get_pstate() == regs.spec_get_pstate()
            &&& done.backend() == regs.backend()
            &&& forall|i: int|
                0 <= i < 31 ==> #[trigger] done.spec_get_regs()[i] == if !iss.spec_wnr() && i
                    == iss.spec_srt() {
                    spec_loaded_value(data, iss)
                } else {
                    regs.spec_get_regs()[i]
                }
            &&& iss.spec_wnr() || iss.spec_srt() == 31 ==> done == regs.spec_set_pc(
                done.spec_get_pc(),
            )
        }),
{
}

/// A syndrome of any class but the two data aborts is not handled: the
/// decode returns `false` and leaves the emulator, and so the registers of
/// its vCPU, as they were.
pub proof fn lemma_other_classes_not_handled<V: VmOps>(
    before: Emulator<V>,
    after: Emulator<V>,
    res: Result<bool, HypervisorVmError>,
)
    requires
        !ExceptionClass(EsrEl2(before.context.syndrome).spec_ec()).spec_is_data_abort(),
        before.decode_outcome(after, res),
    ensures
        res == Ok::<bool, HypervisorVmError>(false),
        after == before,
{
}

/// What the hypervisor reports of one trapped access, with the vCPU that
/// made it.
pub struct MshvEmulatorContext<V> {
    pub vcpu: MshvVcpu<V>,
    /// The guest virtual address of the access and the guest physical
    /// address that the hypervisor resolved it to.
    pub map: (u64, u64),
    pub syndrome: u64,
    pub instruction_bytes: [u8; 4],
    pub instruction_byte_count: u8,
    pub interruption_pending: bool,
    pub pc: u64,
}

/// Why an access was not emulated.
#[derive(Debug, Copy, Clone, PartialEq, Eq, Structural)]
pub enum EmulatorError {
    /// An interruption was pending when the access trapped. How it orders
    /// with the access is not modelled.
    InterruptionPending,
    /// The syndrome does not describe the access.
    DecodeFailed,
    /// The device model failed the access.
    Mmio(HypervisorVmError),
}

/// Emulates the access of one trap.
pub struct Emulator<V> {
    pub context: MshvEmulatorContext<V>,
}

impl<V: VmOps> Emulator<V> {
    /// This emulator with `regs` for the registers of its vCPU.
    pub open spec fn with_regs(self, regs: StandardRegisters) -> Self {
        Emulator {
            context: MshvEmulatorContext {
                vcpu: MshvVcpu { regs: regs, vm_ops: self.context.vcpu.vm_ops },
                ..self.context
            },
        }
    }

    /// The registers of the vCPU once the access is done with `data` from or
    /// for the device.
    pub open spec fn completed(self, data: Seq<u8>) -> Self {
        self.with_regs(spec_complete(self.context.vcpu.regs, self.context.syndrome, data))
    }

    /// Whether a decode that starts from `self` can end in `after` and return
    /// `res`.
    ///
    /// A syndrome that cannot be decoded is not handled, and nothing changes.
    /// A store hands its bytes to the device at the guest physical address,
    /// a load reads as many bytes as the access is wide into zeroed bytes;
    /// where the VM has no device model, the store goes nowhere and the load
    /// reads zeros. If the device fails the access its error is returned and
    /// nothing changes; if not, the access is handled and the registers are
    /// those of the completed access.
    pub open spec fn decode_outcome(self, after: Self, res: Result<bool, HypervisorVmError>) -> bool {
        let regs = self.context.vcpu.regs;
        let gpa = self.context.map.1;
        let iss = spec_access(self.context.syndrome);
        let zeros = Seq::new(spec_access_size(iss), |i: int| 0u8);
        if !spec_decodable(self.context.syndrome) {
            res == Ok::<bool, HypervisorVmError>(false) && after == self
        } else if iss.spec_wnr() {
            let data = spec_store_data(regs, iss);
            match (self.context.vcpu.vm_ops, res) {
                (None, _) => res == Ok::<bool, HypervisorVmError>(true) && after == self.completed(data),
                (Some(ops), Ok(handled)) => handled && after == self.completed(data)
                    && ops.mmio_write_outcome(gpa, data, None),
                (Some(ops), Err(e)) => after == self && ops.mmio_write_outcome(gpa, data, Some(e)),
            }
        } else {
            match (self.context.vcpu.vm_ops, res) {
                (None, _) => res == Ok::<bool, HypervisorVmError>(true) && after == self.completed(
                    zeros,
                ),
                (Some(ops), Ok(handled)) => handled && exists|data: Seq<u8>|
                    {
                        &&& data.len() == zeros.len()
                        &&& #[trigger] ops.mmio_read_outcome(gpa, zeros, data, None)
                        &&& after == self.completed(data)
                    },
                (Some(ops), Err(e)) => after == self && exists|data: Seq<u8>|
                    {
                        &&& data.len() == zeros.len()
                        &&& #[trigger] ops.mmio_read_outcome(gpa, zeros, data, Some(e))
                    },
            }
        }
    }

    /// Create a new emulator instance.
    pub fn new(context: MshvEmulatorContext<V>) -> (emulator: Self)
        ensures
            emulator.context == context,
    {
        Emulator { context }
    }

    /// Decode the instruction using the syndrome register, and perform the
    /// access it describes. Returns whether the access was handled.
    pub fn decode_with_syndrome(&mut self) -> (res: Result<bool, HypervisorVmError>)
        ensures
            old(self).decode_outcome(*final(self), res),
    {
        let syndrome = self.context.syndrome;
        if !decodable(syndrome) {
            return Ok(false);
        }
        let esr_el2 = EsrEl2::from(syndrome);
        let iss = IssDataAbort::from(esr_el2.iss());
        let len = access_size(iss);
        let gpa = self.context.map.1;

        let done = if iss.wnr() {
            let data = store_data(&self.context.vcpu.regs, iss);
            if let Some(vm_ops) = &self.context.vcpu.vm_ops {
                let written = vm_ops.mmio_write(gpa, data.as_slice());
                if let Err(e) = written {
                    return Err(e);
                }
            }
            complete_access(&self.context.vcpu.regs, syndrome, data.as_slice())
        } else {
            let mut data: Vec<u8> = vec![0u8; len];
            let ghost zeros = data@;
            assert(zeros =~= Seq::new(spec_access_size(iss), |i: int| 0u8));
            if let Some(vm_ops) = &self.context.vcpu.vm_ops {
                let read = vm_ops.mmio_read(gpa, data.as_mut_slice());
                if let Err(e) = read {
                    return Err(e);
                }
            }
            complete_access(&self.context.vcpu.regs, syndrome, data.as_slice())
        };
        self.context.vcpu.regs = done;
        Ok(true)
    }

    /// Emulate the instruction.
    ///
    /// Fails, and changes nothing, if an interruption is pending or the
    /// syndrome cannot be decoded; fails with the device's error if the
    /// device fails the access. Returns `false` once the access is done:
    /// there is nothing left for the caller to emulate.
    pub fn emulate(&mut self) -> (res: Result<bool, EmulatorError>)
        ensures
            old(self).context.interruption_pending ==> res == Err::<bool, EmulatorError>(
                EmulatorError::InterruptionPending,
            ) && *final(self) == *old(self),
            !old(self).context.interruption_pending && !spec_decodable(old(self).context.syndrome)
                ==> res == Err::<bool, EmulatorError>(EmulatorError::DecodeFailed) && *final(self)
                == *old(self),
            !old(self).context.interruption_pending && spec_decodable(old(self).context.syndrome)
                ==> match res {
                Ok(more) => !more && old(self).decode_outcome(*final(self), Ok(true)),
                Err(EmulatorError::Mmio(e)) => old(self).decode_outcome(*final(self), Err(e)),
                Err(_) => false,
            },
    {
        if self.context.interruption_pending {
            return Err(EmulatorError::InterruptionPending);
        }
        match self.decode_with_syndrome() {
            Ok(true) => Ok(false),
            Ok(false) => Err(EmulatorError::DecodeFailed),
            Err(e) => Err(EmulatorError::Mmio(e)),
        }
    }
}

} // verus!
