//! Bit layouts of the AArch64 syndrome register that describes a trapped access.

use vstd::prelude::*;
use vstd::std_specs::convert::FromSpecImpl;

verus! {

/// The exception class that a syndrome reports, as its six-bit code.
#[derive(Debug, Copy, Clone, PartialEq, Eq, Structural)]
pub struct ExceptionClass(pub u8);

impl ExceptionClass {
    /// A data abort taken from a lower exception level.
    pub const DATA_ABORT_LOWER: u8 = 0x24;

    /// A data abort taken without a change of exception level.
    pub const DATA_ABORT: u8 = 0x25;

    /// Whether this class is one of the two data aborts.
    pub open spec fn spec_is_data_abort(self) -> bool {
        self.0 == 0x24 || self.0 == 0x25
    }

    /// Whether this class is one of the two data aborts.
    #[verifier::when_used_as_spec(spec_is_data_abort)]
    pub fn is_data_abort(self) -> (r: bool)
        ensures
            r == self.spec_is_data_abort(),
    {
        self.0 == ExceptionClass::DATA_ABORT_LOWER || self.0 == ExceptionClass::DATA_ABORT
    }
}

/// The value of the exception syndrome register `ESR_EL2`.
#[derive(Debug, Copy, Clone, PartialEq, Eq, Structural)]
pub struct EsrEl2(pub u64);

impl EsrEl2 {
    /// Bits 0 to 24: the instruction specific syndrome.
    pub open spec fn spec_iss(self) -> u32 {
        (self.0 & 0x1ff_ffff) as u32
    }

    /// Bit 25: set when the trapped instruction is 32 bits long.
    pub open spec fn spec_il(self) -> bool {
        (self.0 >> 25) & 1 == 1
    }

    /// Bits 26 to 31: the exception class.
    pub open spec fn spec_ec(self) -> u8 {
        ((self.0 >> 26) & 0x3f) as u8
    }

    /// Bits 32 to 36: the second instruction specific syndrome.
    pub open spec fn spec_iss2(self) -> u8 {
        ((self.0 >> 32) & 0x1f) as u8
    }

    #[verifier::when_used_as_spec(spec_iss)]
    pub fn iss(self) -> (r: u32)
        ensures
            r == self.spec_iss(),
            r < 0x200_0000,
    {
        let v: u64 = self.0;
        assert(v & 0x1ff_ffff < 0x200_0000) by (bit_vector);
        (v & 0x1ff_ffff) as u32
    }

    #[verifier::when_used_as_spec(spec_il)]
    pub fn il(self) -> (r: bool)
        ensures
            r == self.spec_il(),
    {
        (self.0 >> 25) & 1 == 1
    }

    #[verifier::when_used_as_spec(spec_ec)]
    pub fn ec(self) -> (r: u8)
        ensures
            r == self.spec_ec(),
            r < 64,
    {
        let v: u64 = self.0;
        assert((v >> 26) & 0x3f < 64) by (bit_vector);
        ((v >> 26) & 0x3f) as u8
    }

    #[verifier::when_used_as_spec(spec_iss2)]
    pub fn iss2(self) -> (r: u8)
        ensures
            r == self.spec_iss2(),
            r < 32,
    {
        let v: u64 = self.0;
        assert((v >> 32) & 0x1f < 32) by (bit_vector);
        ((v >> 32) & 0x1f) as u8
    }
}

/// The fields of the syndrome as digits of its value: the low 25 bits, then
/// one bit, then six, then five.
pub proof fn lemma_esr_el2_fields(esr: EsrEl2)
    ensures
        esr.spec_iss() == esr.0 % 0x200_0000,
        esr.spec_il() == ((esr.0 / 0x200_0000) % 2 == 1),
        esr.spec_ec() == (esr.0 / 0x400_0000) % 64,
        esr.spec_iss2() == (esr.0 / 0x1_0000_0000) % 32,
{
    let v = esr.0;
    assert(v & 0x1ff_ffff == v % 0x200_0000 && (v >> 25) & 1 == (v / 0x200_0000) % 2 && (v >> 26)
        & 0x3f == (v / 0x400_0000) % 64 && (v >> 32) & 0x1f == (v / 0x1_0000_0000) % 32)
        by (bit_vector);
}

impl From<u64> for EsrEl2 {
    fn from(value: u64) -> (esr: Self) {
        EsrEl2(value)
    }
}

impl FromSpecImpl<u64> for EsrEl2 {
    open spec fn obeys_from_spec() -> bool {
        true
    }

    open spec fn from_spec(value: u64) -> Self {
        EsrEl2(value)
    }
}

/// The instruction specific syndrome of a data abort.
#[derive(Debug, Copy, Clone, PartialEq, Eq, Structural)]
pub struct IssDataAbort(pub u32);

impl IssDataAbort {
    /// Bits 0 to 5: the data fault status code.
    pub open spec fn spec_dfsc(self) -> u8 {
        (self.0 & 0x3f) as u8
    }

    /// Bit 6: the access was a write, not a read.
    pub open spec fn spec_wnr(self) -> bool {
        (self.0 >> 6) & 1 == 1
    }

    /// Bit 7: the fault came from a stage 2 walk for a stage 1 walk.
    pub open spec fn spec_s1ptw(self) -> bool {
        (self.0 >> 7) & 1 == 1
    }

    /// Bit 8: the fault came from a cache maintenance instruction.
    pub open spec fn spec_cm(self) -> bool {
        (self.0 >> 8) & 1 == 1
    }

    /// Bit 9: the external abort type.
    pub open spec fn spec_ea(self) -> bool {
        (self.0 >> 9) & 1 == 1
    }

    /// Bit 10: the fault address register is not valid.
    pub open spec fn spec_fnv(self) -> bool {
        (self.0 >> 10) & 1 == 1
    }

    /// Bits 11 and 12: the synchronous error type.
    pub open spec fn spec_set(self) -> u8 {
        ((self.0 >> 11) & 0x3) as u8
    }

    /// Bit 13: the fault came from the use of `VNCR_EL2`.
    pub open spec fn spec_vncr(self) -> bool {
        (self.0 >> 13) & 1 == 1
    }

    /// Bit 14: the instruction had acquire or release semantics.
    pub open spec fn spec_ar(self) -> bool {
        (self.0 >> 14) & 1 == 1
    }

    /// Bit 15: the register of the access is 64 bits wide.
    pub open spec fn spec_sf(self) -> bool {
        (self.0 >> 15) & 1 == 1
    }

    /// Bits 16 to 20: the number of the register of the access.
    pub open spec fn spec_srt(self) -> u8 {
        ((self.0 >> 16) & 0x1f) as u8
    }

    /// Bit 21: the loaded value is to be sign-extended.
    pub open spec fn spec_sse(self) -> bool {
        (self.0 >> 21) & 1 == 1
    }

    /// Bits 22 and 23: the binary logarithm of the access size in bytes.
    pub open spec fn spec_sas(self) -> u8 {
        ((self.0 >> 22) & 0x3) as u8
    }

    /// Bit 24: the fields that describe the access are valid.
    pub open spec fn spec_isv(self) -> bool {
        (self.0 >> 24) & 1 == 1
    }

    #[verifier::when_used_as_spec(spec_dfsc)]
    pub fn dfsc(self) -> (r: u8)
        ensures
            r == self.spec_dfsc(),
            r < 64,
    {
        let v: u32 = self.0;
        assert(v & 0x3f < 64) by (bit_vector);
        (v & 0x3f) as u8
    }

    #[verifier::when_used_as_spec(spec_wnr)]
    pub fn wnr(self) -> (r: bool)
        ensures
            r == self.spec_wnr(),
    {
        (self.0 >> 6) & 1 == 1
    }

    #[verifier::when_used_as_spec(spec_s1ptw)]
    pub fn s1ptw(self) -> (r: bool)
        ensures
            r == self.spec_s1ptw(),
    {
        (self.0 >> 7) & 1 == 1
    }

    #[verifier::when_used_as_spec(spec_cm)]
    pub fn cm(self) -> (r: bool)
        ensures
            r == self.spec_cm(),
    {
        (self.0 >> 8) & 1 == 1
    }

    #[verifier::when_used_as_spec(spec_ea)]
    pub fn ea(self) -> (r: bool)
        ensures
            r == self.spec_ea(),
    {
        (self.0 >> 9) & 1 == 1
    }

    #[verifier::when_used_as_spec(spec_fnv)]
    pub fn fnv(self) -> (r: bool)
        ensures
            r == self.spec_fnv(),
    {
        (self.0 >> 10) & 1 == 1
    }

    #[verifier::when_used_as_spec(spec_set)]
    pub fn set(self) -> (r: u8)
        ensures
            r == self.spec_set(),
            r < 4,
    {
        let v: u32 = self.0;
        assert((v >> 11) & 0x3 < 4) by (bit_vector);
        ((v >> 11) & 0x3) as u8
    }

    #[verifier::when_used_as_spec(spec_vncr)]
    pub fn vncr(self) -> (r: bool)
        ensures
            r == self.spec_vncr(),
    {
        (self.0 >> 13) & 1 == 1
    }

    #[verifier::when_used_as_spec(spec_ar)]
    pub fn ar(self) -> (r: bool)
        ensures
            r == self.spec_ar(),
    {
        (self.0 >> 14) & 1 == 1
    }

    #[verifier::when_used_as_spec(spec_sf)]
    pub fn sf(self) -> (r: bool)
        ensures
            r == self.spec_sf(),
    {
        (self.0 >> 15) & 1 == 1
    }

    #[verifier::when_used_as_spec(spec_srt)]
    pub fn srt(self) -> (r: u8)
        ensures
            r == self.spec_srt(),
            r < 32,
    {
        let v: u32 = self.0;
        assert((v >> 16) & 0x1f < 32) by (bit_vector);
        ((v >> 16) & 0x1f) as u8
    }

    #[verifier::when_used_as_spec(spec_sse)]
    pub fn sse(self) -> (r: bool)
        ensures
            r == self.spec_sse(),
    {
        (self.0 >> 21) & 1 == 1
    }

    #[verifier::when_used_as_spec(spec_sas)]
    pub fn sas(self) -> (r: u8)
        ensures
            r == self.spec_sas(),
            r < 4,
    {
        let v: u32 = self.0;
        assert((v >> 22) & 0x3 < 4) by (bit_vector);
        ((v >> 22) & 0x3) as u8
    }

    #[verifier::when_used_as_spec(spec_isv)]
    pub fn isv(self) -> (r: bool)
        ensures
            r == self.spec_isv(),
    {
        (self.0 >> 24) & 1 == 1
    }
}

/// The fields that describe the access as digits of the syndrome's value.
pub proof fn lemma_iss_data_abort_fields(iss: IssDataAbort)
    ensures
        iss.spec_wnr() == ((iss.0 / 0x40) % 2 == 1),
        iss.spec_sf() == ((iss.0 / 0x8000) % 2 == 1),
        iss.spec_srt() == (iss.0 / 0x1_0000) % 32,
        iss.spec_sse() == ((iss.0 / 0x20_0000) % 2 == 1),
        iss.spec_sas() == (iss.0 / 0x40_0000) % 4,
        iss.spec_isv() == ((iss.0 / 0x100_0000) % 2 == 1),
{
    let v = iss.0;
    assert((v >> 6) & 1 == (v / 0x40) % 2 && (v >> 15) & 1 == (v / 0x8000) % 2 && (v >> 16) & 0x1f
        == (v / 0x1_0000) % 32 && (v >> 21) & 1 == (v / 0x20_0000) % 2 && (v >> 22) & 0x3 == (v
        / 0x40_0000) % 4 && (v >> 24) & 1 == (v / 0x100_0000) % 2) by (bit_vector);
}

impl From<u32> for IssDataAbort {
    fn from(value: u32) -> (iss: Self) {
        IssDataAbort(value)
    }
}

impl FromSpecImpl<u32> for IssDataAbort {
    open spec fn obeys_from_spec() -> bool {
        true
    }

    open spec fn from_spec(value: u32) -> Self {
        IssDataAbort(value)
    }
}

} // verus!
