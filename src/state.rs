use vstd::prelude::*;

use crate::flag::{with_flag, Flag, Status};
use crate::types::{Address, Data, Flags};

verus! {

/// The register file of the CPU.
#[derive(Debug)]
pub struct CpuState {
    /// Program Counter
    pub pc: Address,
    /// Stack Pointer
    pub sp: Address,
    /// Accumulator Register
    pub a: Data,
    /// Status Register
    pub sr: Status,
    /// Instruction Register
    pub ir: Data,
    /// Memory Address Register
    pub mar: Address,
    /// Memory Data Register
    pub mdr: Data,
}

/// Whether a byte has its top bit set, i.e. is negative as a signed byte.
pub open spec fn is_negative(v: Data) -> bool {
    v >= 128
}

/// The status byte `sr` after loading `v` into the accumulator: the zero
/// flag, then the negative flag, set from `v`; every other bit kept.
pub open spec fn loaded_status(sr: Flags, v: Data) -> Flags {
    with_flag(with_flag(sr, Flag::ZRO, v == 0), Flag::NEG, is_negative(v))
}

/// The bits of a status byte that no accumulator load touches.
pub open spec fn load_kept_bits(sr: Flags) -> Flags {
    sr & !(Flag::ZRO.mask() | Flag::NEG.mask())
}

/// The four ways a load can set the zero and negative bits, on two bytes
/// that agree outside those bits.
proof fn lemma_load_cases(x: u8, y: u8)
    requires
        x & !0x82u8 == y & !0x82u8,
    ensures
        ((x | 2u8) | 128u8) == ((y | 2u8) | 128u8),
        ((x | 2u8) & !128u8) == ((y | 2u8) & !128u8),
        ((x & !2u8) | 128u8) == ((y & !2u8) | 128u8),
        ((x & !2u8) & !128u8) == ((y & !2u8) & !128u8),
        ((x | 2u8) | 128u8) & !0x82u8 == x & !0x82u8,
        ((x | 2u8) & !128u8) & !0x82u8 == x & !0x82u8,
        ((x & !2u8) | 128u8) & !0x82u8 == x & !0x82u8,
        ((x & !2u8) & !128u8) & !0x82u8 == x & !0x82u8,
        ((((x | 2u8) | 128u8) | 2u8) | 128u8) == ((x | 2u8) | 128u8),
        ((((x | 2u8) & !128u8) | 2u8) & !128u8) == ((x | 2u8) & !128u8),
        ((((x & !2u8) | 128u8) & !2u8) | 128u8) == ((x & !2u8) | 128u8),
        ((((x & !2u8) & !128u8) & !2u8) & !128u8) == ((x & !2u8) & !128u8),
{
    assert(((x | 2u8) | 128u8) == ((y | 2u8) | 128u8)
        && ((x | 2u8) & !128u8) == ((y | 2u8) & !128u8)
        && ((x & !2u8) | 128u8) == ((y & !2u8) | 128u8)
        && ((x & !2u8) & !128u8) == ((y & !2u8) & !128u8)) by (bit_vector)
        requires
            x & !0x82u8 == y & !0x82u8,
    ;
    assert(((x | 2u8) | 128u8) & !0x82u8 == x & !0x82u8
        && ((x | 2u8) & !128u8) & !0x82u8 == x & !0x82u8
        && ((x & !2u8) | 128u8) & !0x82u8 == x & !0x82u8
        && ((x & !2u8) & !128u8) & !0x82u8 == x & !0x82u8) by (bit_vector);
    assert(((((x | 2u8) | 128u8) | 2u8) | 128u8) == ((x | 2u8) | 128u8)
        && ((((x | 2u8) & !128u8) | 2u8) & !128u8) == ((x | 2u8) & !128u8)
        && ((((x & !2u8) | 128u8) & !2u8) | 128u8) == ((x & !2u8) | 128u8)
        && ((((x & !2u8) & !128u8) & !2u8) & !128u8) == ((x & !2u8) & !128u8)) by (bit_vector);
}

/// A load keeps every bit but the zero and negative flags, and two status
/// bytes that agree on those kept bits are equal after loading the same byte.
/// So a load does not depend on earlier loads, and loading a byte twice is
/// the same as loading it once.
pub proof fn lemma_load_forgets_earlier(sr1: Flags, sr2: Flags, v: Data)
    requires
        load_kept_bits(sr1) == load_kept_bits(sr2),
    ensures
        load_kept_bits(loaded_status(sr1, v)) == load_kept_bits(sr1),
        loaded_status(sr1, v) == loaded_status(sr2, v),
        loaded_status(loaded_status(sr1, v), v) == loaded_status(sr1, v),
{
    assert((2u8 | 128u8) == 0x82u8) by (bit_vector);
    lemma_load_cases(sr1, sr2);
}

impl CpuState {
    /// Whether flag `f` is currently set.
    pub open spec fn flag(&self, f: Flag) -> bool {
        self.sr.has(f)
    }

    pub fn new() -> (r: CpuState)
        ensures
            r.pc == 0,
            r.sp == 0,
            r.a == 0,
            r.sr.bits() == 0,
            r.ir == 0,
            r.mar == 0,
            r.mdr == 0,
            forall|f: Flag| !r.flag(f),
    {
        CpuState { sr: Status::clear(), pc: 0, sp: 0, a: 0, ir: 0, mar: 0, mdr: 0 }
    }

    pub fn get_flag(&self, flag: Flag) -> (r: bool)
        ensures
            r == self.flag(flag),
    {
        self.sr.get(flag)
    }

    /// Forces one flag to `val`; every other bit of the status register is kept.
    pub fn set_flag(&mut self, flag: Flag, val: bool)
        ensures
            final(self).sr.bits() == with_flag(old(self).sr.bits(), flag, val),
            final(self).flag(flag) == val,
            forall|g: Flag| g != flag ==> final(self).flag(g) == old(self).flag(g),
            final(self).a == old(self).a,
            final(self).pc == old(self).pc,
            final(self).sp == old(self).sp,
            final(self).ir == old(self).ir,
            final(self).mar == old(self).mar,
            final(self).mdr == old(self).mdr,
    {
        self.sr.set(flag, val);
    }

    /// Loads the accumulator and recomputes the zero and negative flags from it.
    pub fn set_a(&mut self, val: Data)
        ensures
            final(self).a == val,
            final(self).flag(Flag::ZRO) == (val == 0),
            final(self).flag(Flag::NEG) == (val & 0x80 != 0),
            final(self).flag(Flag::NEG) == is_negative(val),
            final(self).sr.bits() == loaded_status(old(self).sr.bits(), val),
            final(self).pc == old(self).pc,
            final(self).sp == old(self).sp,
            final(self).ir == old(self).ir,
            final(self).mar == old(self).mar,
            final(self).mdr == old(self).mdr,
    {
        self.a = val;
        self.set_flag(Flag::ZRO, val == 0);
        self.set_flag(Flag::NEG, (val >> (crate::types::DATA_WIDTH - 1)) > 0);
        assert((val >> 7u8 > 0u8) == (val >= 128u8)) by (bit_vector);
        assert((val & 0x80u8 != 0u8) == (val >= 128u8)) by (bit_vector);
    }
}

} // verus!
