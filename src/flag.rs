use vstd::prelude::*;

use crate::types::Flags;

verus! {

/// A named bit of the status register.
#[allow(non_camel_case_types, clippy::upper_case_acronyms)]
#[derive(Debug, Clone, Copy, PartialEq, Eq, Structural)]
pub enum Flag {
    /// Zero
    ZRO,
    /// Negative
    NEG,
}

impl Flag {
    /// The fixed bit pattern of a flag.
    pub open spec fn mask(self) -> Flags {
        match self {
            Flag::ZRO => 0b0000_0010u8,
            Flag::NEG => 0b1000_0000u8,
        }
    }

    pub fn to_mask(self) -> (r: Flags)
        ensures
            r == self.mask(),
    {
        match self {
            Flag::ZRO => 0b0000_0010,
            Flag::NEG => 0b1000_0000,
        }
    }
}

/// Whether flag `f` is set in the status byte `sr`.
pub open spec fn flag_in(sr: Flags, f: Flag) -> bool {
    sr & f.mask() != 0
}

/// The status byte `sr` with flag `f` forced to `v`, every other bit kept.
pub open spec fn with_flag(sr: Flags, f: Flag, v: bool) -> Flags {
    if v {
        sr | f.mask()
    } else {
        sr & !f.mask()
    }
}

/// Setting one flag never disturbs a different flag.
pub proof fn lemma_flag_isolation(sr: Flags, f1: Flag, f2: Flag, v: bool)
    requires
        f1 != f2,
    ensures
        flag_in(with_flag(sr, f1, v), f2) == flag_in(sr, f2),
        with_flag(sr, f1, v) & f2.mask() == sr & f2.mask(),
{
    let a = f1.mask();
    let b = f2.mask();
    assert(a & b == 0u8) by {
        assert(2u8 & 128u8 == 0u8 && 128u8 & 2u8 == 0u8) by (bit_vector);
    }
    assert((sr | a) & b == sr & b && (sr & !a) & b == sr & b) by (bit_vector)
        requires
            a & b == 0u8,
    ;
}

/// The status byte `sr` after setting flag `f` to each value of `vs` in turn.
pub open spec fn with_flag_each(sr: Flags, f: Flag, vs: Seq<bool>) -> Flags
    decreases vs.len(),
{
    if vs.len() == 0 {
        sr
    } else {
        with_flag_each(with_flag(sr, f, vs[0]), f, vs.drop_first())
    }
}

/// However many times one flag is set, and to whatever values, a different
/// flag keeps the value it had.
pub proof fn lemma_flag_isolation_each(sr: Flags, f1: Flag, f2: Flag, vs: Seq<bool>)
    requires
        f1 != f2,
    ensures
        flag_in(with_flag_each(sr, f1, vs), f2) == flag_in(sr, f2),
    decreases vs.len(),
{
    if vs.len() > 0 {
        lemma_flag_isolation(sr, f1, f2, vs[0]);
        lemma_flag_isolation_each(with_flag(sr, f1, vs[0]), f1, f2, vs.drop_first());
    }
}

/// A flag reads back exactly the value it was last set to.
pub proof fn lemma_flag_round_trip(sr: Flags, f: Flag, v: bool)
    ensures
        flag_in(with_flag(sr, f, v), f) == v,
{
    let m = f.mask();
    assert(m != 0u8);
    assert(((sr | m) & m) == m && ((sr & !m) & m) == 0u8) by (bit_vector);
}

/// A status register. Its bits change only one named flag at a time.
#[derive(Debug, Clone, Copy)]
pub struct Status {
    bits: Flags,
}

impl Status {
    /// The raw status byte.
    pub closed spec fn bits(&self) -> Flags {
        self.bits
    }

    /// Two status registers with the same bits are the same register.
    pub proof fn lemma_bits_determine(s1: Status, s2: Status)
        requires
            s1.bits() == s2.bits(),
        ensures
            s1 == s2,
    {
    }

    /// Whether flag `f` is set.
    pub open spec fn has(&self, f: Flag) -> bool {
        flag_in(self.bits(), f)
    }

    /// A status register with every bit clear.
    pub fn clear() -> (r: Status)
        ensures
            r.bits() == 0,
            forall|f: Flag| !r.has(f),
    {
        let r = Status { bits: 0 };
        assert forall|f: Flag| !r.has(f) by {
            let m = f.mask();
            assert(0u8 & m == 0u8) by (bit_vector);
        }
        r
    }

    pub fn get(&self, flag: Flag) -> (r: bool)
        ensures
            r == self.has(flag),
    {
        self.bits & flag.to_mask() != 0
    }

    /// Forces one flag to `val`; every other bit is kept.
    pub fn set(&mut self, flag: Flag, val: bool)
        ensures
            final(self).bits() == with_flag(old(self).bits(), flag, val),
            final(self).has(flag) == val,
            forall|g: Flag| g != flag ==> final(self).has(g) == old(self).has(g),
    {
        let mask = flag.to_mask();
        let flag_val = if val { self.bits | mask } else { self.bits & !mask };
        self.bits = flag_val;
        proof {
            lemma_flag_round_trip(old(self).bits, flag, val);
            assert forall|g: Flag| g != flag implies final(self).has(g) == old(self).has(g) by {
                lemma_flag_isolation(old(self).bits, flag, g, val);
            }
        }
    }
}

} // verus!
